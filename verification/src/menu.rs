//! The application menu and the dispatch of its events.
//!
//! The menu tree is plain data ([`app_menu`]); the host shell turns it into
//! native menu items. When the user picks an entry, the shell hands the
//! entry's identifier to [`menu_action`], which decides what the front end
//! should do. The decision is total: an unknown identifier maps to
//! [`MenuAction::Ignore`].

use vstd::prelude::*;
use crate::strutil::str_eq;

verus! {

/// A front-end route a menu entry can navigate to.
#[derive(Clone, Copy, PartialEq, Eq, Structural, Debug)]
pub enum Route {
    Dashboard,
    Orders,
    Customers,
    Settings,
}

/// What the front end is asked to do after a menu event.
#[derive(Clone, Copy, PartialEq, Eq, Structural, Debug)]
pub enum MenuAction {
    /// Emit the new-order event.
    NewOrder,
    /// Emit the print-receipt event.
    PrintReceipt,
    /// Navigate to a route.
    Navigate(Route),
    /// Emit the backup-database event.
    BackupDatabase,
    /// Reload the page.
    Reload,
    /// Toggle the developer tools.
    ToggleDevTools,
    /// Show the about dialog.
    About,
    /// Exit the application.
    Quit,
    /// An identifier no entry uses; nothing happens.
    Ignore,
}

/// The path the front end navigates to for each route.
pub open spec fn spec_route_path(r: Route) -> Seq<char> {
    match r {
        Route::Dashboard => "/dashboard"@,
        Route::Orders => "/dashboard/orders"@,
        Route::Customers => "/dashboard/customers"@,
        Route::Settings => "/dashboard/settings"@,
    }
}

/// The action each menu identifier stands for.
pub open spec fn spec_menu_action(id: Seq<char>) -> MenuAction {
    if id == "new_order"@ {
        MenuAction::NewOrder
    } else if id == "print_receipt"@ {
        MenuAction::PrintReceipt
    } else if id == "dashboard"@ {
        MenuAction::Navigate(Route::Dashboard)
    } else if id == "orders"@ {
        MenuAction::Navigate(Route::Orders)
    } else if id == "customers"@ {
        MenuAction::Navigate(Route::Customers)
    } else if id == "settings"@ {
        MenuAction::Navigate(Route::Settings)
    } else if id == "backup_database"@ {
        MenuAction::BackupDatabase
    } else if id == "reload"@ {
        MenuAction::Reload
    } else if id == "dev_tools"@ {
        MenuAction::ToggleDevTools
    } else if id == "about"@ {
        MenuAction::About
    } else if id == "quit"@ {
        MenuAction::Quit
    } else {
        MenuAction::Ignore
    }
}

/// The navigation path of a route.
pub fn route_path(r: Route) -> (p: String)
    ensures
        p@ == spec_route_path(r),
{
    match r {
        Route::Dashboard => String::from_str("/dashboard"),
        Route::Orders => String::from_str("/dashboard/orders"),
        Route::Customers => String::from_str("/dashboard/customers"),
        Route::Settings => String::from_str("/dashboard/settings"),
    }
}

/// Decides what a menu event asks the front end to do.
pub fn menu_action(id: &str) -> (r: MenuAction)
    ensures
        r == spec_menu_action(id@),
{
    if str_eq(id, "new_order") {
        MenuAction::NewOrder
    } else if str_eq(id, "print_receipt") {
        MenuAction::PrintReceipt
    } else if str_eq(id, "dashboard") {
        MenuAction::Navigate(Route::Dashboard)
    } else if str_eq(id, "orders") {
        MenuAction::Navigate(Route::Orders)
    } else if str_eq(id, "customers") {
        MenuAction::Navigate(Route::Customers)
    } else if str_eq(id, "settings") {
        MenuAction::Navigate(Route::Settings)
    } else if str_eq(id, "backup_database") {
        MenuAction::BackupDatabase
    } else if str_eq(id, "reload") {
        MenuAction::Reload
    } else if str_eq(id, "dev_tools") {
        MenuAction::ToggleDevTools
    } else if str_eq(id, "about") {
        MenuAction::About
    } else if str_eq(id, "quit") {
        MenuAction::Quit
    } else {
        MenuAction::Ignore
    }
}

/// One entry of a submenu.
pub struct MenuEntry {
    /// The identifier handed back on a menu event.
    pub id: String,
    /// The label shown to the user.
    pub label: String,
    /// The keyboard accelerator, if any.
    pub accelerator: Option<String>,
    /// Whether a separator is drawn above this entry.
    pub separator_before: bool,
}

/// One titled submenu of the application menu.
pub struct Submenu {
    pub title: String,
    pub entries: Vec<MenuEntry>,
}

fn entry(id: &str, label: &str, accelerator: Option<&str>, separator_before: bool) -> (e:
    MenuEntry)
    ensures
        e.id@ == id@,
        e.label@ == label@,
        e.separator_before == separator_before,
        accelerator is Some ==> e.accelerator is Some && e.accelerator->0@ == accelerator->0@,
        accelerator is None ==> e.accelerator is None,
{
    MenuEntry {
        id: String::from_str(id),
        label: String::from_str(label),
        accelerator: match accelerator {
            Some(a) => Some(String::from_str(a)),
            None => None,
        },
        separator_before,
    }
}

/// The application menu: File, View, Tools and Help, with the entries the
/// front end understands. Every entry identifier maps to an action other
/// than [`MenuAction::Ignore`] under [`spec_menu_action`].
pub fn app_menu() -> (m: Vec<Submenu>)
    ensures
        m@.len() == 4,
        m@[0].title@ == "File"@,
        m@[0].entries@.len() == 3,
        m@[0].entries@[0].id@ == "new_order"@,
        m@[0].entries@[0].label@ == "New Order"@,
        m@[0].entries@[1].id@ == "print_receipt"@,
        m@[0].entries@[1].label@ == "Print Receipt"@,
        m@[0].entries@[2].id@ == "quit"@,
        m@[0].entries@[2].label@ == "Exit"@,
        m@[0].entries@[2].separator_before,
        m@[1].title@ == "View"@,
        m@[1].entries@.len() == 5,
        m@[1].entries@[0].id@ == "dashboard"@,
        m@[1].entries@[1].id@ == "orders"@,
        m@[1].entries@[2].id@ == "customers"@,
        m@[1].entries@[3].id@ == "reload"@,
        m@[1].entries@[3].separator_before,
        m@[1].entries@[4].id@ == "dev_tools"@,
        m@[2].title@ == "Tools"@,
        m@[2].entries@.len() == 2,
        m@[2].entries@[0].id@ == "backup_database"@,
        m@[2].entries@[1].id@ == "settings"@,
        m@[3].title@ == "Help"@,
        m@[3].entries@.len() == 1,
        m@[3].entries@[0].id@ == "about"@,
        m@[3].entries@[0].label@ == "About Monic Laundry POS"@,
        forall|i: int, j: int|
            0 <= i < m@.len() && 0 <= j < m@[i].entries@.len() ==> spec_menu_action(
                #[trigger] m@[i].entries@[j].id@,
            ) != MenuAction::Ignore,
{
    let mut file: Vec<MenuEntry> = Vec::new();
    file.push(entry("new_order", "New Order", Some("CmdOrCtrl+N"), false));
    file.push(entry("print_receipt", "Print Receipt", Some("CmdOrCtrl+P"), false));
    file.push(entry("quit", "Exit", Some("CmdOrCtrl+Q"), true));

    let mut view: Vec<MenuEntry> = Vec::new();
    view.push(entry("dashboard", "Dashboard", Some("CmdOrCtrl+1"), false));
    view.push(entry("orders", "Orders", Some("CmdOrCtrl+2"), false));
    view.push(entry("customers", "Customers", Some("CmdOrCtrl+3"), false));
    view.push(entry("reload", "Reload", Some("CmdOrCtrl+R"), true));
    view.push(entry("dev_tools", "Toggle Developer Tools", Some("F12"), false));

    let mut tools: Vec<MenuEntry> = Vec::new();
    tools.push(entry("backup_database", "Backup Database", None, false));
    tools.push(entry("settings", "Settings", Some("CmdOrCtrl+,"), false));

    let mut help: Vec<MenuEntry> = Vec::new();
    help.push(entry("about", "About Monic Laundry POS", None, false));

    let mut m: Vec<Submenu> = Vec::new();
    m.push(Submenu { title: String::from_str("File"), entries: file });
    m.push(Submenu { title: String::from_str("View"), entries: view });
    m.push(Submenu { title: String::from_str("Tools"), entries: tools });
    m.push(Submenu { title: String::from_str("Help"), entries: help });
    proof {
        reveal_strlit("new_order");
        reveal_strlit("print_receipt");
        reveal_strlit("quit");
        reveal_strlit("dashboard");
        reveal_strlit("orders");
        reveal_strlit("customers");
        reveal_strlit("reload");
        reveal_strlit("dev_tools");
        reveal_strlit("backup_database");
        reveal_strlit("settings");
        reveal_strlit("about");
    }
    m
}

} // verus!
