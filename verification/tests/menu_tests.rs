use laundry_pos::menu::{app_menu, menu_action, route_path, MenuAction, Route};

#[test]
fn menu_action_file_entries() {
    assert_eq!(menu_action("new_order"), MenuAction::NewOrder);
    assert_eq!(menu_action("print_receipt"), MenuAction::PrintReceipt);
    assert_eq!(menu_action("quit"), MenuAction::Quit);
}

#[test]
fn menu_action_navigation_entries() {
    assert_eq!(menu_action("dashboard"), MenuAction::Navigate(Route::Dashboard));
    assert_eq!(menu_action("orders"), MenuAction::Navigate(Route::Orders));
    assert_eq!(menu_action("customers"), MenuAction::Navigate(Route::Customers));
    assert_eq!(menu_action("settings"), MenuAction::Navigate(Route::Settings));
}

#[test]
fn menu_action_tool_entries() {
    assert_eq!(menu_action("backup_database"), MenuAction::BackupDatabase);
    assert_eq!(menu_action("reload"), MenuAction::Reload);
    assert_eq!(menu_action("dev_tools"), MenuAction::ToggleDevTools);
    assert_eq!(menu_action("about"), MenuAction::About);
}

#[test]
fn menu_action_unknown_is_ignored() {
    assert_eq!(menu_action(""), MenuAction::Ignore);
    assert_eq!(menu_action("new_orders"), MenuAction::Ignore);
    assert_eq!(menu_action("Quit"), MenuAction::Ignore);
}

#[test]
fn route_paths() {
    assert_eq!(route_path(Route::Dashboard), "/dashboard");
    assert_eq!(route_path(Route::Orders), "/dashboard/orders");
    assert_eq!(route_path(Route::Customers), "/dashboard/customers");
    assert_eq!(route_path(Route::Settings), "/dashboard/settings");
}

#[test]
fn app_menu_layout() {
    let m = app_menu();
    let titles: Vec<&str> = m.iter().map(|s| s.title.as_str()).collect();
    assert_eq!(titles, ["File", "View", "Tools", "Help"]);
    let file_ids: Vec<&str> = m[0].entries.iter().map(|e| e.id.as_str()).collect();
    assert_eq!(file_ids, ["new_order", "print_receipt", "quit"]);
    let view_ids: Vec<&str> = m[1].entries.iter().map(|e| e.id.as_str()).collect();
    assert_eq!(view_ids, ["dashboard", "orders", "customers", "reload", "dev_tools"]);
    let tools_ids: Vec<&str> = m[2].entries.iter().map(|e| e.id.as_str()).collect();
    assert_eq!(tools_ids, ["backup_database", "settings"]);
    let help_ids: Vec<&str> = m[3].entries.iter().map(|e| e.id.as_str()).collect();
    assert_eq!(help_ids, ["about"]);
    assert_eq!(m[0].entries[0].accelerator.as_deref(), Some("CmdOrCtrl+N"));
    assert!(m[0].entries[2].separator_before);
    assert!(m[1].entries[3].separator_before);
}

#[test]
fn every_menu_entry_dispatches() {
    for submenu in app_menu() {
        for e in submenu.entries {
            assert_ne!(menu_action(e.id.as_str()), MenuAction::Ignore, "id {}", e.id);
        }
    }
}
