//! Application configuration defaults.

use vstd::prelude::*;

verus! {

/// Application-level configuration handed to the host shell.
pub struct AppConfig {
    pub database_url: String,
    pub app_name: String,
    pub version: String,
}

impl Default for AppConfig {
    /// The defaults the application ships with: no database URL, the
    /// product name, and the current version.
    fn default() -> (r: AppConfig)
        ensures
            r.database_url@ == Seq::<char>::empty(),
            r.app_name@ == "Monic Laundry POS"@,
            r.version@ == "1.0.0"@,
    {
        AppConfig {
            database_url: String::new(),
            app_name: String::from_str("Monic Laundry POS"),
            version: String::from_str("1.0.0"),
        }
    }
}

} // verus!
