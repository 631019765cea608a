//! Fixed file locations of the application's data, relative to an
//! explicitly supplied application directory (the stores never look up
//! ambient global state, so they can be pointed at any directory).

use vstd::prelude::*;
use vstd::string::StringExecFns;

verus! {

/// The order database file inside the application directory.
pub fn db_file(app_dir: &str) -> (r: String)
    ensures
        r@ == app_dir@ + "/data.db"@,
{
    let mut s = app_dir.to_owned();
    s.append("/data.db");
    s
}

/// The settings document inside the application directory.
pub fn settings_path(app_dir: &str) -> (r: String)
    ensures
        r@ == app_dir@ + "/settings.json"@,
{
    let mut s = app_dir.to_owned();
    s.append("/settings.json");
    s
}

/// The order database file inside the application directory.
pub fn db_path(app_dir: &str) -> (r: String)
    ensures
        r@ == app_dir@ + "/data.db"@,
{
    db_file(app_dir)
}

} // verus!
