//! Where the adapter's configuration lives: the gateway settings store.
//!
//! The store itself is a settings table keyed by strings; reading and
//! writing it is plain I/O and happens outside the library. What the
//! library pins down is the addressing: which file the store is in and
//! under which key this plugin's configuration is filed.

use vstd::prelude::*;
use vstd::string::StringExecFns;

verus! {

/// The location of one plugin's configuration in the gateway settings
/// store: the database file under the gateway's profile directory, and the
/// plugin's identifier, from which the settings key is derived.
pub struct Database {
    path: String,
    plugin_id: String,
}

impl Database {
    /// The full path of the settings database file, for specifications.
    pub closed spec fn path_spec(&self) -> Seq<char> {
        self.path@
    }

    /// The plugin identifier, for specifications.
    pub closed spec fn plugin_id_spec(&self) -> Seq<char> {
        self.plugin_id@
    }

    /// Locate the settings store kept under the directory `path`: the
    /// database file `db.sqlite3` directly inside it.
    pub fn new(path: String, plugin_id: String) -> (db: Database)
        ensures
            db.path_spec() == path@ + "/db.sqlite3"@,
            db.plugin_id_spec() == plugin_id@,
    {
        let mut full = path;
        full.append("/db.sqlite3");
        Database { path: full, plugin_id }
    }

    /// The key this plugin's configuration is filed under in the settings
    /// table.
    pub fn key(&self) -> (k: String)
        ensures
            k@ == "addons.config."@ + self.plugin_id_spec(),
    {
        let mut k = String::from_str("addons.config.");
        k.append(self.plugin_id.as_str());
        k
    }

    /// The full path of the settings database file.
    pub fn path(&self) -> (p: &String)
        ensures
            p@ == self.path_spec(),
    {
        &self.path
    }
}

} // verus!
