//! Where the engine keeps its files: the live database, the saved
//! snapshot, and the folder that blob defaults are read from.

use vstd::prelude::*;

use crate::EconfError;

verus! {

/// The paths an engine is opened on.
pub struct Config {
    pub database_path: String,
    pub saved_database_path: String,
    pub default_data_folder: String,
}

impl Config {
    /// Gather the three paths.
    pub fn new(database_path: &String, saved_database_path: &String, default_data_folder: &String)
        -> (r: Result<Config, EconfError>)
        ensures
            match r {
                Ok(c) => {
                    &&& c.database_path@ == database_path@
                    &&& c.saved_database_path@ == saved_database_path@
                    &&& c.default_data_folder@ == default_data_folder@
                },
                Err(_) => false,
            },
    {
        Ok(
            Config {
                database_path: database_path.clone(),
                saved_database_path: saved_database_path.clone(),
                default_data_folder: default_data_folder.clone(),
            },
        )
    }
}

} // verus!
