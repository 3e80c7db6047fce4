//! The server-side configuration record and the defaults its fields fall
//! back to; the rim fills it from a configuration file.

use vstd::prelude::*;
use vstd::string::StringExecFns;

verus! {

/// The settings the parameter server runs with.
pub struct Config {
    pub database_path: String,
    pub saved_database_path: String,
    pub default_data_folder: String,
    pub json_rpc_listen_address: String,
    pub json_rpc_port: String,
}

/// The live database file used when none is configured.
pub fn default_database_path() -> (r: String)
    ensures
        r@ == "configuration.db"@,
{
    String::from_str("configuration.db")
}

/// The saved snapshot file used when none is configured.
pub fn default_saved_database_path() -> (r: String)
    ensures
        r@ == "configuration_saved.db"@,
{
    String::from_str("configuration_saved.db")
}

/// The blob-default data folder used when none is configured.
pub fn default_default_data_folder() -> (r: String)
    ensures
        r@ == "."@,
{
    String::from_str(".")
}

/// The listen address used when none is configured.
pub fn default_json_rpc_listen_address() -> (r: String)
    ensures
        r@ == "127.0.0.1"@,
{
    String::from_str("127.0.0.1")
}

/// The listen port used when none is configured.
pub fn default_json_rpc_port() -> (r: String)
    ensures
        r@ == "3030"@,
{
    String::from_str("3030")
}

/// The schema source file used when none is configured.
pub fn default_proto_name() -> (r: String)
    ensures
        r@ == "configuration.proto"@,
{
    String::from_str("configuration.proto")
}

impl Default for Config {
    /// The configuration with every field at its default.
    fn default() -> (r: Config)
        ensures
            r.database_path@ == "configuration.db"@,
            r.saved_database_path@ == "configuration_saved.db"@,
            r.default_data_folder@ == "."@,
            r.json_rpc_listen_address@ == "127.0.0.1"@,
            r.json_rpc_port@ == "3030"@,
    {
        Config {
            database_path: default_database_path(),
            saved_database_path: default_saved_database_path(),
            default_data_folder: default_default_data_folder(),
            json_rpc_listen_address: default_json_rpc_listen_address(),
            json_rpc_port: default_json_rpc_port(),
        }
    }
}

} // verus!
