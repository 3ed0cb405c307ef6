use vstd::prelude::*;

verus! {

/// Process configuration.  The hosting process fills it from its
/// environment; `default` gives the values that hold when nothing is set.
#[derive(Debug, Clone)]
pub struct Config {
    pub server_port: u16,
    pub server_host: String,
    pub processor_name: String,
    pub log_level: String,
    pub log_json: bool,
    pub database_url: String,
}

impl Default for Config {
    fn default() -> (c: Config)
        ensures
            c.server_port == 8080,
            c.server_host@ == "0.0.0.0"@,
            c.processor_name@ == "nebulet-processor"@,
            c.log_level@ == "info"@,
            c.log_json == false,
            c.database_url@ == "sqlite://./nebulet.db?mode=rwc"@,
    {
        Config {
            server_port: 8080,
            server_host: "0.0.0.0".to_owned(),
            processor_name: "nebulet-processor".to_owned(),
            log_level: "info".to_owned(),
            log_json: false,
            database_url: "sqlite://./nebulet.db?mode=rwc".to_owned(),
        }
    }
}

} // verus!
