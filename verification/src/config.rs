//! The configuration: where to listen and which database to use.

use vstd::prelude::*;

verus! {

/// The port that is used when none is given.
pub const DEFAULT_PORT: &'static str = "8080";

/// The database that is used when none is given: the local development one.
pub const DATABASE_URL: &'static str = "postgres://localhost:5432/profile_counter_dev";

/// The address of all interfaces, with the colon that goes before the port.
pub const BIND_PREFIX: &'static str = "0.0.0.0:";

/// The settings of the service, fixed once at startup.
#[derive(Debug, PartialEq, Eq)]
pub struct Config {
    pub port: String,
    pub database_url: String,
}

/// The port to listen on: the one given, unless none or an empty one is.
pub open spec fn chosen_port(port: Option<Seq<char>>) -> Seq<char> {
    match port {
        Some(value) if value.len() > 0 => value,
        _ => DEFAULT_PORT@,
    }
}

/// The database to use: the one given, if one is.
pub open spec fn chosen_database(database_url: Option<Seq<char>>) -> Seq<char> {
    match database_url {
        Some(value) => value,
        None => DATABASE_URL@,
    }
}

/// The address to listen on for a port: every interface, at that port.
pub open spec fn bind_address_of(port: Seq<char>) -> Seq<char> {
    BIND_PREFIX@ + port
}

/// The view of an optional string.
pub open spec fn text_of(value: Option<String>) -> Option<Seq<char>> {
    match value {
        Some(text) => Some(text@),
        None => None,
    }
}

impl Config {
    /// The settings for the values of `PORT` and `DATABASE_URL`, each `None`
    /// where the variable is not set.
    pub fn new(port: Option<String>, database_url: Option<String>) -> (config: Config)
        ensures
            config.port@ == chosen_port(text_of(port)),
            config.database_url@ == chosen_database(text_of(database_url)),
    {
        let port = match port {
            Some(value) => {
                if value.as_str().is_empty() {
                    String::from_str(DEFAULT_PORT)
                } else {
                    value
                }
            },
            None => String::from_str(DEFAULT_PORT),
        };
        let database_url = match database_url {
            Some(value) => value,
            None => String::from_str(DATABASE_URL),
        };
        Config { port, database_url }
    }

    /// The address to listen on.
    pub fn bind_address(&self) -> (address: String)
        ensures
            address@ == bind_address_of(self.port@),
    {
        String::from_str(BIND_PREFIX).concat(self.port.as_str())
    }
}

} // verus!
