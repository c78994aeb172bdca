use vstd::prelude::*;
use vstd::string::StringExecFns;

verus! {

/// The settings the service starts with.
#[derive(Clone, Debug)]
pub struct Config {
    pub database_url: String,
    pub server_address: String,
    pub base_url: String,
    pub surreal_username: String,
    pub surreal_password: String,
}

/// The value given, or `fallback` where none is.
pub open spec fn or_default(given: Option<String>, fallback: Seq<char>) -> Seq<char> {
    match given {
        Some(value) => value@,
        None => fallback,
    }
}

fn value_or(given: Option<String>, fallback: &str) -> (value: String)
    ensures
        value@ == or_default(given, fallback@),
{
    match given {
        Some(value) => value,
        None => String::from_str(fallback),
    }
}

impl Config {
    /// The store address used where none is configured.
    pub open spec fn default_database_url() -> Seq<char> {
        "wss://cloakystores-wss://cloakystores-06a9f7u3jlrsf43q77o8ttu1kk.aws-euw1.surreal.cloud"@
    }

    /// The bind address, and the base URL, used where none is configured.
    pub open spec fn default_address() -> Seq<char> {
        "0.0.0.0:3000"@
    }

    /// Builds the settings from the values found, each replaced by its default
    /// where it is missing: the credentials default to the empty string.
    pub fn from_values(
        database_url: Option<String>,
        server_address: Option<String>,
        base_url: Option<String>,
        surreal_username: Option<String>,
        surreal_password: Option<String>,
    ) -> (config: Config)
        ensures
            config.database_url@ == or_default(database_url, Config::default_database_url()),
            config.server_address@ == or_default(server_address, Config::default_address()),
            config.base_url@ == or_default(base_url, Config::default_address()),
            config.surreal_username@ == or_default(surreal_username, Seq::empty()),
            config.surreal_password@ == or_default(surreal_password, Seq::empty()),
    {
        proof {
            reveal_strlit("");
        }
        assert(""@ =~= Seq::<char>::empty());
        Config {
            database_url: value_or(
                database_url,
                "wss://cloakystores-wss://cloakystores-06a9f7u3jlrsf43q77o8ttu1kk.aws-euw1.surreal.cloud",
            ),
            server_address: value_or(server_address, "0.0.0.0:3000"),
            base_url: value_or(base_url, "0.0.0.0:3000"),
            surreal_username: value_or(surreal_username, ""),
            surreal_password: value_or(surreal_password, ""),
        }
    }
}

} // verus!
