//! The API server's runtime configuration: where to listen, which
//! environment it runs in, and the upstream newsletter credentials.

use vstd::prelude::*;
use vstd::string::StringExecFns;

verus! {

/// The server configuration, normally read from the environment.
#[derive(Debug)]
pub struct Config {
    pub port: u16,
    pub host: String,
    pub environment: String,
    pub loops_api_key: Option<String>,
    pub loops_form_id: Option<String>,
}

/// The port used when none is configured.
pub fn default_port() -> (r: u16)
    ensures
        r == 4400,
{
    4400
}

/// The bind address used when none is configured.
pub fn default_host() -> (r: String)
    ensures
        r@ == "0.0.0.0"@,
{
    String::from_str("0.0.0.0")
}

/// The environment name used when none is configured.
pub fn default_environment() -> (r: String)
    ensures
        r@ == "development"@,
{
    String::from_str("development")
}

impl Default for Config {
    /// The defaults: port 4400 on every interface, a development
    /// environment, and no newsletter credentials.
    fn default() -> (r: Config)
        ensures
            r.port == 4400,
            r.host@ == "0.0.0.0"@,
            r.environment@ == "development"@,
            r.loops_api_key is None,
            r.loops_form_id is None,
    {
        Config {
            port: default_port(),
            host: default_host(),
            environment: default_environment(),
            loops_api_key: None,
            loops_form_id: None,
        }
    }
}

impl Config {
    /// An identical copy.
    pub fn duplicate(&self) -> (r: Config)
        ensures
            r == *self,
    {
        Config {
            port: self.port,
            host: self.host.clone(),
            environment: self.environment.clone(),
            loops_api_key: match &self.loops_api_key {
                Some(k) => Some(k.clone()),
                None => None,
            },
            loops_form_id: match &self.loops_form_id {
                Some(k) => Some(k.clone()),
                None => None,
            },
        }
    }
}

} // verus!
