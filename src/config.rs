use vstd::prelude::*;
use vstd::string::*;

use crate::text::{decimal, push_decimal};

verus! {

/// Name under which the sidecar binary is bundled with the application.
pub const SIDECAR_NAME: &'static str = "codex";

/// Path of the data directory below the user's home directory.
pub const DATA_DIR_SUFFIX: &'static str = "/.codex/data";

/// Identity record of the bootstrap node the service joins.
pub const BOOTSTRAP_NODE: &'static str = "spr:CiUIAhIhAzCS_gDDbbohfuomYsvRChdG6z0LT-N_kkACoImmgLaVEgIDARpJCicAJQgCEiEDMJL-AMNtuiF-6iZiy9EKF0brPQtP43-SQAKgiaaAtpUQip7mxQYaCwoJBICMN4CRAh-aGgsKCQSAjDeAkQIfmipHMEUCIQD4WbtOTNAkocZSvvZJhtQnncXvZUdtH7JYjRnw_eCZywIgaZU14lI9D7Lou6IxsLNB6iVzXRYvtEd0QKWSwM0p2cs";

/// Log verbosity the service is started with.
pub const LOG_LEVEL: &'static str = "DEBUG";

/// Origins the service's API accepts cross-origin requests from.
pub const CORS_ORIGIN: &'static str = "*";

/// Port the service's API listens on; the one value both the launch
/// arguments and the endpoint accessor read.
pub const CODEX_PORT: u16 = 3213;

/// Address the service's API binds to (all interfaces).
pub const BIND_ADDR: &'static str = "0.0.0.0";

pub const BOOTSTRAP_FLAG: &'static str = "--bootstrap-node=";
pub const LOG_LEVEL_FLAG: &'static str = "--log-level=";
pub const CORS_FLAG: &'static str = "--api-cors-origin=";
pub const DATA_DIR_FLAG: &'static str = "--data-dir=";
pub const PORT_FLAG: &'static str = "--api-port=";
pub const BIND_ADDR_FLAG: &'static str = "--api-bindaddr=";

/// Everything the sidecar is launched with. Built once at setup, read-only after.
pub struct LaunchConfig {
    pub bootstrap_node: String,
    pub log_level: String,
    pub cors_origin: String,
    pub data_dir: String,
    pub port: u16,
    pub bind_addr: String,
}

/// The data directory for the home directory `home`.
pub open spec fn data_dir_spec(home: Seq<char>) -> Seq<char> {
    home + DATA_DIR_SUFFIX@
}

/// The command line of the sidecar, in the order the service expects.
pub open spec fn launch_args_spec(c: LaunchConfig) -> Seq<Seq<char>> {
    seq![
        BOOTSTRAP_FLAG@ + c.bootstrap_node@,
        LOG_LEVEL_FLAG@ + c.log_level@,
        CORS_FLAG@ + c.cors_origin@,
        DATA_DIR_FLAG@ + c.data_dir@,
        PORT_FLAG@ + decimal(c.port as nat),
        BIND_ADDR_FLAG@ + c.bind_addr@,
    ]
}

/// The character sequences of a list of strings.
pub open spec fn string_views(v: Seq<String>) -> Seq<Seq<char>> {
    v.map_values(|s: String| s@)
}

/// The configuration the application launches its sidecar with.
pub open spec fn default_config_spec(c: LaunchConfig, home: Seq<char>) -> bool {
    &&& c.bootstrap_node@ == BOOTSTRAP_NODE@
    &&& c.log_level@ == LOG_LEVEL@
    &&& c.cors_origin@ == CORS_ORIGIN@
    &&& c.data_dir@ == data_dir_spec(home)
    &&& c.port == CODEX_PORT
    &&& c.bind_addr@ == BIND_ADDR@
}

/// The data directory below the home directory `home`.
pub fn data_dir_path(home: &str) -> (r: String)
    ensures
        r@ == data_dir_spec(home@),
{
    let mut r = String::from_str(home);
    r.append(DATA_DIR_SUFFIX);
    r
}

/// `flag` followed by `value`.
fn flag_arg(flag: &str, value: &str) -> (r: String)
    ensures
        r@ == flag@ + value@,
{
    let mut r = String::from_str(flag);
    r.append(value);
    r
}

impl LaunchConfig {
    /// The configuration used for the user whose home directory is `home`.
    pub fn for_home(home: &str) -> (r: LaunchConfig)
        ensures
            default_config_spec(r, home@),
    {
        LaunchConfig {
            bootstrap_node: String::from_str(BOOTSTRAP_NODE),
            log_level: String::from_str(LOG_LEVEL),
            cors_origin: String::from_str(CORS_ORIGIN),
            data_dir: data_dir_path(home),
            port: CODEX_PORT,
            bind_addr: String::from_str(BIND_ADDR),
        }
    }

    /// The sidecar's command line: bootstrap identity, log level, CORS policy,
    /// data directory, port and bind address, in that order.
    pub fn launch_args(&self) -> (r: Vec<String>)
        ensures
            string_views(r@) == launch_args_spec(*self),
    {
        let mut r: Vec<String> = Vec::new();
        r.push(flag_arg(BOOTSTRAP_FLAG, self.bootstrap_node.as_str()));
        r.push(flag_arg(LOG_LEVEL_FLAG, self.log_level.as_str()));
        r.push(flag_arg(CORS_FLAG, self.cors_origin.as_str()));
        r.push(flag_arg(DATA_DIR_FLAG, self.data_dir.as_str()));
        let mut port = String::from_str(PORT_FLAG);
        push_decimal(&mut port, self.port as u32);
        r.push(port);
        r.push(flag_arg(BIND_ADDR_FLAG, self.bind_addr.as_str()));
        assert(string_views(r@) =~= launch_args_spec(*self));
        r
    }
}

/// The port the sidecar's API listens on.
pub fn get_codex_port() -> (r: u16)
    ensures
        r == CODEX_PORT,
{
    CODEX_PORT
}

/// The endpoint accessor and the launch arguments agree: the port argument
/// of the configuration the application launches with names the port that
/// `get_codex_port` returns.
pub proof fn lemma_endpoint_matches_launch_args(c: LaunchConfig, home: Seq<char>)
    requires
        default_config_spec(c, home),
    ensures
        launch_args_spec(c)[4] == PORT_FLAG@ + decimal(CODEX_PORT as nat),
        c.port == CODEX_PORT,
{
}

} // verus!
