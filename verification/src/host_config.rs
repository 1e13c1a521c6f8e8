//! Host-side configuration, as derived from the environment by the
//! surrounding process and handed to the library as plain values.

use vstd::prelude::*;
use vstd::string::StringExecFns;

verus! {

/// How telemetry spans are exported.
#[derive(Debug, Clone, Copy, PartialEq, Eq, Structural)]
pub enum TracingMode {
    Simple,
    Batch,
}

/// Which deployment environment the host runs in.
#[derive(Debug, Clone, Copy, PartialEq, Eq, Structural)]
pub enum HostEnvironment {
    Development,
    Staging,
    Production,
}

/// Configuration of the host process.
#[derive(Debug, Clone)]
pub struct HostConfig {
    pub environment: HostEnvironment,
    /// Directory holding the identity bundle's six artifact files.
    pub cert_path: String,
    /// Directory for miscellaneous state such as the recovery flag.
    pub misc_path: String,
    /// Subject names the self-signed certificate is issued for.
    pub cert_names: Vec<String>,
    /// Address the protocol listener binds to.
    pub host: String,
    pub port: u16,
    pub binance_api_key: Option<String>,
    pub binance_secret_key: Option<String>,
    pub tracing_mode: Option<TracingMode>,
    pub jaeger_agent_endpoint: Option<String>,
    pub jaeger_collector_endpoint: Option<String>,
    pub influx_url: Option<String>,
    pub influx_username: Option<String>,
    pub influx_password: Option<String>,
}

impl Default for HostConfig {
    /// The development defaults: local certificate and state
    /// directories, two certificate subject names, and the listener on
    /// every interface at port 4001.
    fn default() -> (r: Self)
        ensures
            r.environment == HostEnvironment::Development,
            r.cert_path@ == "./data/certs"@,
            r.misc_path@ == "./data/misc"@,
            r.cert_names@.len() == 2,
            r.cert_names@[0]@ == "localhost"@,
            r.cert_names@[1]@ == "host"@,
            r.host@ == "0.0.0.0"@,
            r.port == 4001,
            r.binance_api_key is None,
            r.binance_secret_key is None,
            r.tracing_mode is None,
            r.jaeger_agent_endpoint is None,
            r.jaeger_collector_endpoint is None,
            r.influx_url is None,
            r.influx_username is None,
            r.influx_password is None,
    {
        let mut cert_names: Vec<String> = Vec::new();
        cert_names.push(String::from_str("localhost"));
        cert_names.push(String::from_str("host"));
        HostConfig {
            environment: HostEnvironment::Development,
            cert_path: String::from_str("./data/certs"),
            misc_path: String::from_str("./data/misc"),
            cert_names,
            host: String::from_str("0.0.0.0"),
            port: 4001,
            binance_api_key: None,
            binance_secret_key: None,
            tracing_mode: None,
            jaeger_agent_endpoint: None,
            jaeger_collector_endpoint: None,
            influx_url: None,
            influx_username: None,
            influx_password: None,
        }
    }
}

} // verus!
