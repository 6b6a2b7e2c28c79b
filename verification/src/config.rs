use vstd::prelude::*;

verus! {

/// Parameters for one launch of the supervised server binary.
///
/// `data_path` is required and must be non-empty; `port` and `host` default to
/// 9000 and "127.0.0.1" when absent; the two keys and the console flag are
/// passed to the child only when present/set; `binary_path`, when given,
/// overrides binary resolution.
pub struct LaunchConfig {
    pub data_path: String,
    pub port: Option<u16>,
    pub host: Option<String>,
    pub access_key: Option<String>,
    pub secret_key: Option<String>,
    pub console_enable: bool,
    pub binary_path: Option<String>,
}

} // verus!
