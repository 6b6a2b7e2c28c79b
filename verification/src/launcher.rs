use vstd::prelude::*;

use crate::config::LaunchConfig;
use crate::errors::LaunchError;
use crate::strutil::decimal_string;
use crate::strutil::last_separator_position;
use crate::strutil::spec_decimal;
use crate::strutil::spec_last_sep;
use crate::strutil::spec_trim_seps;
use crate::strutil::trim_trailing_separators;

verus! {

/// The log directory derived from `data_path`: the `logs` sibling of
/// `data_path`'s parent, or a bare `logs` directory when `data_path` has no
/// parent. The parent is taken as `Path::parent` takes it: trailing
/// separators (either kind) are ignored, the prefix before the last remaining
/// separator is the parent (itself stripped of trailing separators), and a
/// parent that is only the leading separator is the root. The join uses '/'.
pub open spec fn spec_logs_dir(data_path: Seq<char>) -> Seq<char> {
    let t = spec_trim_seps(data_path);
    let i = spec_last_sep(t);
    if i < 0 {
        "logs"@
    } else {
        let p = spec_trim_seps(t.subrange(0, i));
        if p.len() == 0 {
            seq![t[i]] + "logs"@
        } else {
            p + "/logs"@
        }
    }
}

/// Derives the directory the child's own log output is directed to, as
/// [`spec_logs_dir`] gives it. The caller creates it (and missing ancestors)
/// before the spawn.
pub fn logs_directory(data_path: &str) -> (r: String)
    ensures
        r@ == spec_logs_dir(data_path@),
{
    let t = trim_trailing_separators(data_path);
    match last_separator_position(t) {
        Some(i) => {
            let prefix = t.substring_char(0, i);
            let p = trim_trailing_separators(prefix);
            proof {
                assert(p@ == spec_trim_seps(t@.subrange(0, i as int)));
            }
            if p.unicode_len() == 0 {
                if t.get_char(i) == '/' {
                    let r = "/logs".to_owned();
                    proof {
                        reveal_strlit("/logs");
                        reveal_strlit("logs");
                        assert(r@ =~= seq![t@[i as int]] + "logs"@);
                    }
                    r
                } else {
                    let r = "\\logs".to_owned();
                    proof {
                        reveal_strlit("\\logs");
                        reveal_strlit("logs");
                        assert(r@ =~= seq![t@[i as int]] + "logs"@);
                    }
                    r
                }
            } else {
                let mut r = p.to_owned();
                r.append("/logs");
                r
            }
        },
        None => "logs".to_owned(),
    }
}

/// The `--address` value: the host (default "127.0.0.1"), a ':' separator, and
/// the decimal port (default 9000).
pub open spec fn spec_address(host: Option<Seq<char>>, port: Option<u16>) -> Seq<char> {
    let h = match host {
        Some(h) => h,
        None => "127.0.0.1"@,
    };
    let p: nat = match port {
        Some(p) => p as nat,
        None => 9000,
    };
    h + ":"@ + spec_decimal(p)
}

/// Builds the `--address` value of [`spec_address`] from the optional config
/// fields.
pub fn build_address(host: &Option<String>, port: &Option<u16>) -> (r: String)
    ensures
        r@ == spec_address(host.deep_view(), *port),
{
    let mut r: String = match host {
        Some(h) => h.clone(),
        None => "127.0.0.1".to_owned(),
    };
    r.append(":");
    let p: u16 = match port {
        Some(p) => *p,
        None => 9000,
    };
    let digits = decimal_string(p as u64);
    r.append(digits.as_str());
    r
}

/// The argument list handed to the child: the data path as positional
/// argument; `--address` with the value of [`spec_address`]; then
/// `--access-key` and `--secret-key` with their values exactly when the config
/// carries them, and `--console-enable` exactly when the flag is set.
pub open spec fn spec_args(c: LaunchConfig) -> Seq<Seq<char>> {
    seq![c.data_path@, "--address"@, spec_address(c.host.deep_view(), c.port)] + (match c
        .access_key {
        Some(k) => seq!["--access-key"@, k@],
        None => Seq::empty(),
    }) + (match c.secret_key {
        Some(k) => seq!["--secret-key"@, k@],
        None => Seq::empty(),
    }) + (if c.console_enable {
        seq!["--console-enable"@]
    } else {
        Seq::empty()
    })
}

/// Builds the child's argument list, exactly [`spec_args`].
pub fn build_args(config: &LaunchConfig) -> (r: Vec<String>)
    ensures
        r.deep_view() == spec_args(*config),
{
    let mut v: Vec<String> = Vec::new();
    v.push(config.data_path.clone());
    v.push("--address".to_owned());
    v.push(build_address(&config.host, &config.port));
    match &config.access_key {
        Some(k) => {
            v.push("--access-key".to_owned());
            v.push(k.clone());
        },
        None => {},
    }
    match &config.secret_key {
        Some(k) => {
            v.push("--secret-key".to_owned());
            v.push(k.clone());
        },
        None => {},
    }
    if config.console_enable {
        v.push("--console-enable".to_owned());
    }
    proof {
        assert(v.deep_view() =~= spec_args(*config));
    }
    v
}

/// Optional-flag law: a flag string stands in the constructed argument list
/// exactly when the corresponding config field is present (or, for the console
/// flag, set) — provided none of the caller-supplied values spells one of the
/// other flags itself.
pub proof fn lemma_optional_flags(c: LaunchConfig)
    requires
        c.data_path@ != "--access-key"@,
        c.data_path@ != "--secret-key"@,
        c.data_path@ != "--console-enable"@,
        spec_address(c.host.deep_view(), c.port) != "--access-key"@,
        spec_address(c.host.deep_view(), c.port) != "--secret-key"@,
        spec_address(c.host.deep_view(), c.port) != "--console-enable"@,
        c.access_key matches Some(k) ==> k@ != "--secret-key"@ && k@ != "--console-enable"@,
        c.secret_key matches Some(k) ==> k@ != "--access-key"@ && k@ != "--console-enable"@,
    ensures
        spec_args(c).contains("--access-key"@) <==> c.access_key is Some,
        spec_args(c).contains("--secret-key"@) <==> c.secret_key is Some,
        spec_args(c).contains("--console-enable"@) <==> c.console_enable,
{
    reveal_strlit("--address");
    reveal_strlit("--access-key");
    reveal_strlit("--secret-key");
    reveal_strlit("--console-enable");
    assert("--address"@.len() == 9);
    assert("--access-key"@.len() == 12);
    assert("--secret-key"@.len() == 12);
    assert("--console-enable"@.len() == 16);
    assert("--address"@ != "--access-key"@);
    assert("--address"@ != "--secret-key"@);
    assert("--address"@ != "--console-enable"@);
    assert("--access-key"@[2] == 'a' && "--secret-key"@[2] == 's');
    assert("--access-key"@ != "--secret-key"@);
    assert("--access-key"@ != "--console-enable"@);
    assert("--secret-key"@ != "--console-enable"@);
    let args = spec_args(c);
    if c.access_key is Some {
        assert(args[3] == "--access-key"@);
        assert(args.contains("--access-key"@));
    } else {
        assert forall|i: int| 0 <= i < args.len() implies args[i] != "--access-key"@ by {
            if c.secret_key is Some {
            }
            if c.console_enable {
            }
        }
        assert(!args.contains("--access-key"@));
    }
    if c.secret_key is Some {
        let k = 3 + if c.access_key is Some {
            2int
        } else {
            0int
        };
        assert(args[k] == "--secret-key"@);
        assert(args.contains("--secret-key"@));
    } else {
        assert forall|i: int| 0 <= i < args.len() implies args[i] != "--secret-key"@ by {
            if c.access_key is Some {
            }
            if c.console_enable {
            }
        }
        assert(!args.contains("--secret-key"@));
    }
    if c.console_enable {
        let k = 3 + (if c.access_key is Some {
            2int
        } else {
            0int
        }) + (if c.secret_key is Some {
            2int
        } else {
            0int
        });
        assert(args[k] == "--console-enable"@);
        assert(args.contains("--console-enable"@));
    } else {
        assert forall|i: int| 0 <= i < args.len() implies args[i] != "--console-enable"@ by {
            if c.access_key is Some {
            }
            if c.secret_key is Some {
            }
        }
        assert(!args.contains("--console-enable"@));
    }
}

/// Rejects an empty `data_path` before anything else happens: the error comes
/// back before any filesystem or process side effect.
pub fn validate_data_path(data_path: &str) -> (r: Result<(), LaunchError>)
    ensures
        r is Ok <==> data_path@.len() > 0,
        r matches Err(e) ==> e is DataPathRequired,
{
    if data_path.unicode_len() == 0 {
        Err(LaunchError::DataPathRequired)
    } else {
        Ok(())
    }
}

/// The confirmation string a successful launch returns to the host, embedding
/// the spawned child's process identifier in decimal.
pub fn launch_confirmation(pid: u32) -> (r: String)
    ensures
        r@ == "RustFS launched with PID: "@ + spec_decimal(pid as nat),
{
    let mut r = "RustFS launched with PID: ".to_owned();
    let digits = decimal_string(pid as u64);
    r.append(digits.as_str());
    r
}

/// The name of the environment variable that directs the child's own log
/// output to the prepared log directory.
pub fn log_directory_env_key() -> (r: String)
    ensures
        r@ == "RUSTFS_OBS_LOG_DIRECTORY"@,
{
    "RUSTFS_OBS_LOG_DIRECTORY".to_owned()
}

/// Everything the spawn needs, computed before any side effect: the resolved
/// binary, the log directory to create, and the full argument list.
#[derive(Debug, PartialEq, Eq)]
pub struct LaunchPlan {
    pub binary_path: String,
    pub logs_directory: String,
    pub args: Vec<String>,
}

/// Turns a validated config and the resolved binary path into the spawn plan.
/// An empty `data_path` is rejected with the validation error and nothing
/// else is computed; otherwise the plan's fields are exactly
/// [`spec_logs_dir`] and [`spec_args`].
pub fn plan_launch(config: &LaunchConfig, binary_path: String) -> (r: Result<
    LaunchPlan,
    LaunchError,
>)
    ensures
        config.data_path@.len() == 0 ==> (r matches Err(e) && e is DataPathRequired),
        config.data_path@.len() > 0 ==> (r matches Ok(p) && {
            &&& p.binary_path == binary_path
            &&& p.logs_directory@ == spec_logs_dir(config.data_path@)
            &&& p.args.deep_view() == spec_args(*config)
        }),
{
    if config.data_path.as_str().unicode_len() == 0 {
        return Err(LaunchError::DataPathRequired);
    }
    let logs = logs_directory(config.data_path.as_str());
    let args = build_args(config);
    Ok(LaunchPlan { binary_path, logs_directory: logs, args })
}

} // verus!
