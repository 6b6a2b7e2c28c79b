use rustfs_launcher::config::LaunchConfig;
use rustfs_launcher::errors::LaunchError;
use rustfs_launcher::launcher::build_address;
use rustfs_launcher::launcher::build_args;
use rustfs_launcher::launcher::launch_confirmation;
use rustfs_launcher::launcher::log_directory_env_key;
use rustfs_launcher::launcher::logs_directory;
use rustfs_launcher::launcher::plan_launch;
use rustfs_launcher::launcher::validate_data_path;

fn minimal_config(data_path: &str) -> LaunchConfig {
    LaunchConfig {
        data_path: String::from(data_path),
        port: None,
        host: None,
        access_key: None,
        secret_key: None,
        console_enable: false,
        binary_path: None,
    }
}

#[test]
fn empty_data_path_is_rejected_before_anything_else() {
    assert_eq!(validate_data_path(""), Err(LaunchError::DataPathRequired));
    let r = plan_launch(&minimal_config(""), String::from("/bin/rustfs"));
    assert_eq!(r, Err(LaunchError::DataPathRequired));
}

#[test]
fn non_empty_data_path_is_accepted() {
    assert_eq!(validate_data_path("/data/rustfs"), Ok(()));
}

#[test]
fn address_defaults_to_loopback_and_9000() {
    assert_eq!(build_address(&None, &None), "127.0.0.1:9000");
}

#[test]
fn address_uses_explicit_host_and_port() {
    assert_eq!(build_address(&Some(String::from("0.0.0.0")), &Some(1234)), "0.0.0.0:1234");
    assert_eq!(build_address(&None, &Some(0)), "127.0.0.1:0");
    assert_eq!(build_address(&Some(String::from("::1")), &Some(65535)), "::1:65535");
}

#[test]
fn logs_directory_is_sibling_of_data_path_parent() {
    assert_eq!(logs_directory("/data/rustfs"), "/data/logs");
    assert_eq!(logs_directory("a/b/c"), "a/b/logs");
    assert_eq!(logs_directory("/data"), "/logs");
    assert_eq!(logs_directory("a//b"), "a/logs");
}

#[test]
fn logs_directory_ignores_trailing_separators() {
    assert_eq!(logs_directory("data/"), "logs");
    assert_eq!(logs_directory("data///"), "logs");
    assert_eq!(logs_directory("/srv/rustfs/data/"), "/srv/rustfs/logs");
}

#[test]
fn logs_directory_recognizes_backslash_separators() {
    assert_eq!(logs_directory("C:\\data"), "C:/logs");
    assert_eq!(logs_directory("\\data"), "\\logs");
    assert_eq!(logs_directory("C:\\srv\\data\\"), "C:\\srv/logs");
}

#[test]
fn logs_directory_falls_back_without_a_parent() {
    assert_eq!(logs_directory("rustfs"), "logs");
    assert_eq!(logs_directory("/"), "logs");
    assert_eq!(logs_directory(""), "logs");
}

#[test]
fn confirmation_embeds_the_process_identifier() {
    assert_eq!(launch_confirmation(12345), "RustFS launched with PID: 12345");
    assert_eq!(launch_confirmation(0), "RustFS launched with PID: 0");
}

#[test]
fn args_hold_positional_path_and_address() {
    let args = build_args(&minimal_config("/data/rustfs"));
    assert_eq!(
        args,
        vec![
            String::from("/data/rustfs"),
            String::from("--address"),
            String::from("127.0.0.1:9000"),
        ]
    );
}

#[test]
fn optional_flags_appear_exactly_when_configured() {
    let mut config = minimal_config("/data/rustfs");
    config.host = Some(String::from("0.0.0.0"));
    config.port = Some(1234);
    config.access_key = Some(String::from("ak"));
    config.secret_key = Some(String::from("sk"));
    config.console_enable = true;
    let args = build_args(&config);
    assert_eq!(
        args,
        vec![
            String::from("/data/rustfs"),
            String::from("--address"),
            String::from("0.0.0.0:1234"),
            String::from("--access-key"),
            String::from("ak"),
            String::from("--secret-key"),
            String::from("sk"),
            String::from("--console-enable"),
        ]
    );

    let none = build_args(&minimal_config("/data/rustfs"));
    assert!(!none.contains(&String::from("--access-key")));
    assert!(!none.contains(&String::from("--secret-key")));
    assert!(!none.contains(&String::from("--console-enable")));

    let mut only_access = minimal_config("/data/rustfs");
    only_access.access_key = Some(String::from("ak"));
    let args = build_args(&only_access);
    assert!(args.contains(&String::from("--access-key")));
    assert!(!args.contains(&String::from("--secret-key")));
    assert!(!args.contains(&String::from("--console-enable")));
}

#[test]
fn plan_carries_binary_logs_and_args() {
    let mut config = minimal_config("/data/rustfs");
    config.port = Some(9001);
    let plan = plan_launch(&config, String::from("/app/binaries/rustfs")).unwrap();
    assert_eq!(plan.binary_path, "/app/binaries/rustfs");
    assert_eq!(plan.logs_directory, "/data/logs");
    assert_eq!(
        plan.args,
        vec![
            String::from("/data/rustfs"),
            String::from("--address"),
            String::from("127.0.0.1:9001"),
        ]
    );
}

#[test]
fn child_log_environment_variable_name_is_fixed() {
    assert_eq!(log_directory_env_key(), "RUSTFS_OBS_LOG_DIRECTORY");
}
