use stunnel_space::paths::{backup_path_for, temp_path_for, u32_to_string};
use stunnel_space::pid::parse_pid;
use stunnel_space::Config;

fn s(v: &str) -> Option<String> {
    Some(v.to_string())
}

#[test]
fn from_parts_with_everything_set() {
    let c = Config::from_parts(
        s("/etc/stunnel/stunnel.conf"),
        s("/var/run/stunnel.pid"),
        s("50055"),
        s("127.0.0.1"),
        s("debug"),
    )
    .unwrap();
    assert_eq!(c.config_path, "/etc/stunnel/stunnel.conf");
    assert_eq!(c.pid_file, "/var/run/stunnel.pid");
    assert_eq!(c.grpc_port, "50055");
    assert_eq!(c.grpc_host, "127.0.0.1");
    assert_eq!(c.log_level, "debug");
    assert_eq!(c.get_grpc_address(), "127.0.0.1:50055");
}

#[test]
fn from_parts_uses_defaults_for_optional_values() {
    let c = Config::from_parts(s("/c"), s("/p"), s("50055"), None, None).unwrap();
    assert_eq!(c.grpc_host, "0.0.0.0");
    assert_eq!(c.log_level, "info");
    assert_eq!(c.get_grpc_address(), "0.0.0.0:50055");
}

#[test]
fn from_parts_reports_every_missing_variable() {
    let e = Config::from_parts(None, None, None, None, None).unwrap_err();
    assert_eq!(
        e.message(),
        "Missing required environment variables: STUNNEL_CONF_PATH, STUNNEL_PID_FILE, GRPC_PORT"
    );
}

#[test]
fn from_parts_reports_single_missing_variable() {
    let e = Config::from_parts(s("/c"), None, s("1"), None, None).unwrap_err();
    assert_eq!(e.message(), "Missing required environment variables: STUNNEL_PID_FILE");
}

#[test]
fn backup_and_temp_paths() {
    assert_eq!(backup_path_for("/etc/stunnel.conf"), "/etc/stunnel.conf.backup");
    assert_eq!(temp_path_for("/etc/stunnel.conf", 4321), "/etc/stunnel.conf.tmp.4321");
}

#[test]
fn decimal_rendering() {
    assert_eq!(u32_to_string(0), "0");
    assert_eq!(u32_to_string(7), "7");
    assert_eq!(u32_to_string(1024), "1024");
    assert_eq!(u32_to_string(4294967295), "4294967295");
}

#[test]
fn parse_pid_accepts_standard_forms() {
    assert_eq!(parse_pid("1234"), Some(1234));
    assert_eq!(parse_pid(" 1234\n"), Some(1234));
    assert_eq!(parse_pid("+7"), Some(7));
    assert_eq!(parse_pid("-9"), Some(-9));
    assert_eq!(parse_pid("2147483647"), Some(2147483647));
    assert_eq!(parse_pid("-2147483648"), Some(-2147483648));
    assert_eq!(parse_pid("0"), Some(0));
}

#[test]
fn parse_pid_rejects_everything_else() {
    assert_eq!(parse_pid(""), None);
    assert_eq!(parse_pid("   "), None);
    assert_eq!(parse_pid("abc"), None);
    assert_eq!(parse_pid("12a"), None);
    assert_eq!(parse_pid("+"), None);
    assert_eq!(parse_pid("-"), None);
    assert_eq!(parse_pid("1 2"), None);
    assert_eq!(parse_pid("2147483648"), None);
    assert_eq!(parse_pid("-2147483649"), None);
    assert_eq!(parse_pid("99999999999999999999"), None);
}
