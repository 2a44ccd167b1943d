use stunnel_space::reload::{effective_path, plan_reload, signal_outcome, start_outcome,
    validate_only_outcome, PidStatus, ReloadPlan};
use stunnel_space::status::{contains_substr, parse_netstat_output, split_whitespace_of,
    status_report};
use stunnel_space::StunnelServer;

#[test]
fn server_holds_its_paths() {
    let s = StunnelServer::new("/etc/stunnel.conf".to_string(), "/run/s.pid".to_string());
    assert_eq!(s.config_path().as_str(), "/etc/stunnel.conf");
    assert_eq!(s.pid_file().as_str(), "/run/s.pid");
}

#[test]
fn split_whitespace_fields() {
    assert_eq!(
        split_whitespace_of("tcp  0   0 1.2.3.4:443"),
        vec!["tcp".to_string(), "0".to_string(), "0".to_string(), "1.2.3.4:443".to_string()]
    );
    assert_eq!(split_whitespace_of("   "), Vec::<String>::new());
    assert_eq!(split_whitespace_of("one"), vec!["one".to_string()]);
}

#[test]
fn substring_search() {
    assert!(contains_substr("1234/stunnel", "stunnel"));
    assert!(!contains_substr("1234/nginx", "stunnel"));
    assert!(contains_substr("anything", ""));
}

#[test]
fn netstat_lines_become_connections() {
    let listing = "Active Internet connections\n\
                   tcp 0 0 10.0.0.1:8443 10.0.0.2:55100 ESTABLISHED 917/stunnel\n\
                   tcp 0 0 10.0.0.1:22 10.0.0.9:40000 ESTABLISHED 100/sshd\n\
                   short/stunnel line\n";
    let conns = parse_netstat_output(listing);
    assert_eq!(conns.len(), 1);
    assert_eq!(conns[0].local_address, "10.0.0.1:8443");
    assert_eq!(conns[0].remote_address, "10.0.0.2:55100");
    assert_eq!(conns[0].service_name, "");
    assert_eq!(conns[0].bytes_sent, 0);
    assert_eq!(conns[0].bytes_received, 0);
}

#[test]
fn status_report_with_and_without_pid() {
    let path = "/etc/stunnel.conf".to_string();
    let conns = parse_netstat_output("tcp 0 0 a b 1/stunnel\n");
    let r = status_report(&path, Some(917), true, conns);
    assert!(r.is_running);
    assert_eq!(r.pid, 917);
    assert_eq!(r.config_path, path);
    assert_eq!(r.active_connections.len(), 1);

    let r = status_report(&path, None, true, Vec::new());
    assert!(!r.is_running);
    assert_eq!(r.pid, 0);
    assert!(r.active_connections.is_empty());
}

#[test]
fn effective_path_falls_back_when_empty() {
    let fallback = "/etc/stunnel.conf".to_string();
    assert_eq!(effective_path(&"".to_string(), &fallback), "/etc/stunnel.conf");
    assert_eq!(effective_path(&"/tmp/x.conf".to_string(), &fallback), "/tmp/x.conf");
}

#[test]
fn reload_plan_follows_process_state() {
    assert_eq!(plan_reload(&PidStatus::Running(9)), ReloadPlan::Signal(9));
    assert_eq!(plan_reload(&PidStatus::Stale(9)), ReloadPlan::Start);
    assert_eq!(plan_reload(&PidStatus::Unavailable("gone".to_string())), ReloadPlan::Start);
}

#[test]
fn validate_only_outcomes() {
    let ok = validate_only_outcome(&None);
    assert!(ok.success);
    assert_eq!(ok.message, "Configuration is valid");
    assert_eq!(ok.pid, 0);

    let bad = validate_only_outcome(&Some("line 3: unknown option".to_string()));
    assert!(!bad.success);
    assert_eq!(bad.message, "Config validation failed: line 3: unknown option");
}

#[test]
fn signal_outcomes() {
    let ok = signal_outcome(42, &None);
    assert!(ok.success);
    assert_eq!(ok.message, "Configuration reloaded successfully");
    assert_eq!(ok.pid, 42);

    let bad = signal_outcome(42, &Some("EPERM".to_string()));
    assert!(!bad.success);
    assert_eq!(bad.message, "Failed to reload stunnel: EPERM");
    assert_eq!(bad.pid, 0);
}

#[test]
fn start_outcomes() {
    let fresh = start_outcome(false, &Ok(77));
    assert!(fresh.success);
    assert_eq!(fresh.message, "Stunnel started successfully");
    assert_eq!(fresh.pid, 77);

    let stale = start_outcome(true, &Ok(78));
    assert_eq!(stale.message, "Stunnel restarted successfully (stale pid)");

    let bad = start_outcome(false, &Err("not installed".to_string()));
    assert!(!bad.success);
    assert_eq!(bad.message, "Failed to start stunnel: not installed");
    assert_eq!(bad.pid, 0);

    let bad_stale = start_outcome(true, &Err("no binary".to_string()));
    assert_eq!(bad_stale.message, "Failed to start stunnel after stale pid: no binary");
}
