use stunnel_space::engine::{begin_add, begin_generate_at, begin_remove, begin_update,
    EngineAction, EngineEvent, MutationEngine, MutationOutcome, ReloadStatus};
use stunnel_space::types::{GlobalSettings, Provider};

fn client_provider(name: &str) -> Provider {
    Provider {
        name: name.to_string(),
        is_client: true,
        accept_port: "8443".to_string(),
        connect_host: "10.0.0.1".to_string(),
        connect_port: "443".to_string(),
    }
}

fn expect_action(e: &MutationEngine) -> EngineAction {
    e.next_action().expect("engine should want an action")
}

fn finish(e: MutationEngine) -> MutationOutcome {
    assert!(e.is_done());
    e.outcome().expect("done engine has an outcome").clone()
}

#[test]
fn update_flow_succeeds_in_order() {
    let e = begin_update("raw config\n".to_string());
    assert!(matches!(expect_action(&e), EngineAction::BackupTarget));
    let e = e.step(EngineEvent::BackupOk);
    match expect_action(&e) {
        EngineAction::WriteTarget(c) => assert_eq!(c, "raw config\n"),
        _ => panic!("expected a write"),
    }
    let e = e.step(EngineEvent::WriteOk);
    assert!(matches!(expect_action(&e), EngineAction::ValidateTarget));
    let e = e.step(EngineEvent::ValidateOk);
    let o = finish(e);
    assert!(o.success);
    assert_eq!(o.message, "Configuration updated successfully");
    assert_eq!(o.updated_config, "");
    assert_eq!(o.reload, ReloadStatus::NotRequested);
}

#[test]
fn update_validation_failure_rolls_back() {
    let e = begin_update("bad config\n".to_string());
    let e = e.step(EngineEvent::BackupOk);
    let e = e.step(EngineEvent::WriteOk);
    let e = e.step(EngineEvent::ValidateFailed("syntax error".to_string()));
    assert!(matches!(expect_action(&e), EngineAction::RestoreBackup));
    let e = e.step(EngineEvent::RestoreOk);
    let o = finish(e);
    assert!(!o.success);
    assert_eq!(
        o.message,
        "Invalid configuration: syntax error. Restored previous config."
    );
}

#[test]
fn update_restore_failure_reports_both_errors() {
    let e = begin_update("bad\n".to_string());
    let e = e.step(EngineEvent::BackupOk);
    let e = e.step(EngineEvent::WriteOk);
    let e = e.step(EngineEvent::ValidateFailed("no such service".to_string()));
    let e = e.step(EngineEvent::RestoreFailed("disk full".to_string()));
    let o = finish(e);
    assert!(!o.success);
    assert_eq!(
        o.message,
        "Invalid configuration: no such service. Failed to restore backup: disk full"
    );
}

#[test]
fn backup_failure_aborts_before_any_write() {
    let e = begin_update("content\n".to_string());
    let e = e.step(EngineEvent::BackupFailed("permission denied".to_string()));
    let o = finish(e);
    assert!(!o.success);
    assert_eq!(o.message, "Failed to backup config: permission denied");
}

#[test]
fn write_failure_restores_best_effort_and_reports_write_error() {
    let e = begin_update("content\n".to_string());
    let e = e.step(EngineEvent::BackupOk);
    let e = e.step(EngineEvent::WriteFailed("no space".to_string()));
    assert!(matches!(expect_action(&e), EngineAction::RestoreBackup));
    let e = e.step(EngineEvent::RestoreFailed("still broken".to_string()));
    let o = finish(e);
    assert!(!o.success);
    assert_eq!(o.message, "Failed to write config: no space");
}

#[test]
fn add_flow_builds_expected_candidate() {
    let e = begin_add(client_provider("svcN"), false);
    assert!(matches!(expect_action(&e), EngineAction::ReadTarget));
    let base = "debug = 7\ncert = /etc/ssl/id.pem\n";
    let e = e.step(EngineEvent::ReadOk(base.to_string()));
    assert!(matches!(expect_action(&e), EngineAction::BackupTarget));
    let e = e.step(EngineEvent::BackupOk);
    let expected = "debug = 7\ncert = /etc/ssl/id.pem\n\n; svcN service\n[svcN]\nclient = yes\naccept = 8443\nconnect = 10.0.0.1:443\ncert = /etc/ssl/id.pem\n";
    match expect_action(&e) {
        EngineAction::WriteTarget(c) => assert_eq!(c, expected),
        _ => panic!("expected a write"),
    }
    let e = e.step(EngineEvent::WriteOk);
    let e = e.step(EngineEvent::ValidateOk);
    let o = finish(e);
    assert!(o.success);
    assert_eq!(o.message, "Provider svcN added successfully");
    assert_eq!(o.updated_config, expected);
}

#[test]
fn add_duplicate_fails_without_backup_or_write() {
    let e = begin_add(client_provider("dup"), false);
    let e = e.step(EngineEvent::ReadOk("[dup]\naccept = 1\n".to_string()));
    let o = finish(e);
    assert!(!o.success);
    assert_eq!(o.message, "Provider dup already exists in config");
    assert_eq!(o.updated_config, "");
}

#[test]
fn add_read_failure_is_reported() {
    let e = begin_add(client_provider("x"), false);
    let e = e.step(EngineEvent::ReadFailed("no such file".to_string()));
    let o = finish(e);
    assert!(!o.success);
    assert_eq!(o.message, "Failed to read existing config: no such file");
}

#[test]
fn remove_flow_round_trips_through_engine() {
    let base = "debug = 7\n";
    let e = begin_add(client_provider("svcR"), false);
    let e = e.step(EngineEvent::ReadOk(base.to_string()));
    let e = e.step(EngineEvent::BackupOk);
    let appended = match expect_action(&e) {
        EngineAction::WriteTarget(c) => c,
        _ => panic!("expected a write"),
    };
    let e = e.step(EngineEvent::WriteOk).step(EngineEvent::ValidateOk);
    assert!(finish(e).success);

    let e = begin_remove("svcR".to_string(), false);
    let e = e.step(EngineEvent::ReadOk(appended));
    let e = e.step(EngineEvent::BackupOk);
    match expect_action(&e) {
        EngineAction::WriteTarget(c) => assert_eq!(c, base),
        _ => panic!("expected a write"),
    }
    let e = e.step(EngineEvent::WriteOk).step(EngineEvent::ValidateOk);
    let o = finish(e);
    assert!(o.success);
    assert_eq!(o.message, "Provider svcR removed successfully");
    assert_eq!(o.updated_config, base);
}

#[test]
fn remove_missing_returns_existing_content() {
    let e = begin_remove("ghost".to_string(), false);
    let base = "debug = 7\n";
    let e = e.step(EngineEvent::ReadOk(base.to_string()));
    let o = finish(e);
    assert!(!o.success);
    assert_eq!(o.message, "Provider ghost not found in config");
    assert_eq!(o.updated_config, base);
}

#[test]
fn remove_blank_name_rejected_before_any_io() {
    let e = begin_remove("   ".to_string(), true);
    let o = finish(e);
    assert!(!o.success);
    assert_eq!(o.message, "provider_name is required");
}

#[test]
fn apply_immediately_reports_reload_status() {
    let e = begin_add(client_provider("live"), true);
    let e = e.step(EngineEvent::ReadOk("debug = 7\n".to_string()));
    let e = e.step(EngineEvent::BackupOk);
    let e = e.step(EngineEvent::WriteOk);
    let e = e.step(EngineEvent::ValidateOk);
    assert!(matches!(expect_action(&e), EngineAction::TriggerReload));
    let e = e.step(EngineEvent::ReloadDone(ReloadStatus::Reloaded));
    let o = finish(e);
    assert!(o.success);
    assert_eq!(o.reload, ReloadStatus::Reloaded);
}

#[test]
fn reload_failure_never_turns_success_off() {
    let e = begin_remove("svc".to_string(), true);
    let e = e.step(EngineEvent::ReadOk("[svc]\naccept = 1\n".to_string()));
    let e = e.step(EngineEvent::BackupOk);
    let e = e.step(EngineEvent::WriteOk);
    let e = e.step(EngineEvent::ValidateOk);
    let e = e.step(EngineEvent::ReloadDone(ReloadStatus::SignalFailed));
    let o = finish(e);
    assert!(o.success);
    assert_eq!(o.reload, ReloadStatus::SignalFailed);
}

#[test]
fn generate_flow_writes_exact_document() {
    let settings = GlobalSettings {
        foreground: true,
        pid_file: "".to_string(),
        cert_path: "/etc/ssl/id.pem".to_string(),
        key_path: "".to_string(),
        ca_path: "/etc/ssl/ca.pem".to_string(),
    };
    let providers = vec![client_provider("p1")];
    let e = begin_generate_at(settings, providers, "2024-01-01T00:00:00+00:00".to_string());
    let expected = "; stunnel configuration\n; timestamp: 2024-01-01T00:00:00+00:00\n\nforeground = yes\ndebug = 7\npid = /var/run/stunnel.pid\ncert = /etc/ssl/id.pem\nCAfile = /etc/ssl/ca.pem\nverify = 2\n\n; p1 service\n[p1]\nclient = yes\naccept = 8443\nconnect = 10.0.0.1:443\n";
    match expect_action(&e) {
        EngineAction::WriteTarget(c) => assert_eq!(c, expected),
        _ => panic!("expected a write"),
    }
    let e = e.step(EngineEvent::WriteOk);
    let e = e.step(EngineEvent::ValidateOk);
    let o = finish(e);
    assert!(o.success);
    assert_eq!(o.message, "Configuration generated successfully");
    assert_eq!(o.updated_config, expected);
}

#[test]
fn generate_validation_failure_fails_without_restore() {
    let settings = GlobalSettings {
        foreground: false,
        pid_file: "/run/s.pid".to_string(),
        cert_path: "".to_string(),
        key_path: "".to_string(),
        ca_path: "".to_string(),
    };
    let e = begin_generate_at(settings, vec![], "t".to_string());
    let e = e.step(EngineEvent::WriteOk);
    let e = e.step(EngineEvent::ValidateFailed("broken".to_string()));
    let o = finish(e);
    assert!(!o.success);
    assert_eq!(o.message, "Invalid configuration: broken");
}

#[test]
fn polled_target_never_shows_partial_content_and_rolls_back() {
    let old_content = "old = 1\n".to_string();
    let new_content = "new = 2\n".to_string();
    let mut target = old_content.clone();
    let mut backup: Option<String> = None;
    let mut e = begin_update(new_content.clone());
    loop {
        let action = match e.next_action() {
            Some(a) => a,
            None => break,
        };
        let event = match action {
            EngineAction::ReadTarget => EngineEvent::ReadOk(target.clone()),
            EngineAction::BackupTarget => {
                backup = Some(target.clone());
                EngineEvent::BackupOk
            },
            EngineAction::WriteTarget(c) => {
                // The rename replaces the target whole: the simulated file
                // never holds a mixture.
                target = c;
                EngineEvent::WriteOk
            },
            EngineAction::ValidateTarget => {
                EngineEvent::ValidateFailed("always invalid".to_string())
            },
            EngineAction::RestoreBackup => {
                if let Some(b) = &backup {
                    target = b.clone();
                }
                EngineEvent::RestoreOk
            },
            EngineAction::TriggerReload => EngineEvent::ReloadDone(ReloadStatus::NotRequested),
        };
        // A reader polling at this instant sees one of the two whole texts.
        assert!(target == old_content || target == new_content);
        e = e.step(event);
    }
    assert_eq!(target, old_content);
    let o = finish(e);
    assert!(!o.success);
    assert_eq!(
        o.message,
        "Invalid configuration: always invalid. Restored previous config."
    );
}

#[test]
fn generate_now_embeds_a_timestamp_line() {
    let settings = GlobalSettings {
        foreground: false,
        pid_file: "/run/s.pid".to_string(),
        cert_path: "".to_string(),
        key_path: "".to_string(),
        ca_path: "".to_string(),
    };
    let doc = stunnel_space::generator::generate_document_now(&settings, &vec![client_provider("t")]);
    assert_eq!(doc[0], "; stunnel configuration");
    assert!(doc[1].starts_with("; timestamp: "));
    // The clock produced a timestamp: the line carries more than its prefix.
    assert!(doc[1].len() > "; timestamp: ".len());
    assert_eq!(doc[2], "");
    assert_eq!(doc[3], "debug = 7");
    assert_eq!(doc[4], "pid = /run/s.pid");
}

#[test]
fn generator_is_deterministic_apart_from_timestamp() {
    let settings = GlobalSettings {
        foreground: false,
        pid_file: "/run/s.pid".to_string(),
        cert_path: "".to_string(),
        key_path: "".to_string(),
        ca_path: "".to_string(),
    };
    let g1 = stunnel_space::generator::generate_document(
        &settings,
        &vec![client_provider("a"), client_provider("b")],
        "2020-01-01T00:00:00+00:00",
    );
    let g2 = stunnel_space::generator::generate_document(
        &settings,
        &vec![client_provider("a"), client_provider("b")],
        "2021-06-30T12:00:00+00:00",
    );
    assert_eq!(g1.len(), g2.len());
    for i in 0..g1.len() {
        if i == 1 {
            assert_eq!(g1[i], "; timestamp: 2020-01-01T00:00:00+00:00");
            assert_ne!(g1[i], g2[i]);
        } else {
            assert_eq!(g1[i], g2[i]);
        }
    }
}
