use rzen::config::{Config, DeployConfig, MonitorConfig, ProjectConfig};
use rzen::deploy::{DeployEvent, DeployMachine, DeploymentPlan};
use rzen::errors::DeployError;
use rzen::host::RemoteHost;
use rzen::rollback::run_rollback;
use rzen::runner::run_deploy;

fn sample_config() -> Config {
    Config {
        project: ProjectConfig {
            path: ".".to_string(),
            name: "app".to_string(),
            build_mode: "release".to_string(),
        },
        deploy: DeployConfig {
            target: "vps".to_string(),
            vps_host: "example.com".to_string(),
            vps_user: "deploy".to_string(),
            vps_key_path: Some("~/.ssh/id_rsa".to_string()),
            vps_password: None,
            deploy_path: "/opt/app".to_string(),
            service_name: None,
            ssh_port: 22,
        },
        monitor: MonitorConfig {
            health_endpoint: None,
            log_path: None,
            interval_secs: 10,
            health_timeout_secs: 5,
        },
    }
}

fn plan() -> DeploymentPlan {
    DeploymentPlan::from_config(&sample_config())
}

#[test]
fn fresh_deploy_creates_no_backup_and_activates_the_service() {
    let mut host = RemoteHost::fresh(true, true);
    let binary = vec![1u8, 2, 3];
    let result = run_deploy(plan(), false, &binary, &mut host);
    assert_eq!(result.unwrap(), "Successfully deployed app to example.com");
    assert_eq!(host.binary.as_deref(), Some(&[1u8, 2, 3][..]));
    assert_eq!(host.backup, None);
    assert!(host.dir_exists);
    assert!(host.unit.is_some());
    assert!(host.service_active);
}

#[test]
fn deploy_over_existing_binary_backs_it_up_first() {
    let mut host = RemoteHost::fresh(true, true);
    let old_binary = vec![9u8, 9, 9];
    run_deploy(plan(), false, &old_binary, &mut host).unwrap();

    let new_binary = vec![1u8, 2, 3];
    run_deploy(plan(), false, &new_binary, &mut host).unwrap();
    assert_eq!(host.binary.as_deref(), Some(&[1u8, 2, 3][..]));
    assert_eq!(host.backup.as_deref(), Some(&[9u8, 9, 9][..]));
}

#[test]
fn second_deploy_then_rollback_restores_the_first_binary() {
    let mut host = RemoteHost::fresh(true, true);
    let first = vec![10u8, 20];
    let second = vec![30u8, 40];
    run_deploy(plan(), false, &first, &mut host).unwrap();
    run_deploy(plan(), false, &second, &mut host).unwrap();
    assert_eq!(host.backup.as_deref(), Some(&[10u8, 20][..]));

    run_rollback(plan(), &mut host).unwrap();
    assert_eq!(host.binary.as_deref(), Some(&[10u8, 20][..]));
    // The slot is consumed but not deleted: it can be rolled back to again.
    assert_eq!(host.backup.as_deref(), Some(&[10u8, 20][..]));
    assert!(host.service_active);
}

#[test]
fn dry_run_touches_nothing_and_reports_success() {
    // The host has no binary built and is not even reachable: a dry
    // run must not notice.
    let mut host = RemoteHost::fresh(false, false);
    let binary: Vec<u8> = vec![];
    let result = run_deploy(plan(), true, &binary, &mut host);
    assert_eq!(result.unwrap(), "DRY RUN: Would deploy app to example.com");
    assert!(!host.dir_exists);
    assert_eq!(host.binary, None);
    assert_eq!(host.backup, None);
    assert!(host.unit.is_none());
}

#[test]
fn unreachable_host_fails_after_three_attempts() {
    let mut host = RemoteHost::fresh(false, true);
    let binary = vec![1u8];
    let err = run_deploy(plan(), false, &binary, &mut host).unwrap_err();
    match err {
        DeployError::Connection { host: h, attempts } => {
            assert_eq!(h, "example.com");
            assert_eq!(attempts, 3);
        },
        other => panic!("unexpected error: {:?}", other),
    }
    assert_eq!(host.binary, None);
    assert!(!host.dir_exists);
}

#[test]
fn failed_service_start_is_reported_even_though_commands_succeeded() {
    let mut host = RemoteHost::fresh(true, false);
    let binary = vec![5u8];
    let err = run_deploy(plan(), false, &binary, &mut host).unwrap_err();
    assert!(matches!(err, DeployError::ServiceStart { .. }));
    // The files were still deployed; only the verification failed.
    assert_eq!(host.binary.as_deref(), Some(&[5u8][..]));
    assert!(!host.service_active);
}

#[test]
fn rollback_without_backup_fails_with_the_distinct_error() {
    let mut host = RemoteHost::fresh(true, true);
    let binary = vec![1u8];
    run_deploy(plan(), false, &binary, &mut host).unwrap();
    assert_eq!(host.backup, None);

    let err = run_rollback(plan(), &mut host).unwrap_err();
    match err {
        DeployError::RollbackUnavailable { backup_path } => {
            assert_eq!(backup_path, "/opt/app/app.backup");
        },
        other => panic!("unexpected error: {:?}", other),
    }
    // The live binary is untouched; only the stop ran.
    assert_eq!(host.binary.as_deref(), Some(&[1u8][..]));
    assert!(!host.service_active);
}

#[test]
fn progress_moves_through_the_stage_fractions() {
    let mut m = DeployMachine::new(plan(), false);
    assert_eq!(m.progress_event().percent, 25);
    assert_eq!(m.progress_event().label, "Connecting to server...");
    m.step(DeployEvent::Connected);
    assert_eq!(m.progress_event().percent, 37);
    assert_eq!(m.progress_event().label, "Creating remote directory...");
    m.step(DeployEvent::StepOk);
    assert_eq!(m.progress_event().percent, 50);
    m.step(DeployEvent::BinaryPresent { present: false });
    assert_eq!(m.progress_event().percent, 62);
    m.step(DeployEvent::StepOk);
    assert_eq!(m.progress_event().percent, 75);
    m.step(DeployEvent::StepOk);
    assert_eq!(m.progress_event().percent, 87);
    m.step(DeployEvent::StepOk);
    assert_eq!(m.progress_event().percent, 100);
    m.step(DeployEvent::StepOk);
    m.step(DeployEvent::StepOk);
    m.step(DeployEvent::StepOk);
    m.step(DeployEvent::ServiceActive { active: true });
    assert!(m.finished());
    assert_eq!(
        m.into_result().unwrap(),
        "Successfully deployed app to example.com"
    );
}

#[test]
fn rollback_on_unreachable_host_fails_with_connection_error() {
    let mut host = RemoteHost::fresh(false, true);
    host.backup = Some(vec![7u8]);
    let err = run_rollback(plan(), &mut host).unwrap_err();
    assert!(matches!(err, DeployError::Connection { attempts: 3, .. }));
    assert_eq!(host.backup.as_deref(), Some(&[7u8][..]));
}
