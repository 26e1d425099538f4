use rzen::config::{Config, DeployConfig, MonitorConfig, ProjectConfig};
use rzen::deploy::{
    deployment_status_from, validate_deployment_prerequisites, DeploymentPlan, DeploymentStatus,
};
use rzen::errors::DeployError;
use rzen::systemd::generate_systemd_service;

fn sample_config() -> Config {
    Config {
        project: ProjectConfig {
            path: ".".to_string(),
            name: "test-app".to_string(),
            build_mode: "release".to_string(),
        },
        deploy: DeployConfig {
            target: "vps".to_string(),
            vps_host: "example.com".to_string(),
            vps_user: "deploy".to_string(),
            vps_key_path: Some("~/.ssh/id_rsa".to_string()),
            vps_password: None,
            deploy_path: "/opt/test-app".to_string(),
            service_name: Some("test-app.service".to_string()),
            ssh_port: 22,
        },
        monitor: MonitorConfig {
            health_endpoint: Some("http://example.com/health".to_string()),
            log_path: Some("/var/log/test-app.log".to_string()),
            interval_secs: 10,
            health_timeout_secs: 5,
        },
    }
}

#[test]
fn test_systemd_service_generation() {
    let config = sample_config();
    let service_content = generate_systemd_service(&config);
    assert!(service_content.contains("Description=test-app - Rust Application"));
    assert!(service_content.contains("User=deploy"));
    assert!(service_content.contains("ExecStart=/opt/test-app/test-app"));
    assert!(service_content.contains("WorkingDirectory=/opt/test-app"));
}

#[test]
fn test_deployment_status_creation() {
    let status = DeploymentStatus {
        service_active: true,
        last_deployment: Some("2024-01-01".to_string()),
        version: Some("1.0.0".to_string()),
    };

    assert!(status.service_active);
    assert_eq!(status.last_deployment.as_deref(), Some("2024-01-01"));
    assert_eq!(status.version.as_deref(), Some("1.0.0"));
}

#[test]
fn test_validate_deployment_prerequisites_no_binary() {
    let config = sample_config();
    let result = validate_deployment_prerequisites(
        &config,
        "/work/target/release/test-app",
        false,
        0,
    );
    assert!(result.is_err());
    assert!(result
        .unwrap_err()
        .message()
        .contains("Binary not found"));
}

#[test]
fn prerequisites_catch_empty_binary_and_missing_credentials() {
    let config = sample_config();
    let err = validate_deployment_prerequisites(&config, "/t/app", true, 0).unwrap_err();
    assert!(matches!(err, DeployError::BinaryEmpty { .. }));
    assert!(err.message().contains("Binary file is empty"));

    let mut config = sample_config();
    config.deploy.vps_key_path = None;
    config.deploy.vps_password = None;
    let err = validate_deployment_prerequisites(&config, "/t/app", true, 100).unwrap_err();
    assert!(matches!(err, DeployError::MissingCredentials));
    assert!(err.message().contains("SSH authentication not configured"));

    let config = sample_config();
    assert!(validate_deployment_prerequisites(&config, "/t/app", true, 100).is_ok());
}

#[test]
fn plan_derives_remote_and_backup_paths() {
    let plan = DeploymentPlan::from_config(&sample_config());
    assert_eq!(plan.remote_binary_path, "/opt/test-app/test-app");
    assert_eq!(plan.backup_path, "/opt/test-app/test-app.backup");
    assert_eq!(plan.service_name, "test-app.service");
    assert_eq!(plan.host, "example.com");
}

fn ok(stdout: &str) -> Result<(String, String), DeployError> {
    Ok((stdout.to_string(), String::new()))
}

fn command_error() -> Result<(String, String), DeployError> {
    Err(DeployError::Command {
        exit_code: 3,
        command: "stat".to_string(),
        stderr: "no such file".to_string(),
    })
}

#[test]
fn deployment_status_reads_the_three_answers() {
    let status = deployment_status_from(
        &ok("active\n"),
        &ok("1700000000\n"),
        &ok("-rwxr-xr-x 1 deploy deploy 5.3M Jan 10 12:00 /opt/test-app/test-app"),
    );
    assert!(status.service_active);
    assert_eq!(
        status.last_deployment.as_deref(),
        Some("2023-11-14 22:13:20 UTC")
    );
    assert_eq!(
        status.version.as_deref(),
        Some("Size: 5.3M, Modified: Jan")
    );
}

#[test]
fn deployment_status_tolerates_failures() {
    let status = deployment_status_from(&command_error(), &command_error(), &command_error());
    assert!(!status.service_active);
    assert_eq!(status.last_deployment, None);
    assert_eq!(status.version, None);

    let status = deployment_status_from(&ok("inactive\n"), &ok("not-a-number"), &ok("too few"));
    assert!(!status.service_active);
    assert_eq!(status.last_deployment, None);
    assert_eq!(status.version.as_deref(), Some("Version info unavailable"));
}

#[test]
fn error_messages_carry_their_context() {
    let e = DeployError::Connection {
        host: "example.com".to_string(),
        attempts: 3,
    };
    assert_eq!(
        e.message(),
        "SSH connection failed after 3 attempts: example.com"
    );

    let e = DeployError::Command {
        exit_code: 127,
        command: "mkdir -p /opt/app".to_string(),
        stderr: "permission denied".to_string(),
    };
    assert_eq!(
        e.message(),
        "Command failed with exit code 127: mkdir -p /opt/app\nstderr: permission denied"
    );

    let e = DeployError::Transfer {
        detail: "stream closed".to_string(),
    };
    assert_eq!(e.message(), "Transfer failed: stream closed");

    let e = DeployError::ServiceStart {
        name: "app.service".to_string(),
    };
    assert_eq!(e.message(), "Service app.service failed to start");

    let e = DeployError::RollbackUnavailable {
        backup_path: "/opt/app/app.backup".to_string(),
    };
    assert_eq!(
        e.message(),
        "No backup found for rollback. Backup file: /opt/app/app.backup"
    );
}
