use rzen::config::{Config, ConfigError, DeployConfig, MonitorConfig, ProjectConfig};

fn sample_config() -> Config {
    Config {
        project: ProjectConfig {
            path: ".".to_string(),
            name: "test-app".to_string(),
            build_mode: "release".to_string(),
        },
        deploy: DeployConfig {
            target: "vps".to_string(),
            vps_host: "example.com".to_string(),
            vps_user: "deploy".to_string(),
            vps_key_path: Some("~/.ssh/id_rsa".to_string()),
            vps_password: None,
            deploy_path: "/opt/app".to_string(),
            service_name: Some("test-app.service".to_string()),
            ssh_port: 22,
        },
        monitor: MonitorConfig {
            health_endpoint: Some("http://example.com/health".to_string()),
            log_path: Some("/var/log/app.log".to_string()),
            interval_secs: 10,
            health_timeout_secs: 5,
        },
    }
}

#[test]
fn test_config_validation() {
    let valid_config = sample_config();
    assert!(valid_config.validate().is_ok());
}

#[test]
fn test_config_validation_empty_name() {
    let mut invalid_config = sample_config();
    invalid_config.project.name = "".to_string();
    assert!(invalid_config.validate().is_err());
}

#[test]
fn config_validation_reports_first_broken_rule() {
    let mut c = sample_config();
    c.project.build_mode = "fast".to_string();
    assert_eq!(c.validate(), Err(ConfigError::InvalidBuildMode));

    let mut c = sample_config();
    c.deploy.vps_host = "   ".to_string();
    assert_eq!(c.validate(), Err(ConfigError::EmptyHost));

    let mut c = sample_config();
    c.deploy.vps_user = "".to_string();
    assert_eq!(c.validate(), Err(ConfigError::EmptyUser));

    let mut c = sample_config();
    c.deploy.vps_key_path = None;
    c.deploy.vps_password = None;
    assert_eq!(c.validate(), Err(ConfigError::MissingCredentials));

    let mut c = sample_config();
    c.deploy.vps_key_path = Some(" ".to_string());
    assert_eq!(c.validate(), Err(ConfigError::EmptyKeyPath));

    let mut c = sample_config();
    c.monitor.health_endpoint = Some("ftp://example.com".to_string());
    assert_eq!(c.validate(), Err(ConfigError::InvalidHealthEndpoint));

    let mut c = sample_config();
    c.monitor.health_endpoint = Some("".to_string());
    assert_eq!(c.validate(), Err(ConfigError::EmptyHealthEndpoint));

    let mut c = sample_config();
    c.monitor.interval_secs = 0;
    assert_eq!(c.validate(), Err(ConfigError::ZeroInterval));

    let mut c = sample_config();
    c.monitor.health_timeout_secs = 0;
    assert_eq!(c.validate(), Err(ConfigError::ZeroHealthTimeout));
}

#[test]
fn config_derived_names_and_paths() {
    let mut c = sample_config();
    assert_eq!(c.binary_name(), "test-app");
    assert_eq!(c.service_name(), "test-app.service");

    c.deploy.service_name = None;
    assert_eq!(c.service_name(), "test-app.service");

    assert_eq!(c.project_path("/home/me"), "/home/me/.");
    c.project.path = "/abs/project".to_string();
    assert_eq!(c.project_path("/home/me"), "/abs/project");
}

#[test]
fn config_password_only_is_accepted() {
    let mut c = sample_config();
    c.deploy.vps_key_path = None;
    c.deploy.vps_password = Some("secret".to_string());
    assert!(c.validate().is_ok());
}
