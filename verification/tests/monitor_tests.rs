use rzen::config::{Config, DeployConfig, MonitorConfig as ConfigMonitor, ProjectConfig};
use rzen::monitor::{
    compose_status, http_success, metrics_from_status, monitor_should_stop, ApplicationStatus,
    MonitorConfig, MonitoringMetrics,
};

fn status(health_ok: bool, ssh_ok: bool, service: Option<&str>) -> ApplicationStatus {
    ApplicationStatus {
        health_ok,
        ssh_ok,
        response_time: None,
        service_status: service.map(|s| s.to_string()),
        last_error: None,
    }
}

#[test]
fn test_application_status_summary() {
    let healthy_status = ApplicationStatus {
        health_ok: true,
        ssh_ok: true,
        response_time: Some(50),
        service_status: Some("active".to_string()),
        last_error: None,
    };

    assert!(healthy_status.is_healthy());
    assert_eq!(healthy_status.summary(), "All systems operational");

    let unhealthy_status = ApplicationStatus {
        health_ok: false,
        ssh_ok: true,
        response_time: None,
        service_status: Some("failed".to_string()),
        last_error: Some("Health check failed".to_string()),
    };

    assert!(!unhealthy_status.is_healthy());
    assert!(unhealthy_status.summary().contains("Issues"));
}

#[test]
fn test_monitor_config_from_config() {
    let config = Config {
        project: ProjectConfig {
            path: ".".to_string(),
            name: "test".to_string(),
            build_mode: "release".to_string(),
        },
        deploy: DeployConfig {
            target: "vps".to_string(),
            vps_host: "example.com".to_string(),
            vps_user: "deploy".to_string(),
            vps_key_path: None,
            vps_password: None,
            deploy_path: "/opt/app".to_string(),
            service_name: None,
            ssh_port: 22,
        },
        monitor: ConfigMonitor {
            health_endpoint: Some("http://example.com/health".to_string()),
            log_path: Some("/var/log/app.log".to_string()),
            interval_secs: 30,
            health_timeout_secs: 10,
        },
    };

    let monitor_config = MonitorConfig::from(&config);
    assert_eq!(monitor_config.interval, 30);
    assert_eq!(
        monitor_config.health_endpoint.as_deref(),
        Some("http://example.com/health")
    );
    assert_eq!(monitor_config.log_path.as_deref(), Some("/var/log/app.log"));
    assert_eq!(monitor_config.max_log_lines, 100);
}

#[test]
fn test_monitoring_metrics_creation() {
    let metrics = MonitoringMetrics {
        uptime_percentage: 99,
        average_response_time: Some(45),
        total_requests: Some(1000),
        error_count: 2,
        last_check: 1700000000,
    };

    assert_eq!(metrics.uptime_percentage, 99);
    assert_eq!(metrics.average_response_time, Some(45));
    assert_eq!(metrics.total_requests, Some(1000));
    assert_eq!(metrics.error_count, 2);
}

#[test]
fn is_healthy_needs_all_three_probes() {
    assert!(status(true, true, Some("active")).is_healthy());
    assert!(!status(false, true, Some("active")).is_healthy());
    assert!(!status(true, false, Some("active")).is_healthy());
    assert!(!status(true, true, Some("inactive")).is_healthy());
    assert!(!status(true, true, Some("")).is_healthy());
    assert!(!status(true, true, None).is_healthy());
    assert!(!status(false, false, None).is_healthy());
}

#[test]
fn summary_lists_each_failing_probe() {
    assert_eq!(
        status(false, false, Some("failed")).summary(),
        "Issues: Health check failing, SSH connection failed, Service not active"
    );
    assert_eq!(
        status(true, false, Some("active")).summary(),
        "Issues: SSH connection failed"
    );
    assert_eq!(
        status(true, true, None).summary(),
        "Issues: Service not active"
    );
}

#[test]
fn compose_status_keeps_probes_independent() {
    let s = compose_status(Some(Ok(42)), Err("timed out".to_string()));
    assert!(s.health_ok);
    assert!(!s.ssh_ok);
    assert_eq!(s.response_time, Some(42));
    assert_eq!(s.service_status, None);
    assert_eq!(s.last_error.as_deref(), Some("SSH connection failed: timed out"));

    let s = compose_status(Some(Err("status 500".to_string())), Ok(Some("active".to_string())));
    assert!(!s.health_ok);
    assert!(s.ssh_ok);
    assert_eq!(s.response_time, None);
    assert_eq!(s.service_status.as_deref(), Some("active"));
    assert_eq!(s.last_error.as_deref(), Some("status 500"));

    let s = compose_status(None, Ok(None));
    assert!(!s.health_ok);
    assert!(s.ssh_ok);
    assert_eq!(s.last_error, None);
}

#[test]
fn http_success_is_exactly_the_2xx_range() {
    assert!(!http_success(199));
    assert!(http_success(200));
    assert!(http_success(204));
    assert!(http_success(299));
    assert!(!http_success(300));
    assert!(!http_success(404));
    assert!(!http_success(500));
}

#[test]
fn metrics_follow_the_snapshot() {
    let healthy = ApplicationStatus {
        health_ok: true,
        ssh_ok: true,
        response_time: Some(12),
        service_status: Some("active".to_string()),
        last_error: None,
    };
    let m = metrics_from_status(&healthy, 1700000000);
    assert_eq!(m.uptime_percentage, 100);
    assert_eq!(m.average_response_time, Some(12));
    assert_eq!(m.total_requests, None);
    assert_eq!(m.error_count, 0);
    assert_eq!(m.last_check, 1700000000);

    let failing = status(false, false, None);
    let failing = ApplicationStatus {
        last_error: Some("boom".to_string()),
        ..failing
    };
    let m = metrics_from_status(&failing, 5);
    assert_eq!(m.uptime_percentage, 0);
    assert_eq!(m.error_count, 1);
}

#[test]
fn monitor_stops_only_at_a_set_cap() {
    assert!(!monitor_should_stop(9, Some(10)));
    assert!(monitor_should_stop(10, Some(10)));
    assert!(monitor_should_stop(11, Some(10)));
    assert!(!monitor_should_stop(1000000, None));
}
