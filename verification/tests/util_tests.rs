use rzen::artifact::{needs_rebuild, BuildInfo};
use rzen::remote::{
    chmod_command, classify_outcome, copy_command, daemon_reload_command, interpret_exists,
    mkdir_command, probe_command, service_is_active, systemctl_command, tail_command,
    CommandOutcome,
};
use rzen::session::{backoff_delay_secs, ConnectStep, RetryState, SshConfig};
use rzen::utils::{find_binary, format_duration};

#[test]
fn test_timing_format() {
    assert_eq!(format_duration(500), "500ms");
    assert_eq!(format_duration(30000), "30.0s");
    assert_eq!(format_duration(90000), "1m 30s");
    assert_eq!(format_duration(3660000), "1h 1m");
}

#[test]
fn test_ssh_config_creation() {
    let config = SshConfig {
        host: "example.com".to_string(),
        port: 22,
        username: "user".to_string(),
        key_path: Some("~/.ssh/id_rsa".to_string()),
        password: None,
    };

    assert_eq!(config.host, "example.com");
    assert_eq!(config.port, 22);
    assert_eq!(config.username, "user");
}

#[test]
fn test_build_info_formatting() {
    let info = BuildInfo {
        binary_exists: true,
        file_size: Some(1024 * 1024), // 1MB
        build_mode: "release".to_string(),
        project_name: "test".to_string(),
    };

    assert_eq!(info.format_size(), "1.0 MB");

    let info_small = BuildInfo {
        binary_exists: true,
        file_size: Some(512),
        build_mode: "debug".to_string(),
        project_name: "test".to_string(),
    };

    assert_eq!(info_small.format_size(), "512.0 B");
}

#[test]
fn format_size_covers_every_unit() {
    let with = |n: u64| BuildInfo {
        binary_exists: true,
        file_size: Some(n),
        build_mode: "release".to_string(),
        project_name: "x".to_string(),
    };
    assert_eq!(with(0).format_size(), "0.0 B");
    assert_eq!(with(1536).format_size(), "1.5 KB");
    assert_eq!(with(3 * 1024 * 1024 * 1024).format_size(), "3.0 GB");
    let none = BuildInfo {
        binary_exists: false,
        file_size: None,
        build_mode: "release".to_string(),
        project_name: "x".to_string(),
    };
    assert_eq!(none.format_size(), "N/A");
}

#[test]
fn rebuild_is_needed_when_the_binary_is_stale_or_missing() {
    assert!(needs_rebuild(false, Some(100), 50));
    assert!(needs_rebuild(true, None, 50));
    assert!(needs_rebuild(true, Some(49), 50));
    assert!(!needs_rebuild(true, Some(50), 50));
    assert!(!needs_rebuild(true, Some(51), 50));
}

#[test]
fn find_binary_prefers_the_plain_path() {
    assert_eq!(
        find_binary("/w", "app", "release", true, true).unwrap(),
        "/w/target/release/app"
    );
    assert_eq!(
        find_binary("/w", "app", "debug", false, true).unwrap(),
        "/w/target/debug/app.exe"
    );
    assert_eq!(
        find_binary("/w", "app", "release", false, false).unwrap_err(),
        "Binary not found at: /w/target/release/app"
    );
}

#[test]
fn command_texts_are_the_exact_shell_one_liners() {
    assert_eq!(mkdir_command("/opt/app"), "mkdir -p /opt/app");
    assert_eq!(copy_command("/a", "/b"), "cp /a /b");
    assert_eq!(chmod_command("/opt/app/x"), "chmod +x /opt/app/x");
    assert_eq!(
        systemctl_command("is-active", "app.service"),
        "sudo systemctl is-active app.service"
    );
    assert_eq!(daemon_reload_command(), "sudo systemctl daemon-reload");
    assert_eq!(
        probe_command("/opt/app/x"),
        "[ -f /opt/app/x ] && echo 'exists' || echo 'not exists'"
    );
    assert_eq!(tail_command(50, "/var/log/app.log"), "tail -n 50 /var/log/app.log");
    assert_eq!(
        rzen::remote::unit_file_path("app.service"),
        "/etc/systemd/system/app.service"
    );
}

#[test]
fn nonzero_exit_becomes_a_command_error() {
    let out = CommandOutcome {
        exit_code: 0,
        stdout: "hello".to_string(),
        stderr: "warning".to_string(),
    };
    assert_eq!(
        classify_outcome(out, "echo hello").unwrap(),
        ("hello".to_string(), "warning".to_string())
    );

    let out = CommandOutcome {
        exit_code: 2,
        stdout: String::new(),
        stderr: "boom".to_string(),
    };
    let err = classify_outcome(out, "false").unwrap_err();
    assert_eq!(
        err.message(),
        "Command failed with exit code 2: false\nstderr: boom"
    );
}

#[test]
fn exists_probe_is_read_optimistically_false() {
    assert!(interpret_exists(&Ok(("exists\n".to_string(), String::new()))));
    assert!(!interpret_exists(&Ok(("not exists\n".to_string(), String::new()))));
    assert!(!interpret_exists(&Err(rzen::errors::DeployError::MissingCredentials)));
}

#[test]
fn service_state_must_read_exactly_active() {
    assert!(service_is_active("active"));
    assert!(service_is_active("  active\n"));
    assert!(!service_is_active("activating"));
    assert!(!service_is_active("inactive"));
    assert!(!service_is_active(""));
    assert!(!service_is_active("act ive"));
}

#[test]
fn backoff_doubles_from_one_second() {
    assert_eq!(backoff_delay_secs(1), 1);
    assert_eq!(backoff_delay_secs(2), 2);
    assert_eq!(backoff_delay_secs(3), 4);
    assert_eq!(backoff_delay_secs(6), 32);
}

#[test]
fn retry_makes_exactly_n_attempts_and_waits_the_geometric_sum() {
    let n: u32 = 4;
    let mut retry = RetryState::new(n);
    let mut attempts = 0u32;
    let mut total_wait = 0u64;
    loop {
        match retry.next_step() {
            ConnectStep::Attempt(k) => {
                attempts += 1;
                assert_eq!(k, attempts);
                retry.on_failure();
            },
            ConnectStep::Wait(secs) => {
                total_wait += secs;
                retry.on_waited();
            },
            ConnectStep::GiveUp => break,
        }
    }
    assert_eq!(attempts, n);
    // sum of 2^(i-1) for i in 1..n equals 2^(n-1) - 1
    assert_eq!(total_wait, (1u64 << (n - 1)) - 1);
}
