use rzen::cli::{Cli, Commands};
use rzen::logging::LogLevel;

#[test]
fn test_log_filter_mapping() {
    let cli = Cli {
        config: None,
        log_level: 0,
        dry_run: false,
        command: None,
    };
    assert_eq!(cli.log_filter(), "off");

    let cli = Cli {
        config: None,
        log_level: 3,
        dry_run: false,
        command: None,
    };
    assert_eq!(cli.log_filter(), "info");
}

#[test]
fn test_tui_mode_detection() {
    let cli = Cli {
        config: None,
        log_level: 3,
        dry_run: false,
        command: None,
    };
    assert!(cli.should_run_tui());

    let cli = Cli {
        config: None,
        log_level: 3,
        dry_run: false,
        command: Some(Commands::Build {
            mode: None,
            cargo_args: vec![],
        }),
    };
    assert!(!cli.should_run_tui());
}

#[test]
fn test_log_level_validation() {
    let cli = Cli {
        config: None,
        log_level: 3,
        dry_run: false,
        command: None,
    };
    assert!(cli.validate().is_ok());

    let cli = Cli {
        config: None,
        log_level: 10,
        dry_run: false,
        command: None,
    };
    assert!(cli.validate().is_err());
}

#[test]
fn test_cli_parsing() {
    let cli = Cli {
        config: None,
        log_level: 3,
        dry_run: false,
        command: None,
    };
    assert!(cli.should_run_tui());

    let cli = Cli {
        config: None,
        log_level: 3,
        dry_run: false,
        command: Some(Commands::Build {
            mode: None,
            cargo_args: vec![],
        }),
    };
    assert!(!cli.should_run_tui());
}

#[test]
fn test_log_level_filter() {
    let cli = Cli {
        config: None,
        log_level: 1,
        dry_run: false,
        command: None,
    };
    assert_eq!(cli.log_filter(), "error");

    let cli = Cli {
        config: None,
        log_level: 3,
        dry_run: false,
        command: None,
    };
    assert_eq!(cli.log_filter(), "info");
}

#[test]
fn test_log_level_conversion() {
    assert_eq!(LogLevel::from_number(1).as_filter(), "error");
    assert_eq!(LogLevel::from_number(3).as_filter(), "info");
    assert_eq!(LogLevel::from_number(5).as_filter(), "trace");
    assert_eq!(LogLevel::from_number(10).as_filter(), "info"); // default
}

#[test]
fn test_log_level_numbers() {
    assert_eq!(LogLevel::Error.as_number(), 1);
    assert_eq!(LogLevel::Info.as_number(), 3);
    assert_eq!(LogLevel::Trace.as_number(), 5);
}
