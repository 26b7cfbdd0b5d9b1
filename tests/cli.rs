use shiki::cli::{
    parse_action, Cli, Commands, ConfigCommands, NotifyArgs, ServeArgs, ServiceAction, StatusArgs,
    WaitArgs,
};

fn cli_with(command: Commands) -> Cli {
    Cli { config: None, verbose: 0, quiet: false, command }
}

fn notify_args(no_wait: bool) -> NotifyArgs {
    NotifyArgs {
        target: "localhost:8080".to_string(),
        action: parse_action("start").unwrap(),
        service: "nginx".to_string(),
        wait: true,
        timeout: 60,
        no_wait,
    }
}

#[test]
fn test_serve_command() {
    let cli = cli_with(Commands::Serve(ServeArgs::default()));
    match cli.command {
        Commands::Serve(args) => {
            assert_eq!(args.bind, "0.0.0.0");
            assert_eq!(args.port, 8080);
        },
        _ => panic!("Expected Serve command"),
    }
}

#[test]
fn test_serve_with_args() {
    let cli = cli_with(Commands::Serve(ServeArgs { bind: "127.0.0.1".to_string(), port: 9090 }));
    match cli.command {
        Commands::Serve(args) => {
            assert_eq!(args.bind, "127.0.0.1");
            assert_eq!(args.port, 9090);
        },
        _ => panic!("Expected Serve command"),
    }
}

#[test]
fn test_notify_command() {
    let cli = cli_with(Commands::Notify(notify_args(false)));
    match cli.command {
        Commands::Notify(args) => {
            assert_eq!(args.target, "localhost:8080");
            assert_eq!(args.action, ServiceAction::Start);
            assert_eq!(args.service, "nginx");
            assert!(args.should_wait());
            assert_eq!(args.timeout, 60);
        },
        _ => panic!("Expected Notify command"),
    }
}

#[test]
fn test_notify_no_wait() {
    let cli = cli_with(Commands::Notify(notify_args(true)));
    match cli.command {
        Commands::Notify(args) => {
            assert!(!args.should_wait());
        },
        _ => panic!("Expected Notify command"),
    }
}

#[test]
fn test_wait_command() {
    let cli = cli_with(Commands::Wait(WaitArgs {
        target: "db.local:8080".to_string(),
        service: "postgres".to_string(),
        timeout: 120,
        interval: 10,
    }));
    match cli.command {
        Commands::Wait(args) => {
            assert_eq!(args.target, "db.local:8080");
            assert_eq!(args.service, "postgres");
            assert_eq!(args.timeout, 120);
            assert_eq!(args.interval, 10);
        },
        _ => panic!("Expected Wait command"),
    }
}

#[test]
fn test_status_command_local() {
    let cli = cli_with(Commands::Status(StatusArgs { target: None, service: Some("nginx".to_string()) }));
    match cli.command {
        Commands::Status(args) => {
            assert!(args.target.is_none());
            assert_eq!(args.service, Some("nginx".to_string()));
        },
        _ => panic!("Expected Status command"),
    }
}

#[test]
fn test_status_command_remote() {
    let cli = cli_with(Commands::Status(StatusArgs { target: Some("remote:8080".to_string()), service: None }));
    match cli.command {
        Commands::Status(args) => {
            assert_eq!(args.target, Some("remote:8080".to_string()));
            assert!(args.service.is_none());
        },
        _ => panic!("Expected Status command"),
    }
}

#[test]
fn test_config_validate() {
    let cli = cli_with(Commands::Config(ConfigCommands::Validate));
    match cli.command {
        Commands::Config(ConfigCommands::Validate) => {},
        _ => panic!("Expected Config Validate command"),
    }
}

#[test]
fn test_config_show() {
    let cli = cli_with(Commands::Config(ConfigCommands::Show));
    match cli.command {
        Commands::Config(ConfigCommands::Show) => {},
        _ => panic!("Expected Config Show command"),
    }
}

#[test]
fn test_global_config_option() {
    let mut cli = cli_with(Commands::Serve(ServeArgs::default()));
    cli.config = Some("/custom/config.yaml".to_string());
    assert_eq!(cli.config, Some("/custom/config.yaml".to_string()));
}

#[test]
fn test_verbose_levels() {
    let mut cli = cli_with(Commands::Serve(ServeArgs::default()));
    assert_eq!(cli.log_level(), ("info", false));
    cli.verbose = 1;
    assert_eq!(cli.log_level(), ("debug", false));
    cli.verbose = 2;
    assert_eq!(cli.log_level(), ("trace", false));
    cli.verbose = 3;
    assert_eq!(cli.log_level(), ("trace", false));
}

#[test]
fn test_quiet_mode() {
    let mut cli = cli_with(Commands::Serve(ServeArgs::default()));
    cli.quiet = true;
    assert_eq!(cli.log_level(), ("error", true));
}

#[test]
fn cli_test_service_action_parse() {
    assert_eq!("start".parse::<ServiceAction>().unwrap(), ServiceAction::Start);
    assert_eq!("STOP".parse::<ServiceAction>().unwrap(), ServiceAction::Stop);
    assert_eq!("Restart".parse::<ServiceAction>().unwrap(), ServiceAction::Restart);
    assert!("invalid".parse::<ServiceAction>().is_err());
    assert_eq!(
        parse_action("jump").unwrap_err(),
        "Invalid action 'jump'. Valid actions: start, stop, restart"
    );
}

#[test]
fn cli_test_service_action_display() {
    assert_eq!(ServiceAction::Start.as_str(), "start");
    assert_eq!(ServiceAction::Stop.as_str(), "stop");
    assert_eq!(ServiceAction::Restart.as_str(), "restart");
}
