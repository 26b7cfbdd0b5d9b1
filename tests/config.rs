use shiki::acl::AclConfig;
use shiki::config::{
    AgentConfig, AgentMode, AuthMethod, Backend, ClusterConfig, Config, LogFormat, LogLevel,
    LogOutput, LoggingConfig, PeerConfig, ServerConfig, TimeoutConfig,
};
use shiki::config::pick_agent_name;
use shiki::services::{ServiceDefinition, ServiceMap};

#[test]
fn config_test_default_config() {
    let config = Config::default();

    assert_eq!(config.server.bind, "0.0.0.0");
    assert_eq!(config.server.port, 8080);
    assert!(!config.server.tls.enabled);
    assert!(!config.auth.enabled);
    assert_eq!(config.logging.level, LogLevel::Info);
    assert_eq!(config.logging.format, LogFormat::Json);
    assert_eq!(config.agent.backend, Backend::Systemd);
    assert_eq!(config.retry.max_attempts, 3);
    assert_eq!(config.timeout.service_seconds, 60);
}

#[test]
fn config_test_log_level_parse() {
    assert_eq!("trace".parse::<LogLevel>().unwrap(), LogLevel::Trace);
    assert_eq!("DEBUG".parse::<LogLevel>().unwrap(), LogLevel::Debug);
    assert_eq!("Info".parse::<LogLevel>().unwrap(), LogLevel::Info);
    assert!("invalid".parse::<LogLevel>().is_err());
}

#[test]
fn config_test_backend_parse() {
    assert_eq!("systemd".parse::<Backend>().unwrap(), Backend::Systemd);
    assert_eq!("EXEC".parse::<Backend>().unwrap(), Backend::Exec);
    assert!("invalid".parse::<Backend>().is_err());
}

#[test]
fn config_test_acl_is_allowed() {
    let acl = AclConfig {
        allowed: vec!["nginx".to_string(), "redis-*".to_string()],
        denied: vec!["redis-test".to_string()],
    };

    assert!(acl.is_allowed("nginx"));
    assert!(acl.is_allowed("redis-server"));
    assert!(acl.is_allowed("redis-sentinel"));
    assert!(!acl.is_allowed("redis-test"));
    assert!(!acl.is_allowed("postgres"));
}

#[test]
fn config_test_acl_empty_allowed() {
    let acl = AclConfig { allowed: vec![], denied: vec!["secret-*".to_string()] };

    assert!(acl.is_allowed("nginx"));
    assert!(acl.is_allowed("redis"));
    assert!(!acl.is_allowed("secret-service"));
}

#[test]
fn acl_test_acl_is_allowed() {
    let acl = AclConfig {
        allowed: vec!["nginx".to_string(), "redis-*".to_string()],
        denied: vec!["redis-test".to_string()],
    };

    assert!(acl.is_allowed("nginx"));
    assert!(acl.is_allowed("redis-server"));
    assert!(acl.is_allowed("redis-sentinel"));
    assert!(!acl.is_allowed("redis-test"));
    assert!(!acl.is_allowed("postgres"));
}

#[test]
fn acl_test_acl_empty_allowed() {
    let acl = AclConfig { allowed: vec![], denied: vec!["secret-*".to_string()] };

    assert!(acl.is_allowed("nginx"));
    assert!(acl.is_allowed("redis"));
    assert!(!acl.is_allowed("secret-service"));
}

#[test]
fn test_acl_default() {
    let acl = AclConfig::default();
    assert!(acl.allowed.is_empty());
    assert!(acl.denied.is_empty());
    assert!(acl.is_allowed("any-service"));
}

#[test]
fn acl_denial_wins_over_a_matching_allow() {
    let acl = AclConfig { allowed: vec!["*".to_string()], denied: vec!["db-*".to_string()] };
    assert!(!acl.is_allowed("db-main"));
    assert!(acl.is_allowed("web"));
}

#[test]
fn acl_decision_from_facts() {
    assert!(!shiki::acl::decide(true, true, true));
    assert!(shiki::acl::decide(false, true, false));
    assert!(shiki::acl::decide(false, false, true));
    assert!(!shiki::acl::decide(false, false, false));
}

#[test]
fn test_agent_config_default() {
    let config = AgentConfig::default();
    assert!(config.name.is_none());
    assert_eq!(config.mode, AgentMode::Standalone);
    assert_eq!(config.backend, Backend::Systemd);
    assert!(config.tags.is_empty());
}

#[test]
fn agent_test_backend_parse() {
    assert_eq!("systemd".parse::<Backend>().unwrap(), Backend::Systemd);
    assert_eq!("EXEC".parse::<Backend>().unwrap(), Backend::Exec);
    assert!("invalid".parse::<Backend>().is_err());
}

#[test]
fn test_agent_mode_parse() {
    assert_eq!("standalone".parse::<AgentMode>().unwrap(), AgentMode::Standalone);
    assert_eq!("cluster".parse::<AgentMode>().unwrap(), AgentMode::Cluster);
    assert!("invalid".parse::<AgentMode>().is_err());
}

#[test]
fn test_service_definition_default() {
    let def = ServiceDefinition::default();
    assert!(def.start.is_empty());
    assert!(def.stop.is_empty());
    assert!(def.status.is_empty());
    assert!(def.reload.is_none());
    assert!(def.working_dir.is_none());
    assert!(def.env.is_empty());
}

#[test]
fn test_cluster_config_default() {
    let config = ClusterConfig::default();
    assert!(!config.enabled);
    assert!(config.peers.is_empty());
}

#[test]
fn test_peer_config() {
    let peer = PeerConfig {
        name: "peer1".to_string(),
        address: "192.168.1.100:8080".to_string(),
        tags: vec!["production".to_string()],
    };

    assert_eq!(peer.name, "peer1");
    assert_eq!(peer.address, "192.168.1.100:8080");
    assert_eq!(peer.tags.len(), 1);
}

#[test]
fn test_logging_config_default() {
    let config = LoggingConfig::default();
    assert_eq!(config.level, LogLevel::Info);
    assert_eq!(config.format, LogFormat::Json);
    assert_eq!(config.output, LogOutput::Stdout);
}

#[test]
fn logging_test_log_level_parse() {
    assert_eq!("trace".parse::<LogLevel>().unwrap(), LogLevel::Trace);
    assert_eq!("DEBUG".parse::<LogLevel>().unwrap(), LogLevel::Debug);
    assert_eq!("Info".parse::<LogLevel>().unwrap(), LogLevel::Info);
    assert_eq!("warn".parse::<LogLevel>().unwrap(), LogLevel::Warn);
    assert_eq!("warning".parse::<LogLevel>().unwrap(), LogLevel::Warn);
    assert!("invalid".parse::<LogLevel>().is_err());
}

#[test]
fn test_log_format_parse() {
    assert_eq!("json".parse::<LogFormat>().unwrap(), LogFormat::Json);
    assert_eq!("TEXT".parse::<LogFormat>().unwrap(), LogFormat::Text);
    assert!("invalid".parse::<LogFormat>().is_err());
}

#[test]
fn test_log_output_parse() {
    assert_eq!("stdout".parse::<LogOutput>().unwrap(), LogOutput::Stdout);
    assert_eq!("STDERR".parse::<LogOutput>().unwrap(), LogOutput::Stderr);
    assert_eq!("file".parse::<LogOutput>().unwrap(), LogOutput::File);
    assert!("invalid".parse::<LogOutput>().is_err());
}

#[test]
fn unknown_tokens_name_themselves() {
    let e = "loud".parse::<LogLevel>().unwrap_err();
    assert_eq!(e.to_string(), "Configuration error: Unknown log level: loud");
    let e = "podman".parse::<Backend>().unwrap_err();
    assert_eq!(e.to_string(), "Configuration error: Unknown backend: podman");
}

#[test]
fn test_timeout_config_default() {
    let config = TimeoutConfig::default();
    assert_eq!(config.service_seconds, 60);
    assert_eq!(config.http_seconds, 30);
    assert_eq!(config.health_seconds, 5);
}

#[test]
fn test_server_config_default() {
    let config = ServerConfig::default();
    assert_eq!(config.bind, "0.0.0.0");
    assert_eq!(config.port, 8080);
    assert!(!config.tls.enabled);
}

#[test]
fn test_auth_method_parse() {
    assert_eq!("none".parse::<AuthMethod>().unwrap(), AuthMethod::NoAuth);
    assert_eq!("token".parse::<AuthMethod>().unwrap(), AuthMethod::Token);
    assert_eq!("apikey".parse::<AuthMethod>().unwrap(), AuthMethod::ApiKey);
    assert!("invalid".parse::<AuthMethod>().is_err());
}

fn definition(start: &str, stop: &str, status: &str) -> ServiceDefinition {
    ServiceDefinition {
        start: start.to_string(),
        stop: stop.to_string(),
        status: status.to_string(),
        ..Default::default()
    }
}

fn message_of(config: &Config) -> String {
    config.validate().unwrap_err().to_string()
}

#[test]
fn config_test_validation_port_zero() {
    let mut config = Config::default();
    config.server.port = 0;
    assert!(config.validate().is_err());
    assert!(message_of(&config).contains("port"));
}

#[test]
fn config_test_validation_tls_without_cert() {
    let mut config = Config::default();
    config.server.tls.enabled = true;
    assert!(config.validate().is_err());
    assert!(message_of(&config).contains("cert_path"));
}

#[test]
fn config_test_validation_exec_without_services() {
    let mut config = Config::default();
    config.agent.backend = Backend::Exec;
    assert!(config.validate().is_err());
    assert!(message_of(&config).contains("services"));
}

#[test]
fn config_test_validation_service_missing_command() {
    let mut config = Config::default();
    config.agent.backend = Backend::Exec;
    let mut services = ServiceMap::new();
    services.insert("broken".to_string(), definition("echo start", "", "echo status"));
    config.services = services;
    assert!(config.validate().is_err());
    assert!(message_of(&config).contains("stop"));
    assert_eq!(message_of(&config), "Configuration error: Service 'broken': stop command is required");
}

#[test]
fn validation_checks_in_order() {
    let mut config = Config::default();
    assert!(config.validate().is_ok());

    config.server.tls.enabled = true;
    config.server.tls.cert_path = Some("/c".to_string());
    assert!(message_of(&config).contains("key_path"));
    config.server.tls.key_path = Some("/k".to_string());
    assert!(config.validate().is_ok());

    config.retry.max_attempts = 0;
    assert_eq!(message_of(&config), "Configuration error: retry.max_attempts must be at least 1");

    config.agent.backend = Backend::Exec;
    assert_eq!(message_of(&config), "Configuration error: Backend is 'exec' but no services are defined");

    config.logging.output = LogOutput::File;
    assert_eq!(
        message_of(&config),
        "Configuration error: Log output is 'file' but file_path is not specified"
    );

    config.server.port = 0;
    assert_eq!(message_of(&config), "Configuration error: Server port must be between 1 and 65535");
}

#[test]
fn validation_leaves_authentication_and_cluster_alone() {
    let mut config = Config::default();
    config.auth.enabled = true;
    config.auth.method = AuthMethod::Token;
    config.cluster.enabled = true;
    assert!(config.validate().is_ok());
    assert!(config.validate_access().is_err());
}

#[test]
fn access_checks() {
    let mut config = Config::default();
    assert!(config.validate_access().is_ok());
    config.auth.enabled = true;
    config.auth.method = AuthMethod::Token;
    assert_eq!(
        config.validate_access().unwrap_err().to_string(),
        "Configuration error: auth.token is required when using token authentication"
    );
    config.auth.method = AuthMethod::ApiKey;
    assert!(config.validate_access().unwrap_err().to_string().contains("auth.api_keys"));
    config.auth.api_keys = vec!["k1".to_string()];
    assert!(config.validate_access().is_ok());
    config.cluster.enabled = true;
    assert!(config.validate_access().unwrap_err().to_string().contains("cluster.peers"));
    config.cluster.peers = vec![PeerConfig {
        name: "p".to_string(),
        address: "h:1".to_string(),
        tags: vec![],
    }];
    assert!(config.validate_access().is_ok());
}

#[test]
fn service_definition_validate_names_the_service() {
    let d = definition("", "b", "c");
    assert_eq!(
        d.validate("web").unwrap_err().to_string(),
        "Configuration error: Service 'web': start command is required"
    );
    assert_eq!(
        definition("a", "b", "").validate("db").unwrap_err().to_string(),
        "Configuration error: Service 'db': status command is required"
    );
    assert!(definition("a", "b", "c").validate("ok").is_ok());
}

#[test]
fn config_test_agent_name_configured() {
    let mut config = Config::default();
    config.agent.name = Some("my-agent".to_string());

    assert_eq!(config.agent_name(), "my-agent");
}

#[test]
fn config_test_agent_name_default_to_hostname() {
    let config = Config::default();
    let name = config.agent_name();
    assert!(!name.is_empty());
}

#[test]
fn agent_name_choice() {
    assert_eq!(pick_agent_name(&Some("a".to_string()), Some("h".to_string())), "a");
    assert_eq!(pick_agent_name(&None, Some("h".to_string())), "h");
    assert_eq!(pick_agent_name(&None, None), "unknown");
}

#[test]
fn service_map_replaces_a_definition() {
    let mut services = ServiceMap::new();
    services.insert("a".to_string(), definition("s1", "t", "u"));
    services.insert("b".to_string(), definition("s2", "t", "u"));
    services.insert("a".to_string(), definition("s3", "t", "u"));
    assert_eq!(services.len(), 2);
    assert_eq!(services.names(), vec!["a".to_string(), "b".to_string()]);
    assert_eq!(services.get("a").unwrap().start, "s3");
    assert!(services.get("c").is_none());
    assert!(services.contains_key("b"));
}

#[test]
fn mod_test_default_config() {
    let config = Config::default();

    assert_eq!(config.server.bind, "0.0.0.0");
    assert_eq!(config.server.port, 8080);
    assert!(!config.server.tls.enabled);
    assert!(!config.auth.enabled);
    assert_eq!(config.logging.level, LogLevel::Info);
    assert_eq!(config.logging.format, LogFormat::Json);
    assert_eq!(config.agent.backend, Backend::Systemd);
    assert_eq!(config.retry.max_attempts, 3);
    assert_eq!(config.timeout.service_seconds, 60);
}

#[test]
fn mod_test_validation_port_zero() {
    let mut config = Config::default();
    config.server.port = 0;
    assert!(config.validate().is_err());
    assert!(message_of(&config).contains("port"));
}

#[test]
fn mod_test_validation_tls_without_cert() {
    let mut config = Config::default();
    config.server.tls.enabled = true;
    assert!(config.validate().is_err());
    assert!(message_of(&config).contains("cert_path"));
}

#[test]
fn mod_test_validation_exec_without_services() {
    let mut config = Config::default();
    config.agent.backend = Backend::Exec;
    assert!(config.validate().is_err());
    assert!(message_of(&config).contains("services"));
}

#[test]
fn mod_test_validation_service_missing_command() {
    let mut config = Config::default();
    config.agent.backend = Backend::Exec;
    let mut services = ServiceMap::new();
    services.insert("broken".to_string(), definition("echo start", "", "echo status"));
    config.services = services;
    assert!(config.validate().is_err());
    assert!(message_of(&config).contains("stop"));
}

#[test]
fn mod_test_agent_name_default_to_hostname() {
    let config = Config::default();
    let name = config.agent_name();
    assert!(!name.is_empty());
}

#[test]
fn mod_test_agent_name_configured() {
    let mut config = Config::default();
    config.agent.name = Some("my-agent".to_string());
    assert_eq!(config.agent_name(), "my-agent");
}

#[test]
fn test_retry_config_default() {
    let config = shiki::config::RetryConfig::default();
    assert_eq!(config.max_attempts, 3);
    assert_eq!(config.initial_interval_ms, 1000);
    assert_eq!(config.max_interval_ms, 30000);
    assert!((f64::from(config.multiplier_percent) / 100.0 - 2.0).abs() < f64::EPSILON);
}
