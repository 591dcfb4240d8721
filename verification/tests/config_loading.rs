use rigos::config::{Cli, ConfigError, EnvOverrides, RigOSConfig, ToolConfig};

fn cli(addr: &str) -> Cli {
    Cli { config: None, addr: addr.to_string() }
}

fn no_env() -> EnvOverrides {
    EnvOverrides {
        server_addr: None,
        otel_endpoint: None,
        log_level: None,
        opa_url: None,
        opa_bearer_token: None,
        opa_timeout_ms: None,
        grpc_addr: None,
        grpc_enabled: None,
        grpc_tls_cert_path: None,
        grpc_tls_key_path: None,
    }
}

#[test]
fn defaults_are_the_built_in_values() {
    let c = RigOSConfig::default();
    assert_eq!(c.server.addr, "0.0.0.0:8080");
    assert_eq!(c.server.graceful_shutdown_seconds, 30);
    assert_eq!(c.database.url, "sqlite://rigos.db");
    assert_eq!(c.database.max_connections, 32);
    assert_eq!(c.otel.endpoint, "http://localhost:4317");
    assert_eq!(c.otel.service_name, "rigos-daemon");
    assert!(c.otel.enabled);
    assert_eq!(c.tenants.len(), 1);
    assert_eq!(c.tenants[0].id, "default");
    assert_eq!(c.tenants[0].sandbox_memory_bytes, 128 * 1024 * 1024);
    assert_eq!(c.log_level, "info");
    assert_eq!(c.sandbox.default_fuel, 5_000_000);
    assert_eq!(c.grpc.addr, "0.0.0.0:50051");
    assert!(c.grpc.enabled);
    assert!(c.grpc.tls.is_none());
    assert!(c.opa.url.is_none());
    assert_eq!(c.opa.timeout_ms, 1500);
    assert!(c.tools.is_empty());
}

#[test]
fn environment_wins_over_command_line_which_wins_over_file() {
    let mut file = RigOSConfig::default();
    file.server.addr = "10.0.0.1:1".to_string();
    file.tools.push(ToolConfig { name: "t".to_string(), wasm_path: "/t.wasm".to_string() });

    let from_cli = RigOSConfig::load(&cli("127.0.0.1:9000"), Some(file.clone()), no_env()).unwrap();
    assert_eq!(from_cli.server.addr, "127.0.0.1:9000");
    assert_eq!(from_cli.tools.len(), 1);

    let default_cli = RigOSConfig::load(&cli("0.0.0.0:8080"), Some(file.clone()), no_env()).unwrap();
    assert_eq!(default_cli.server.addr, "10.0.0.1:1");

    let mut env = no_env();
    env.server_addr = Some("192.168.0.1:80".to_string());
    env.log_level = Some("debug".to_string());
    env.opa_url = Some("http://opa:8181".to_string());
    env.opa_bearer_token = Some("SECRET-REDACTED".to_string());
    env.opa_timeout_ms = Some("250".to_string());
    env.grpc_addr = Some("0.0.0.0:1".to_string());
    env.otel_endpoint = Some("http://otel:4317".to_string());
    let c = RigOSConfig::load(&cli("127.0.0.1:9000"), Some(file), env).unwrap();
    assert_eq!(c.server.addr, "192.168.0.1:80");
    assert_eq!(c.log_level, "debug");
    assert_eq!(c.opa.url.as_deref(), Some("http://opa:8181"));
    assert_eq!(c.opa.bearer_token.as_deref(), Some("SECRET-REDACTED"));
    assert_eq!(c.opa.timeout_ms, 250);
    assert_eq!(c.grpc.addr, "0.0.0.0:1");
    assert_eq!(c.otel.endpoint, "http://otel:4317");
}

#[test]
fn grpc_enabled_accepts_one_or_true() {
    for (value, expected) in [("1", true), ("true", true), ("TRUE", true), ("yes", false), ("0", false), ("", false)] {
        let mut env = no_env();
        env.grpc_enabled = Some(value.to_string());
        let c = RigOSConfig::load(&cli("0.0.0.0:8080"), None, env).unwrap();
        assert_eq!(c.grpc.enabled, expected, "value {:?}", value);
    }
}

#[test]
fn tls_paths_must_come_together() {
    let mut env = no_env();
    env.grpc_tls_cert_path = Some("/cert.pem".to_string());
    let e = RigOSConfig::load(&cli("0.0.0.0:8080"), None, env).unwrap_err();
    assert!(matches!(e, ConfigError::UnpairedTlsPaths));
    assert_eq!(
        e.message(),
        "RIGOS_GRPC_TLS_CERT_PATH and RIGOS_GRPC_TLS_KEY_PATH must be configured together"
    );

    let mut env = no_env();
    env.grpc_tls_cert_path = Some("/cert.pem".to_string());
    env.grpc_tls_key_path = Some("/key.pem".to_string());
    let c = RigOSConfig::load(&cli("0.0.0.0:8080"), None, env).unwrap();
    let tls = c.grpc.tls.unwrap();
    assert_eq!(tls.cert_path, "/cert.pem");
    assert_eq!(tls.key_path, "/key.pem");
}

#[test]
fn unreadable_timeout_is_an_error() {
    let mut env = no_env();
    env.opa_timeout_ms = Some("soon".to_string());
    env.grpc_tls_key_path = Some("/key.pem".to_string());
    let e = RigOSConfig::load(&cli("0.0.0.0:8080"), None, env).unwrap_err();
    assert!(matches!(e, ConfigError::InvalidOpaTimeout));
    assert_eq!(e.message(), "Failed to parse RIGOS_OPA_TIMEOUT_MS");
}

#[test]
fn file_errors_have_messages() {
    assert_eq!(
        ConfigError::Unreadable { path: "/etc/rigos.yaml".to_string() }.message(),
        "Failed to read config file: /etc/rigos.yaml"
    );
    assert_eq!(ConfigError::Malformed.message(), "Failed to parse YAML config");
}
