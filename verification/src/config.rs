//! Daemon configuration: its defaults, and how the command line and the
//! environment override what the configuration file says.
use vstd::prelude::*;
use vstd::string::*;
use crate::text::{eq_ignore_ascii_case, eq_ignoring_ascii_case, parse_u64, parsed_u64};
use crate::registry::same_text;

verus! {

/// The daemon's command line.
#[derive(Clone, Debug)]
pub struct Cli {
    /// Path to the YAML configuration file.
    pub config: Option<String>,
    /// Server address; `0.0.0.0:8080` unless given.
    pub addr: String,
}

/// The limits granted to one tenant.
#[derive(Clone, Debug)]
pub struct TenantConfig {
    pub id: String,
    pub max_concurrent_sessions: u32,
    pub max_tokens_per_session: u64,
    pub sandbox_fuel_limit: u64,
    pub sandbox_memory_bytes: usize,
}

/// Where telemetry is exported.
#[derive(Clone, Debug)]
pub struct OtelConfig {
    pub endpoint: String,
    pub service_name: String,
    pub enabled: bool,
}

/// The state database.
#[derive(Clone, Debug)]
pub struct DatabaseConfig {
    pub url: String,
    pub max_connections: u32,
}

/// A WebAssembly tool to load at startup.
#[derive(Clone, Debug)]
pub struct ToolConfig {
    pub name: String,
    pub wasm_path: String,
}

/// The policy engine.
#[derive(Clone, Debug)]
pub struct OpaConfig {
    pub url: Option<String>,
    pub bearer_token: Option<String>,
    pub timeout_ms: u64,
}

/// The gRPC listener.
#[derive(Clone, Debug)]
pub struct GrpcConfig {
    pub addr: String,
    pub enabled: bool,
    pub tls: Option<GrpcTlsConfig>,
}

/// The certificate and key the gRPC listener serves TLS with.
#[derive(Clone, Debug)]
pub struct GrpcTlsConfig {
    pub cert_path: String,
    pub key_path: String,
}

/// The HTTP listener.
#[derive(Clone, Debug)]
pub struct ServerConfig {
    pub addr: String,
    pub graceful_shutdown_seconds: u64,
}

/// The sandbox limits used when a tenant sets none.
#[derive(Clone, Debug)]
pub struct SandboxGlobalConfig {
    pub default_fuel: u64,
    pub default_memory_bytes: usize,
}

/// The whole daemon configuration.
#[derive(Clone, Debug)]
pub struct RigOSConfig {
    pub server: ServerConfig,
    pub database: DatabaseConfig,
    pub otel: OtelConfig,
    pub tenants: Vec<TenantConfig>,
    pub log_level: String,
    pub sandbox: SandboxGlobalConfig,
    pub grpc: GrpcConfig,
    pub opa: OpaConfig,
    pub tools: Vec<ToolConfig>,
}

/// The values of the environment variables that override the configuration
/// (`RIGOS_SERVER_ADDR`, `RIGOS_OTEL_ENDPOINT`, `RIGOS_LOG_LEVEL`,
/// `RIGOS_OPA_URL`, `RIGOS_OPA_BEARER_TOKEN`, `RIGOS_OPA_TIMEOUT_MS`,
/// `RIGOS_GRPC_ADDR`, `RIGOS_GRPC_ENABLED`, `RIGOS_GRPC_TLS_CERT_PATH`,
/// `RIGOS_GRPC_TLS_KEY_PATH`), each `None` when unset.
#[derive(Clone, Debug)]
pub struct EnvOverrides {
    pub server_addr: Option<String>,
    pub otel_endpoint: Option<String>,
    pub log_level: Option<String>,
    pub opa_url: Option<String>,
    pub opa_bearer_token: Option<String>,
    pub opa_timeout_ms: Option<String>,
    pub grpc_addr: Option<String>,
    pub grpc_enabled: Option<String>,
    pub grpc_tls_cert_path: Option<String>,
    pub grpc_tls_key_path: Option<String>,
}

/// Why the configuration could not be loaded.
#[derive(Clone, Debug)]
pub enum ConfigError {
    /// The configuration file could not be read.
    Unreadable { path: String },
    /// The configuration file is not a valid configuration.
    Malformed,
    /// `RIGOS_OPA_TIMEOUT_MS` is not an unsigned number.
    InvalidOpaTimeout,
    /// Only one of the two TLS paths is set.
    UnpairedTlsPaths,
}

/// The message of a configuration error.
pub open spec fn config_error_message(e: ConfigError) -> Seq<char> {
    match e {
        ConfigError::Unreadable { path } => "Failed to read config file: "@ + path@,
        ConfigError::Malformed => "Failed to parse YAML config"@,
        ConfigError::InvalidOpaTimeout => "Failed to parse RIGOS_OPA_TIMEOUT_MS"@,
        ConfigError::UnpairedTlsPaths => "RIGOS_GRPC_TLS_CERT_PATH and RIGOS_GRPC_TLS_KEY_PATH must be configured together"@,
    }
}

impl ConfigError {
    /// The human-readable message of this error.
    pub fn message(&self) -> (r: String)
        ensures
            r@ == config_error_message(*self),
    {
        let mut m = String::new();
        match self {
            ConfigError::Unreadable { path } => {
                m.append("Failed to read config file: ");
                m.append(path.as_str());
            },
            ConfigError::Malformed => {
                m.append("Failed to parse YAML config");
            },
            ConfigError::InvalidOpaTimeout => {
                m.append("Failed to parse RIGOS_OPA_TIMEOUT_MS");
            },
            ConfigError::UnpairedTlsPaths => {
                m.append("RIGOS_GRPC_TLS_CERT_PATH and RIGOS_GRPC_TLS_KEY_PATH must be configured together");
            },
        }
        m
    }
}

/// The address the command line gives when none is passed.
pub open spec fn default_cli_addr() -> Seq<char> {
    "0.0.0.0:8080"@
}

/// A configuration holds the built-in defaults.
pub open spec fn is_default_config(c: RigOSConfig) -> bool {
    &&& c.server.addr@ == "0.0.0.0:8080"@
    &&& c.server.graceful_shutdown_seconds == 30
    &&& c.database.url@ == "sqlite://rigos.db"@
    &&& c.database.max_connections == 32
    &&& c.otel.endpoint@ == "http://localhost:4317"@
    &&& c.otel.service_name@ == "rigos-daemon"@
    &&& c.otel.enabled
    &&& c.tenants@.len() == 1
    &&& c.tenants@[0].id@ == "default"@
    &&& c.tenants@[0].max_concurrent_sessions == 100
    &&& c.tenants@[0].max_tokens_per_session == 1_000_000
    &&& c.tenants@[0].sandbox_fuel_limit == 10_000_000
    &&& c.tenants@[0].sandbox_memory_bytes == 128 * 1024 * 1024
    &&& c.log_level@ == "info"@
    &&& c.sandbox.default_fuel == 5_000_000
    &&& c.sandbox.default_memory_bytes == 64 * 1024 * 1024
    &&& c.grpc.addr@ == "0.0.0.0:50051"@
    &&& c.grpc.enabled
    &&& c.grpc.tls is None
    &&& c.opa.url is None
    &&& c.opa.bearer_token is None
    &&& c.opa.timeout_ms == 1500
    &&& c.tools@.len() == 0
}

/// A text made from a literal.
fn text(s: &str) -> (r: String)
    ensures
        r@ == s@,
{
    s.to_owned()
}

impl Default for RigOSConfig {
    /// The built-in defaults.
    fn default() -> (r: Self)
        ensures
            is_default_config(r),
    {
        let mut tenants: Vec<TenantConfig> = Vec::new();
        tenants.push(TenantConfig {
            id: text("default"),
            max_concurrent_sessions: 100,
            max_tokens_per_session: 1_000_000,
            sandbox_fuel_limit: 10_000_000,
            sandbox_memory_bytes: 128 * 1024 * 1024,
        });
        RigOSConfig {
            server: ServerConfig { addr: text("0.0.0.0:8080"), graceful_shutdown_seconds: 30 },
            database: DatabaseConfig { url: text("sqlite://rigos.db"), max_connections: 32 },
            otel: OtelConfig {
                endpoint: text("http://localhost:4317"),
                service_name: text("rigos-daemon"),
                enabled: true,
            },
            tenants,
            log_level: text("info"),
            sandbox: SandboxGlobalConfig { default_fuel: 5_000_000, default_memory_bytes: 64 * 1024 * 1024 },
            grpc: GrpcConfig { addr: text("0.0.0.0:50051"), enabled: true, tls: None },
            opa: OpaConfig { url: None, bearer_token: None, timeout_ms: 1500 },
            tools: Vec::new(),
        }
    }
}

/// The text an optional override leaves: the override when set, else `base`.
pub open spec fn overridden(base: Seq<char>, value: Option<String>) -> Seq<char> {
    match value {
        Some(v) => v@,
        None => base,
    }
}

/// The text of an optional string.
pub open spec fn opt_view(s: Option<String>) -> Option<Seq<char>> {
    match s {
        Some(t) => Some(t@),
        None => None,
    }
}

/// A `RIGOS_GRPC_ENABLED` value switches gRPC on when it is `1` or `true`
/// in any ASCII case.
pub open spec fn enables(value: Seq<char>) -> bool {
    value == "1"@ || eq_ignoring_ascii_case(value, "true"@)
}

/// The error that loading meets with these overrides, if any: an unreadable
/// timeout first, then a TLS path without its partner.
pub open spec fn override_error(env: EnvOverrides) -> Option<ConfigError> {
    if env.opa_timeout_ms matches Some(t) && parsed_u64(t@) is None {
        Some(ConfigError::InvalidOpaTimeout)
    } else if env.grpc_tls_cert_path is Some != env.grpc_tls_key_path is Some {
        Some(ConfigError::UnpairedTlsPaths)
    } else {
        None
    }
}

/// The two TLS paths come together or not at all: an environment that sets
/// exactly one of them, whichever it is, never loads; with a readable (or
/// absent) timeout the error is the unpaired paths.
pub proof fn lemma_tls_paths_must_be_paired(env: EnvOverrides)
    requires
        (env.grpc_tls_cert_path is Some && env.grpc_tls_key_path is None)
            || (env.grpc_tls_cert_path is None && env.grpc_tls_key_path is Some),
    ensures
        override_error(env) is Some,
        !(env.opa_timeout_ms matches Some(t) && parsed_u64(t@) is None)
            ==> override_error(env) == Some(ConfigError::UnpairedTlsPaths),
{
}

/// `c` is `base` with the command line and the environment applied: the
/// environment wins over the command line, which wins over `base`; an
/// address on the command line counts only when it differs from the
/// command line's default; every field without an override keeps its value.
pub open spec fn overrides_applied(base: RigOSConfig, cli: Cli, env: EnvOverrides, c: RigOSConfig) -> bool {
    let cli_addr = if cli.addr@ != default_cli_addr() { cli.addr@ } else { base.server.addr@ };
    &&& c.server.addr@ == overridden(cli_addr, env.server_addr)
    &&& c.server.graceful_shutdown_seconds == base.server.graceful_shutdown_seconds
    &&& c.database == base.database
    &&& c.otel.endpoint@ == overridden(base.otel.endpoint@, env.otel_endpoint)
    &&& c.otel.service_name == base.otel.service_name
    &&& c.otel.enabled == base.otel.enabled
    &&& c.tenants == base.tenants
    &&& c.log_level@ == overridden(base.log_level@, env.log_level)
    &&& c.sandbox == base.sandbox
    &&& c.grpc.addr@ == overridden(base.grpc.addr@, env.grpc_addr)
    &&& c.grpc.enabled == match env.grpc_enabled {
        Some(v) => enables(v@),
        None => base.grpc.enabled,
    }
    &&& match (env.grpc_tls_cert_path, env.grpc_tls_key_path) {
        (Some(cert), Some(key)) => c.grpc.tls matches Some(tls) && tls.cert_path@ == cert@ && tls.key_path@ == key@,
        _ => c.grpc.tls == base.grpc.tls,
    }
    &&& opt_view(c.opa.url) == match env.opa_url {
        Some(u) => Some(u@),
        None => opt_view(base.opa.url),
    }
    &&& opt_view(c.opa.bearer_token) == match env.opa_bearer_token {
        Some(t) => Some(t@),
        None => opt_view(base.opa.bearer_token),
    }
    &&& c.opa.timeout_ms == match env.opa_timeout_ms {
        Some(t) => parsed_u64(t@).unwrap(),
        None => base.opa.timeout_ms,
    }
    &&& c.tools == base.tools
}

/// Replaces `slot` with the override when it is set.
fn apply_text(slot: &mut String, value: Option<String>)
    ensures
        final(slot)@ == overridden(old(slot)@, value),
{
    match value {
        Some(v) => {
            *slot = v;
        },
        None => {},
    }
}

impl RigOSConfig {
    /// Applies the command line and the environment to this configuration.
    pub fn with_overrides(self, cli: &Cli, env: EnvOverrides) -> (r: Result<RigOSConfig, ConfigError>)
        ensures
            match override_error(env) {
                Some(e) => r matches Err(f) && f == e,
                None => r matches Ok(c) && overrides_applied(self, *cli, env, c),
            },
            (env.grpc_tls_cert_path is Some) != (env.grpc_tls_key_path is Some) ==> r is Err,
    {
        let ghost base = self;
        let ghost env0 = env;
        let mut config = self;
        if !same_text(cli.addr.as_str(), "0.0.0.0:8080") {
            config.server.addr = cli.addr.clone();
        }
        apply_text(&mut config.server.addr, env.server_addr);
        apply_text(&mut config.otel.endpoint, env.otel_endpoint);
        apply_text(&mut config.log_level, env.log_level);
        match env.opa_url {
            Some(u) => {
                config.opa.url = Some(u);
            },
            None => {},
        }
        match env.opa_bearer_token {
            Some(t) => {
                config.opa.bearer_token = Some(t);
            },
            None => {},
        }
        match env.opa_timeout_ms {
            Some(t) => match parse_u64(t.as_str()) {
                Some(ms) => {
                    config.opa.timeout_ms = ms;
                },
                None => {
                    return Err(ConfigError::InvalidOpaTimeout);
                },
            },
            None => {},
        }
        apply_text(&mut config.grpc.addr, env.grpc_addr);
        match env.grpc_enabled {
            Some(v) => {
                config.grpc.enabled = same_text(v.as_str(), "1") || eq_ignore_ascii_case(v.as_str(), "true");
            },
            None => {},
        }
        match (env.grpc_tls_cert_path, env.grpc_tls_key_path) {
            (Some(cert_path), Some(key_path)) => {
                config.grpc.tls = Some(GrpcTlsConfig { cert_path, key_path });
            },
            (Some(_), None) | (None, Some(_)) => {
                return Err(ConfigError::UnpairedTlsPaths);
            },
            (None, None) => {},
        }
        Ok(config)
    }

    /// Loads the configuration: the file's contents when a file was read,
    /// the built-in defaults otherwise, with the command line and the
    /// environment applied.
    pub fn load(cli: &Cli, from_file: Option<RigOSConfig>, env: EnvOverrides) -> (r: Result<RigOSConfig, ConfigError>)
        ensures
            match override_error(env) {
                Some(e) => r matches Err(f) && f == e,
                None => r matches Ok(c) && match from_file {
                    Some(f) => overrides_applied(f, *cli, env, c),
                    None => exists|d: RigOSConfig| is_default_config(d) && overrides_applied(d, *cli, env, c),
                },
            },
    {
        let base = match from_file {
            Some(f) => f,
            None => RigOSConfig::default(),
        };
        base.with_overrides(cli, env)
    }
}

} // verus!
