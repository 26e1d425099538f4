//! The resolved deployment configuration and its validation rules.
//!
//! The surrounding process reads and parses the configuration file;
//! this module receives the resolved values and decides whether they
//! describe a usable deployment target.

use vstd::prelude::*;
use vstd::string::*;

use crate::strutil::{starts_with_spec, starts_with_str, str_eq, trim_str, trimmed};

verus! {

/// Project-specific configuration.
#[derive(Debug, Clone)]
pub struct ProjectConfig {
    /// Path to the project (relative to the working directory, or absolute).
    pub path: String,
    /// Name of the project (used for the binary name and service name).
    pub name: String,
    /// Build mode: "debug" or "release".
    pub build_mode: String,
}

/// Deployment configuration.
#[derive(Debug, Clone)]
pub struct DeployConfig {
    /// Deployment target type.
    pub target: String,
    /// Remote host address.
    pub vps_host: String,
    /// Remote login user.
    pub vps_user: String,
    /// Path to the private key file, when key authentication is used.
    pub vps_key_path: Option<String>,
    /// Password, when password authentication is used.
    pub vps_password: Option<String>,
    /// Remote directory that the binary is deployed into.
    pub deploy_path: String,
    /// Service unit name; derived from the project name when absent.
    pub service_name: Option<String>,
    /// Remote shell port.
    pub ssh_port: u16,
}

/// Monitoring configuration.
#[derive(Debug, Clone)]
pub struct MonitorConfig {
    /// Health check endpoint URL.
    pub health_endpoint: Option<String>,
    /// Remote log file path.
    pub log_path: Option<String>,
    /// Monitoring poll interval in seconds.
    pub interval_secs: u64,
    /// Timeout for health checks in seconds.
    pub health_timeout_secs: u64,
}

/// The resolved configuration of one deployment target.
#[derive(Debug, Clone)]
pub struct Config {
    pub project: ProjectConfig,
    pub deploy: DeployConfig,
    pub monitor: MonitorConfig,
}

/// Why a configuration was rejected; the first broken rule, in the
/// order the rules are checked.
#[derive(Debug, Clone, PartialEq, Eq, Structural)]
pub enum ConfigError {
    EmptyProjectName,
    InvalidBuildMode,
    EmptyHost,
    EmptyUser,
    MissingCredentials,
    EmptyKeyPath,
    EmptyHealthEndpoint,
    InvalidHealthEndpoint,
    ZeroInterval,
    ZeroHealthTimeout,
}

/// Whether `s` is blank: empty once trimmed of whitespace.
pub open spec fn blank(s: Seq<char>) -> bool {
    trimmed(s).len() == 0
}

/// The outcome of validating `c`: the first broken rule, or nothing.
pub open spec fn validate_spec(c: Config) -> Result<(), ConfigError> {
    if blank(c.project.name@) {
        Err(ConfigError::EmptyProjectName)
    } else if !(c.project.build_mode@ == "debug"@ || c.project.build_mode@ == "release"@) {
        Err(ConfigError::InvalidBuildMode)
    } else if blank(c.deploy.vps_host@) {
        Err(ConfigError::EmptyHost)
    } else if blank(c.deploy.vps_user@) {
        Err(ConfigError::EmptyUser)
    } else if c.deploy.vps_key_path is None && c.deploy.vps_password is None {
        Err(ConfigError::MissingCredentials)
    } else if c.deploy.vps_key_path matches Some(k) && blank(k@) {
        Err(ConfigError::EmptyKeyPath)
    } else if c.monitor.health_endpoint matches Some(e) && blank(e@) {
        Err(ConfigError::EmptyHealthEndpoint)
    } else if c.monitor.health_endpoint matches Some(e) && !(starts_with_spec(e@, "http://"@)
        || starts_with_spec(e@, "https://"@)) {
        Err(ConfigError::InvalidHealthEndpoint)
    } else if c.monitor.interval_secs == 0 {
        Err(ConfigError::ZeroInterval)
    } else if c.monitor.health_timeout_secs == 0 {
        Err(ConfigError::ZeroHealthTimeout)
    } else {
        Ok(())
    }
}

/// The service unit name of `c`: the configured name, or the project
/// name with `.service` appended.
pub open spec fn service_name_spec(c: Config) -> Seq<char> {
    match c.deploy.service_name {
        Some(s) => s@,
        None => c.project.name@ + ".service"@,
    }
}

/// The project path of `c` resolved against the working directory
/// `cwd`: kept as is when absolute, else joined onto `cwd`.
pub open spec fn project_path_spec(c: Config, cwd: Seq<char>) -> Seq<char> {
    if starts_with_spec(c.project.path@, "/"@) {
        c.project.path@
    } else {
        cwd + "/"@ + c.project.path@
    }
}

/// Whether `s` is blank once trimmed.
fn is_blank(s: &str) -> (r: bool)
    ensures
        r == blank(s@),
{
    let t = trim_str(s);
    t.as_str().unicode_len() == 0
}

impl Config {
    /// Validate the configuration, reporting the first broken rule.
    ///
    /// A configuration passes exactly when the project name, host and
    /// user are nonblank, the build mode is `debug` or `release`, at
    /// least one credential is present (a configured key path being
    /// nonblank), a configured health endpoint is a nonblank HTTP or
    /// HTTPS URL, and both monitor timings are nonzero.
    pub fn validate(&self) -> (r: Result<(), ConfigError>)
        ensures
            r == validate_spec(*self),
    {
        if is_blank(self.project.name.as_str()) {
            return Err(ConfigError::EmptyProjectName);
        }
        if !(str_eq(self.project.build_mode.as_str(), "debug")
            || str_eq(self.project.build_mode.as_str(), "release")) {
            return Err(ConfigError::InvalidBuildMode);
        }
        if is_blank(self.deploy.vps_host.as_str()) {
            return Err(ConfigError::EmptyHost);
        }
        if is_blank(self.deploy.vps_user.as_str()) {
            return Err(ConfigError::EmptyUser);
        }
        if self.deploy.vps_key_path.is_none() && self.deploy.vps_password.is_none() {
            return Err(ConfigError::MissingCredentials);
        }
        if let Some(k) = &self.deploy.vps_key_path {
            if is_blank(k.as_str()) {
                return Err(ConfigError::EmptyKeyPath);
            }
        }
        if let Some(e) = &self.monitor.health_endpoint {
            if is_blank(e.as_str()) {
                return Err(ConfigError::EmptyHealthEndpoint);
            }
            if !(starts_with_str(e.as_str(), "http://") || starts_with_str(e.as_str(), "https://")) {
                return Err(ConfigError::InvalidHealthEndpoint);
            }
        }
        if self.monitor.interval_secs == 0 {
            return Err(ConfigError::ZeroInterval);
        }
        if self.monitor.health_timeout_secs == 0 {
            return Err(ConfigError::ZeroHealthTimeout);
        }
        Ok(())
    }

    /// The name of the binary that is built and deployed.
    pub fn binary_name(&self) -> (r: String)
        ensures
            r@ == self.project.name@,
    {
        self.project.name.clone()
    }

    /// The service unit name: configured, or derived from the project name.
    pub fn service_name(&self) -> (r: String)
        ensures
            r@ == service_name_spec(*self),
    {
        match &self.deploy.service_name {
            Some(s) => s.clone(),
            None => self.project.name.clone().concat(".service"),
        }
    }

    /// The project path resolved against the working directory `cwd`.
    pub fn project_path(&self, cwd: &str) -> (r: String)
        ensures
            r@ == project_path_spec(*self, cwd@),
    {
        if starts_with_str(self.project.path.as_str(), "/") {
            self.project.path.clone()
        } else {
            String::from_str(cwd).concat("/").concat(self.project.path.as_str())
        }
    }
}

/// The project path used when none is configured.
pub fn default_project_path() -> (r: String)
    ensures
        r@ == "."@,
{
    String::from_str(".")
}

/// The build mode used when none is configured.
pub fn default_build_mode() -> (r: String)
    ensures
        r@ == "release"@,
{
    String::from_str("release")
}

/// The deployment target type used when none is configured.
pub fn default_target() -> (r: String)
    ensures
        r@ == "vps"@,
{
    String::from_str("vps")
}

/// The remote deploy directory used when none is configured.
pub fn default_deploy_path() -> (r: String)
    ensures
        r@ == "/opt/rzen-app"@,
{
    String::from_str("/opt/rzen-app")
}

/// The remote shell port used when none is configured.
pub fn default_ssh_port() -> (r: u16)
    ensures
        r == 22,
{
    22
}

/// The monitor poll interval used when none is configured.
pub fn default_monitor_interval() -> (r: u64)
    ensures
        r == 10,
{
    10
}

/// The health check timeout used when none is configured.
pub fn default_health_timeout() -> (r: u64)
    ensures
        r == 5,
{
    5
}

} // verus!
