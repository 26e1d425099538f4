//! Status monitoring: the aggregated status snapshot, and the rules
//! that fold the two independent probes into it.
//!
//! The HTTP request and the session probe themselves are outside
//! work; what counts as healthy, how the probes combine, and what the
//! summary says are decided and proved here.

use vstd::prelude::*;
use vstd::string::*;

use crate::config::Config;
use crate::strutil::{join_commas, join_comma_strs, views_of};

verus! {

/// Whether an HTTP status code counts as a healthy answer: any
/// success code does, anything else does not.
pub open spec fn http_success_spec(status: u16) -> bool {
    200 <= status < 300
}

/// Whether `status` is an HTTP success code.
pub fn http_success(status: u16) -> (r: bool)
    ensures
        r == http_success_spec(status),
{
    200 <= status && status < 300
}

/// One status snapshot: the health probe, the session probe, and the
/// service state, each recorded independently.
#[derive(Debug, Clone)]
pub struct ApplicationStatus {
    /// Whether the health endpoint answered with a success code.
    pub health_ok: bool,
    /// Whether a session to the host could be opened.
    pub ssh_ok: bool,
    /// The health endpoint's answer time in milliseconds, when it answered.
    pub response_time: Option<u64>,
    /// The trimmed service state string, when it could be queried.
    pub service_status: Option<String>,
    /// The last error any probe reported.
    pub last_error: Option<String>,
}

/// Whether a snapshot counts as healthy: the health probe succeeded,
/// the session probe succeeded, and the service state reads exactly
/// `active`.
pub open spec fn is_healthy_spec(s: ApplicationStatus) -> bool {
    s.health_ok && s.ssh_ok && (s.service_status matches Some(st) && st@ == "active"@)
}

/// What the summary of a snapshot says: all well, or the list of
/// failing probes.
pub open spec fn summary_spec(s: ApplicationStatus) -> Seq<char> {
    if is_healthy_spec(s) {
        "All systems operational"@
    } else {
        "Issues: "@ + join_commas(issue_list_spec(s))
    }
}

/// The failing probes of a snapshot, in reporting order.
pub open spec fn issue_list_spec(s: ApplicationStatus) -> Seq<Seq<char>> {
    let health: Seq<Seq<char>> = if !s.health_ok {
        seq!["Health check failing"@]
    } else {
        seq![]
    };
    let ssh: Seq<Seq<char>> = if !s.ssh_ok {
        seq!["SSH connection failed"@]
    } else {
        seq![]
    };
    let service: Seq<Seq<char>> = if !(s.service_status matches Some(st) && st@ == "active"@) {
        seq!["Service not active"@]
    } else {
        seq![]
    };
    health + ssh + service
}

impl Default for ApplicationStatus {
    /// An empty snapshot: nothing probed yet.
    fn default() -> (r: ApplicationStatus)
        ensures
            !r.health_ok,
            !r.ssh_ok,
            r.response_time is None,
            r.service_status is None,
            r.last_error is None,
    {
        ApplicationStatus {
            health_ok: false,
            ssh_ok: false,
            response_time: None,
            service_status: None,
            last_error: None,
        }
    }
}

impl ApplicationStatus {
    /// Whether the application is healthy: true exactly when the
    /// health probe succeeded, the session probe succeeded, and the
    /// service state reads exactly `active`; any single failure makes
    /// it false.
    pub fn is_healthy(&self) -> (r: bool)
        ensures
            r == is_healthy_spec(*self),
    {
        self.health_ok && self.ssh_ok && match &self.service_status {
            Some(st) => crate::strutil::str_eq(st.as_str(), "active"),
            None => false,
        }
    }

    /// A one-line summary: all well, or the failing probes.
    pub fn summary(&self) -> (r: String)
        ensures
            r@ == summary_spec(*self),
    {
        if self.is_healthy() {
            String::from_str("All systems operational")
        } else {
            let mut issues: Vec<String> = Vec::new();
            if !self.health_ok {
                issues.push(String::from_str("Health check failing"));
            }
            if !self.ssh_ok {
                issues.push(String::from_str("SSH connection failed"));
            }
            let service_running = match &self.service_status {
                Some(st) => crate::strutil::str_eq(st.as_str(), "active"),
                None => false,
            };
            if !service_running {
                issues.push(String::from_str("Service not active"));
            }
            proof {
                assert(views_of(issues@) =~~= issue_list_spec(*self));
            }
            String::from_str("Issues: ").concat(join_comma_strs(&issues).as_str())
        }
    }
}

/// Fold the two probes into one snapshot.
///
/// `health` is the health probe: absent when no endpoint is
/// configured, else the answer time in milliseconds or the error it
/// failed with. `session` is the session probe: the queried service
/// state (when the query worked) or the message the connection failed
/// with. The probes are independent; a failed session leaves a
/// successful health probe standing, and a session failure's message
/// wins the error slot.
pub fn compose_status(health: Option<Result<u64, String>>, session: Result<Option<String>, String>) -> (r: ApplicationStatus)
    ensures
        r.health_ok == (health matches Some(Ok(_))),
        health matches Some(Ok(ms)) ==> r.response_time == Some(ms),
        !(health matches Some(Ok(_))) ==> r.response_time is None,
        r.ssh_ok == (session is Ok),
        session matches Ok(st) ==> r.service_status == st,
        session is Err ==> r.service_status is None,
        session matches Err(e) ==> (r.last_error matches Some(le)
            && le@ == "SSH connection failed: "@ + e@),
        session is Ok ==> (health matches Some(Err(he)) ==> r.last_error == Some(he)),
        session is Ok && !(health matches Some(Err(_))) ==> r.last_error is None,
{
    let mut status = ApplicationStatus::default();
    match health {
        Some(Ok(ms)) => {
            status.health_ok = true;
            status.response_time = Some(ms);
        },
        Some(Err(e)) => {
            status.health_ok = false;
            status.last_error = Some(e);
        },
        None => {},
    }
    match session {
        Ok(st) => {
            status.ssh_ok = true;
            status.service_status = st;
        },
        Err(e) => {
            status.ssh_ok = false;
            status.last_error = Some(String::from_str("SSH connection failed: ").concat(e.as_str()));
        },
    }
    status
}

/// Monitoring settings in the form the interactive surface reads.
pub struct MonitorConfig {
    /// Poll interval in seconds.
    pub interval: u64,
    pub health_endpoint: Option<String>,
    pub log_path: Option<String>,
    pub max_log_lines: usize,
}

impl From<&Config> for MonitorConfig {
    /// The monitor settings of `config`, with the interactive
    /// surface's default log window.
    fn from(config: &Config) -> (r: MonitorConfig) {
        MonitorConfig {
            interval: config.monitor.interval_secs,
            health_endpoint: match &config.monitor.health_endpoint {
                Some(e) => Some(e.clone()),
                None => None,
            },
            log_path: match &config.monitor.log_path {
                Some(p) => Some(p.clone()),
                None => None,
            },
            max_log_lines: 100,
        }
    }
}

impl vstd::std_specs::convert::FromSpecImpl<&Config> for MonitorConfig {
    open spec fn obeys_from_spec() -> bool {
        true
    }

    open spec fn from_spec(config: &Config) -> MonitorConfig {
        MonitorConfig {
            interval: config.monitor.interval_secs,
            health_endpoint: config.monitor.health_endpoint,
            log_path: config.monitor.log_path,
            max_log_lines: 100,
        }
    }
}

/// Aggregate figures derived from one snapshot.
#[derive(Debug, Clone)]
pub struct MonitoringMetrics {
    /// Percent: all-or-nothing from the single snapshot.
    pub uptime_percentage: u64,
    /// The answer time of the health probe, in milliseconds.
    pub average_response_time: Option<u64>,
    /// Unknown without longer-running collection.
    pub total_requests: Option<u64>,
    pub error_count: u64,
    /// When the snapshot was taken, in seconds since the epoch.
    pub last_check: i64,
}

/// Derive the metrics of one snapshot, taken at `last_check`.
pub fn metrics_from_status(status: &ApplicationStatus, last_check: i64) -> (r: MonitoringMetrics)
    ensures
        r.uptime_percentage == if is_healthy_spec(*status) { 100int } else { 0int },
        r.average_response_time == status.response_time,
        r.total_requests is None,
        r.error_count == if status.last_error is Some { 1int } else { 0int },
        r.last_check == last_check,
{
    MonitoringMetrics {
        uptime_percentage: if status.is_healthy() { 100 } else { 0 },
        average_response_time: status.response_time,
        total_requests: None,
        error_count: if status.last_error.is_some() { 1 } else { 0 },
        last_check,
    }
}

/// Whether a continuous monitoring loop should stop after `iteration`
/// finished cycles: only when a cap is set and reached. The cap is
/// explicit so that callers can monitor without bound.
pub fn monitor_should_stop(iteration: u64, max_iterations: Option<u64>) -> (r: bool)
    ensures
        r == (max_iterations matches Some(m) && iteration >= m),
{
    match max_iterations {
        Some(m) => iteration >= m,
        None => false,
    }
}

} // verus!
