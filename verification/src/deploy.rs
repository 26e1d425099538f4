//! The deployment pipeline: prerequisite validation, the derived
//! deployment descriptor, and the stage machine that drives backup,
//! upload, unit installation and service start against a remote host.
//!
//! The machine owns every decision: which remote action comes next,
//! how a connection failure is retried, when the backup is taken, and
//! what the final result is. The surrounding process only performs
//! the actions and feeds the answers back in.

use vstd::prelude::*;
use vstd::string::*;

use crate::config::{service_name_spec, Config};
use crate::errors::DeployError;
use crate::session::{backoff_delay_secs, RetryState};
use crate::strutil::{trimmed, ws_tokens};
use crate::systemd::{generate_systemd_service, unit_text_spec};
use crate::timefmt::{format_timestamp, utc_display_of};
use crate::strutil::{parse_i64, parse_i64_spec, split_ws, trim_str};
use vstd::arithmetic::power2::pow2;

verus! {

/// Check that a deployment can be attempted: the binary must have
/// been built and be nonempty, and a credential must be configured.
/// The caller reports whether the binary exists at `binary_path` and
/// how large it is.
pub fn validate_deployment_prerequisites(config: &Config, binary_path: &str, binary_exists: bool, file_size: u64) -> (r: Result<(), DeployError>)
    ensures
        r is Ok <==> (binary_exists && file_size > 0 && (config.deploy.vps_key_path is Some
            || config.deploy.vps_password is Some)),
        !binary_exists ==> (r matches Err(DeployError::BinaryMissing { path }) && path@ == binary_path@),
        binary_exists && file_size == 0 ==> (r matches Err(DeployError::BinaryEmpty { path })
            && path@ == binary_path@),
        binary_exists && file_size > 0 && config.deploy.vps_key_path is None
            && config.deploy.vps_password is None ==> r == Err::<(), DeployError>(DeployError::MissingCredentials),
{
    if !binary_exists {
        return Err(DeployError::BinaryMissing { path: String::from_str(binary_path) });
    }
    if file_size == 0 {
        return Err(DeployError::BinaryEmpty { path: String::from_str(binary_path) });
    }
    if credentials_missing(config) {
        return Err(DeployError::MissingCredentials);
    }
    Ok(())
}

fn credentials_missing(config: &Config) -> (r: bool)
    ensures
        r == (config.deploy.vps_key_path is None && config.deploy.vps_password is None),
{
    config.deploy.vps_key_path.is_none() && config.deploy.vps_password.is_none()
}

/// Everything a deployment run needs to know about its target, with
/// the remote paths derived once.
#[derive(Debug, Clone)]
pub struct DeploymentPlan {
    /// The name of the binary being deployed.
    pub binary_name: String,
    /// The remote directory deployed into.
    pub deploy_path: String,
    /// The remote path of the live binary.
    pub remote_binary_path: String,
    /// The remote path of the backup slot.
    pub backup_path: String,
    /// The service unit name.
    pub service_name: String,
    /// The rendered unit text.
    pub unit_text: String,
    /// The host deployed to, for messages.
    pub host: String,
}

impl DeploymentPlan {
    /// The paths a well-formed plan derives: the live binary lives in
    /// the deploy directory under the binary's name, and the backup
    /// slot is the same path with `.backup` appended.
    pub open spec fn wf(&self) -> bool {
        self.remote_binary_path@ == self.deploy_path@ + "/"@ + self.binary_name@
            && self.backup_path@ == self.remote_binary_path@ + ".backup"@
    }

    /// Derive the plan for `config`.
    pub fn from_config(config: &Config) -> (r: DeploymentPlan)
        ensures
            r.wf(),
            r.binary_name@ == config.project.name@,
            r.deploy_path@ == config.deploy.deploy_path@,
            r.service_name@ == service_name_spec(*config),
            r.unit_text@ == unit_text_spec(config.project.name@, config.deploy.vps_user@, config.deploy.deploy_path@),
            r.host@ == config.deploy.vps_host@,
    {
        let binary_name = config.binary_name();
        let remote_binary_path = config.deploy.deploy_path.clone().concat("/").concat(
            binary_name.as_str(),
        );
        let backup_path = remote_binary_path.clone().concat(".backup");
        DeploymentPlan {
            binary_name,
            deploy_path: config.deploy.deploy_path.clone(),
            remote_binary_path,
            backup_path,
            service_name: config.service_name(),
            unit_text: generate_systemd_service(config),
            host: config.deploy.vps_host.clone(),
        }
    }
}

/// The message a dry run returns.
pub open spec fn dry_run_message_spec(name: Seq<char>, host: Seq<char>) -> Seq<char> {
    "DRY RUN: Would deploy "@ + name + " to "@ + host
}

/// The message a completed deployment returns.
pub open spec fn success_message_spec(name: Seq<char>, host: Seq<char>) -> Seq<char> {
    "Successfully deployed "@ + name + " to "@ + host
}

/// One remote action the pipeline asks its driver to perform. The
/// payloads carry everything the driver needs: the exact paths, the
/// service name, and the unit text.
#[derive(Debug, Clone)]
pub enum DeployAction {
    /// Open and authenticate a session; the attempt counts from one.
    Connect { attempt: u32 },
    /// Sleep before the next connection attempt.
    Wait { seconds: u64 },
    /// Ensure the deploy directory exists.
    EnsureDir { path: String },
    /// Ask whether the live binary exists.
    ProbeLiveBinary { path: String },
    /// Ask whether the backup slot is filled.
    ProbeBackup { path: String },
    /// Copy the live binary into the backup slot.
    BackupBinary { from: String, to: String },
    /// Copy the backup slot over the live binary.
    RestoreBackup { from: String, to: String },
    /// Upload the local binary to the live path.
    UploadBinary { remote_path: String },
    /// Mark the live binary executable.
    MakeExecutable { path: String },
    /// Install the unit text and reload the unit cache.
    InstallUnit { service_name: String, unit_text: String },
    /// Stop the service; a failure here is ignored.
    StopService { name: String },
    /// Enable the service.
    EnableService { name: String },
    /// Start the service.
    StartService { name: String },
    /// Query the service state.
    QueryService { name: String },
}

/// What the driver reports back for one action.
#[derive(Debug, Clone)]
pub enum DeployEvent {
    /// The connection attempt authenticated.
    Connected,
    /// The connection attempt failed.
    ConnectFailed,
    /// The backoff sleep elapsed.
    Waited,
    /// The remote command succeeded.
    StepOk,
    /// The remote command or transfer failed.
    StepFailed { error: DeployError },
    /// The answer of an existence probe.
    BinaryPresent { present: bool },
    /// Whether the service state query answered exactly `active`.
    ServiceActive { active: bool },
}

/// One discrete step notification of a running deployment: how far
/// along the run is, out of one hundred, and the label of the stage
/// about to execute.
#[derive(Debug, Clone)]
pub struct ProgressEvent {
    pub percent: u64,
    pub label: String,
}

/// The percent complete shown before each stage: the stage's index
/// out of the eight stages of a run, times one hundred.
pub open spec fn stage_percent(s: DeployStage) -> u64 {
    match s {
        DeployStage::Connecting => 25,
        DeployStage::ConnectBackoff => 25,
        DeployStage::EnsureDir => 37,
        DeployStage::ProbeBinary => 50,
        DeployStage::Backup => 50,
        DeployStage::Upload => 62,
        DeployStage::Chmod => 75,
        DeployStage::InstallUnit => 87,
        DeployStage::StopService => 100,
        DeployStage::EnableService => 100,
        DeployStage::StartService => 100,
        DeployStage::VerifyActive => 100,
        DeployStage::Done => 100,
        DeployStage::Failed => 100,
    }
}

/// The human label shown before each stage.
pub open spec fn stage_label_spec(s: DeployStage) -> Seq<char> {
    match s {
        DeployStage::Connecting => "Connecting to server..."@,
        DeployStage::ConnectBackoff => "Connecting to server..."@,
        DeployStage::EnsureDir => "Creating remote directory..."@,
        DeployStage::ProbeBinary => "Uploading binary..."@,
        DeployStage::Backup => "Creating backup of existing binary"@,
        DeployStage::Upload => "Uploading binary..."@,
        DeployStage::Chmod => "Setting executable permissions..."@,
        DeployStage::InstallUnit => "Creating systemd service..."@,
        DeployStage::StopService => "Starting service..."@,
        DeployStage::EnableService => "Starting service..."@,
        DeployStage::StartService => "Starting service..."@,
        DeployStage::VerifyActive => "Starting service..."@,
        DeployStage::Done => "Deployment completed successfully!"@,
        DeployStage::Failed => "Deployment failed"@,
    }
}

/// Where the deployment pipeline stands.
#[derive(Debug, Clone, Copy, PartialEq, Eq, Structural)]
pub enum DeployStage {
    Connecting,
    ConnectBackoff,
    EnsureDir,
    ProbeBinary,
    Backup,
    Upload,
    Chmod,
    InstallUnit,
    StopService,
    EnableService,
    StartService,
    VerifyActive,
    Done,
    Failed,
}

/// How many connection attempts a deployment makes.
pub open spec fn deploy_connect_attempts() -> int {
    3
}

/// The stage machine of one deployment run.
///
/// Stages run in a fixed order; the first failure aborts the rest and
/// becomes the outcome. Only the connection stage retries, with
/// exponential backoff over three attempts. A dry run is born
/// finished: it asks for no action at all.
pub struct DeployMachine {
    pub plan: DeploymentPlan,
    pub dry_run: bool,
    pub stage: DeployStage,
    pub retry: RetryState,
    /// Whether the probe found a binary already deployed.
    pub binary_existed: bool,
    pub outcome: Option<Result<String, DeployError>>,
}

impl DeployMachine {
    /// The machine's invariant.
    pub open spec fn wf(&self) -> bool {
        &&& self.plan.wf()
        &&& self.retry.wf()
        &&& self.retry.max_attempts == deploy_connect_attempts()
        &&& (self.stage is Connecting ==> self.retry.phase is Ready)
        &&& (self.stage is ConnectBackoff ==> self.retry.phase is Backoff)
        &&& (self.stage is Done ==> self.outcome matches Some(Ok(_)))
        &&& (self.stage is Failed ==> self.outcome matches Some(Err(_)))
        &&& (!(self.stage is Done || self.stage is Failed) ==> self.outcome is None)
        &&& (self.dry_run ==> self.stage is Done)
    }

    /// Whether the run is over.
    pub open spec fn finished_spec(&self) -> bool {
        self.stage is Done || self.stage is Failed
    }

    /// Start a deployment run. A dry run returns its synthetic
    /// success immediately and never asks for an action; a real run
    /// begins by connecting.
    pub fn new(plan: DeploymentPlan, dry_run: bool) -> (r: DeployMachine)
        requires
            plan.wf(),
        ensures
            r.wf(),
            r.plan == plan,
            r.dry_run == dry_run,
            r.binary_existed == false,
            dry_run ==> r.stage is Done && (r.outcome matches Some(Ok(m))
                && m@ == dry_run_message_spec(plan.binary_name@, plan.host@)),
            !dry_run ==> r.stage is Connecting && r.outcome is None
                && r.retry.attempts_made == 0 && r.retry.total_wait@ == 0,
    {
        if dry_run {
            let message = String::from_str("DRY RUN: Would deploy ")
                .concat(plan.binary_name.as_str())
                .concat(" to ")
                .concat(plan.host.as_str());
            DeployMachine {
                plan,
                dry_run,
                stage: DeployStage::Done,
                retry: RetryState::new(3),
                binary_existed: false,
                outcome: Some(Ok(message)),
            }
        } else {
            DeployMachine {
                plan,
                dry_run,
                stage: DeployStage::Connecting,
                retry: RetryState::new(3),
                binary_existed: false,
                outcome: None,
            }
        }
    }

    /// Whether the run is over.
    pub fn finished(&self) -> (r: bool)
        ensures
            r == self.finished_spec(),
    {
        match self.stage {
            DeployStage::Done => true,
            DeployStage::Failed => true,
            _ => false,
        }
    }

    /// The percentage shown for the stage about to execute: the
    /// stage's index out of the eight stages of a run, validation
    /// being the first and connection the second, times one hundred.
    pub fn progress_percent(&self) -> (r: u64)
        ensures
            r == stage_percent(self.stage),
            r <= 100,
    {
        match self.stage {
            DeployStage::Connecting => 25,
            DeployStage::ConnectBackoff => 25,
            DeployStage::EnsureDir => 37,
            DeployStage::ProbeBinary => 50,
            DeployStage::Backup => 50,
            DeployStage::Upload => 62,
            DeployStage::Chmod => 75,
            DeployStage::InstallUnit => 87,
            DeployStage::StopService => 100,
            DeployStage::EnableService => 100,
            DeployStage::StartService => 100,
            DeployStage::VerifyActive => 100,
            DeployStage::Done => 100,
            DeployStage::Failed => 100,
        }
    }

    /// The label shown for the stage about to execute.
    pub fn stage_label(&self) -> (r: &'static str)
        ensures
            r@ == stage_label_spec(self.stage),
    {
        match self.stage {
            DeployStage::Connecting => "Connecting to server...",
            DeployStage::ConnectBackoff => "Connecting to server...",
            DeployStage::EnsureDir => "Creating remote directory...",
            DeployStage::ProbeBinary => "Uploading binary...",
            DeployStage::Backup => "Creating backup of existing binary",
            DeployStage::Upload => "Uploading binary...",
            DeployStage::Chmod => "Setting executable permissions...",
            DeployStage::InstallUnit => "Creating systemd service...",
            DeployStage::StopService => "Starting service...",
            DeployStage::EnableService => "Starting service...",
            DeployStage::StartService => "Starting service...",
            DeployStage::VerifyActive => "Starting service...",
            DeployStage::Done => "Deployment completed successfully!",
            DeployStage::Failed => "Deployment failed",
        }
    }

    /// The progress event emitted before the stage executes.
    pub fn progress_event(&self) -> (e: ProgressEvent)
        ensures
            e.percent == stage_percent(self.stage),
            e.label@ == stage_label_spec(self.stage),
    {
        ProgressEvent {
            percent: self.progress_percent(),
            label: String::from_str(self.stage_label()),
        }
    }

    /// The action the driver should perform now.
    pub fn next_action(&self) -> (a: DeployAction)
        requires
            self.wf(),
            !self.finished_spec(),
        ensures
            self.stage is Connecting ==> (a matches DeployAction::Connect { attempt }
                && attempt == self.retry.attempts_made + 1),
            self.stage is ConnectBackoff ==> (a matches DeployAction::Wait { seconds }
                && seconds as nat == pow2((self.retry.attempts_made - 1) as nat)),
            self.stage is EnsureDir ==> (a matches DeployAction::EnsureDir { path }
                && path@ == self.plan.deploy_path@),
            self.stage is ProbeBinary ==> (a matches DeployAction::ProbeLiveBinary { path }
                && path@ == self.plan.remote_binary_path@),
            self.stage is Backup ==> (a matches DeployAction::BackupBinary { from, to }
                && from@ == self.plan.remote_binary_path@ && to@ == self.plan.backup_path@),
            self.stage is Upload ==> (a matches DeployAction::UploadBinary { remote_path }
                && remote_path@ == self.plan.remote_binary_path@),
            self.stage is Chmod ==> (a matches DeployAction::MakeExecutable { path }
                && path@ == self.plan.remote_binary_path@),
            self.stage is InstallUnit ==> (a matches DeployAction::InstallUnit { service_name, unit_text }
                && service_name@ == self.plan.service_name@ && unit_text@ == self.plan.unit_text@),
            self.stage is StopService ==> (a matches DeployAction::StopService { name }
                && name@ == self.plan.service_name@),
            self.stage is EnableService ==> (a matches DeployAction::EnableService { name }
                && name@ == self.plan.service_name@),
            self.stage is StartService ==> (a matches DeployAction::StartService { name }
                && name@ == self.plan.service_name@),
            self.stage is VerifyActive ==> (a matches DeployAction::QueryService { name }
                && name@ == self.plan.service_name@),
    {
        match self.stage {
            DeployStage::Connecting => DeployAction::Connect {
                attempt: self.retry.attempts_made + 1,
            },
            DeployStage::ConnectBackoff => DeployAction::Wait {
                seconds: backoff_delay_secs(self.retry.attempts_made),
            },
            DeployStage::EnsureDir => DeployAction::EnsureDir {
                path: self.plan.deploy_path.clone(),
            },
            DeployStage::ProbeBinary => DeployAction::ProbeLiveBinary {
                path: self.plan.remote_binary_path.clone(),
            },
            DeployStage::Backup => DeployAction::BackupBinary {
                from: self.plan.remote_binary_path.clone(),
                to: self.plan.backup_path.clone(),
            },
            DeployStage::Upload => DeployAction::UploadBinary {
                remote_path: self.plan.remote_binary_path.clone(),
            },
            DeployStage::Chmod => DeployAction::MakeExecutable {
                path: self.plan.remote_binary_path.clone(),
            },
            DeployStage::InstallUnit => DeployAction::InstallUnit {
                service_name: self.plan.service_name.clone(),
                unit_text: self.plan.unit_text.clone(),
            },
            DeployStage::StopService => DeployAction::StopService {
                name: self.plan.service_name.clone(),
            },
            DeployStage::EnableService => DeployAction::EnableService {
                name: self.plan.service_name.clone(),
            },
            DeployStage::StartService => DeployAction::StartService {
                name: self.plan.service_name.clone(),
            },
            DeployStage::VerifyActive => DeployAction::QueryService {
                name: self.plan.service_name.clone(),
            },
            DeployStage::Done => DeployAction::Wait { seconds: 0 },
            DeployStage::Failed => DeployAction::Wait { seconds: 0 },
        }
    }

    /// Feed the driver's answer for the current stage into the
    /// machine, advancing it one step. An answer that does not belong
    /// to the current stage leaves the machine unchanged.
    pub fn step(&mut self, ev: DeployEvent)
        requires
            old(self).wf(),
            !old(self).finished_spec(),
        ensures
            final(self).wf(),
            final(self).plan == old(self).plan,
            final(self).dry_run == old(self).dry_run,
            // Connection: success moves on, failure retries up to the budget.
            old(self).stage is Connecting && ev is Connected ==> final(self).stage is EnsureDir
                && final(self).retry == old(self).retry
                && final(self).binary_existed == old(self).binary_existed,
            old(self).stage is Connecting && ev is ConnectFailed ==> {
                &&& final(self).retry.attempts_made == old(self).retry.attempts_made + 1
                &&& final(self).binary_existed == old(self).binary_existed
                &&& (old(self).retry.attempts_made + 1 < deploy_connect_attempts()
                    ==> final(self).stage is ConnectBackoff
                        && final(self).retry.total_wait == old(self).retry.total_wait)
                &&& (old(self).retry.attempts_made + 1 == deploy_connect_attempts()
                    ==> final(self).stage is Failed
                        && final(self).retry.total_wait == old(self).retry.total_wait
                        && (final(self).outcome matches Some(Err(DeployError::Connection { host, attempts }))
                            && host@ == old(self).plan.host@ && attempts == deploy_connect_attempts()))
            },
            old(self).stage is ConnectBackoff && ev is Waited ==> final(self).stage is Connecting
                && final(self).retry.attempts_made == old(self).retry.attempts_made
                && final(self).retry.total_wait@ == old(self).retry.total_wait@
                    + pow2((old(self).retry.attempts_made - 1) as nat)
                && final(self).binary_existed == old(self).binary_existed,
            // The straight-line stages.
            old(self).stage is EnsureDir && ev is StepOk ==> final(self).stage is ProbeBinary
                && final(self).binary_existed == old(self).binary_existed,
            old(self).stage is ProbeBinary ==> (ev matches DeployEvent::BinaryPresent { present }
                ==> final(self).binary_existed == present
                    && (present ==> final(self).stage is Backup)
                    && (!present ==> final(self).stage is Upload)),
            old(self).stage is Backup && ev is StepOk ==> final(self).stage is Upload
                && final(self).binary_existed == old(self).binary_existed,
            old(self).stage is Upload && ev is StepOk ==> final(self).stage is Chmod
                && final(self).binary_existed == old(self).binary_existed,
            old(self).stage is Chmod && ev is StepOk ==> final(self).stage is InstallUnit
                && final(self).binary_existed == old(self).binary_existed,
            old(self).stage is InstallUnit && ev is StepOk ==> final(self).stage is StopService
                && final(self).binary_existed == old(self).binary_existed,
            // A stop failure is ignored: the service may simply not run yet.
            old(self).stage is StopService && (ev is StepOk || ev is StepFailed)
                ==> final(self).stage is EnableService
                    && final(self).binary_existed == old(self).binary_existed,
            old(self).stage is EnableService && ev is StepOk ==> final(self).stage is StartService
                && final(self).binary_existed == old(self).binary_existed,
            old(self).stage is StartService && ev is StepOk ==> final(self).stage is VerifyActive
                && final(self).binary_existed == old(self).binary_existed,
            // The queried state decides success.
            old(self).stage is VerifyActive ==> (ev matches DeployEvent::ServiceActive { active } ==> {
                &&& final(self).binary_existed == old(self).binary_existed
                &&& (active ==> final(self).stage is Done
                    && (final(self).outcome matches Some(Ok(m))
                        && m@ == success_message_spec(old(self).plan.binary_name@, old(self).plan.host@)))
                &&& (!active ==> final(self).stage is Failed
                    && (final(self).outcome matches Some(Err(DeployError::ServiceStart { name }))
                        && name@ == old(self).plan.service_name@))
            }),
            // Any other stage failure aborts the run with that error.
            !(old(self).stage is StopService) && !(old(self).stage is Connecting)
                && !(old(self).stage is ConnectBackoff)
                ==> (ev matches DeployEvent::StepFailed { error }
                    ==> final(self).stage is Failed
                        && final(self).outcome == Some(Err::<String, DeployError>(error))),
    {
        match self.stage {
            DeployStage::Connecting => {
                match ev {
                    DeployEvent::Connected => {
                        self.stage = DeployStage::EnsureDir;
                    },
                    DeployEvent::ConnectFailed => {
                        self.retry.on_failure();
                        if self.retry.attempts_made == self.retry.max_attempts {
                            self.stage = DeployStage::Failed;
                            self.outcome = Some(Err(DeployError::Connection {
                                host: self.plan.host.clone(),
                                attempts: self.retry.attempts_made,
                            }));
                        } else {
                            self.stage = DeployStage::ConnectBackoff;
                        }
                    },
                    _ => {},
                }
            },
            DeployStage::ConnectBackoff => {
                match ev {
                    DeployEvent::Waited => {
                        self.retry.on_waited();
                        self.stage = DeployStage::Connecting;
                    },
                    _ => {},
                }
            },
            DeployStage::EnsureDir => {
                match ev {
                    DeployEvent::StepOk => {
                        self.stage = DeployStage::ProbeBinary;
                    },
                    DeployEvent::StepFailed { error } => {
                        self.fail(error);
                    },
                    _ => {},
                }
            },
            DeployStage::ProbeBinary => {
                match ev {
                    DeployEvent::BinaryPresent { present } => {
                        self.binary_existed = present;
                        if present {
                            self.stage = DeployStage::Backup;
                        } else {
                            self.stage = DeployStage::Upload;
                        }
                    },
                    DeployEvent::StepFailed { error } => {
                        self.fail(error);
                    },
                    _ => {},
                }
            },
            DeployStage::Backup => {
                match ev {
                    DeployEvent::StepOk => {
                        self.stage = DeployStage::Upload;
                    },
                    DeployEvent::StepFailed { error } => {
                        self.fail(error);
                    },
                    _ => {},
                }
            },
            DeployStage::Upload => {
                match ev {
                    DeployEvent::StepOk => {
                        self.stage = DeployStage::Chmod;
                    },
                    DeployEvent::StepFailed { error } => {
                        self.fail(error);
                    },
                    _ => {},
                }
            },
            DeployStage::Chmod => {
                match ev {
                    DeployEvent::StepOk => {
                        self.stage = DeployStage::InstallUnit;
                    },
                    DeployEvent::StepFailed { error } => {
                        self.fail(error);
                    },
                    _ => {},
                }
            },
            DeployStage::InstallUnit => {
                match ev {
                    DeployEvent::StepOk => {
                        self.stage = DeployStage::StopService;
                    },
                    DeployEvent::StepFailed { error } => {
                        self.fail(error);
                    },
                    _ => {},
                }
            },
            DeployStage::StopService => {
                match ev {
                    DeployEvent::StepOk => {
                        self.stage = DeployStage::EnableService;
                    },
                    DeployEvent::StepFailed { error: _ } => {
                        self.stage = DeployStage::EnableService;
                    },
                    _ => {},
                }
            },
            DeployStage::EnableService => {
                match ev {
                    DeployEvent::StepOk => {
                        self.stage = DeployStage::StartService;
                    },
                    DeployEvent::StepFailed { error } => {
                        self.fail(error);
                    },
                    _ => {},
                }
            },
            DeployStage::StartService => {
                match ev {
                    DeployEvent::StepOk => {
                        self.stage = DeployStage::VerifyActive;
                    },
                    DeployEvent::StepFailed { error } => {
                        self.fail(error);
                    },
                    _ => {},
                }
            },
            DeployStage::VerifyActive => {
                match ev {
                    DeployEvent::ServiceActive { active } => {
                        if active {
                            let message = String::from_str("Successfully deployed ")
                                .concat(self.plan.binary_name.as_str())
                                .concat(" to ")
                                .concat(self.plan.host.as_str());
                            self.stage = DeployStage::Done;
                            self.outcome = Some(Ok(message));
                        } else {
                            self.stage = DeployStage::Failed;
                            self.outcome = Some(Err(DeployError::ServiceStart {
                                name: self.plan.service_name.clone(),
                            }));
                        }
                    },
                    DeployEvent::StepFailed { error } => {
                        self.fail(error);
                    },
                    _ => {},
                }
            },
            DeployStage::Done => {},
            DeployStage::Failed => {},
        }
    }

    fn fail(&mut self, error: DeployError)
        requires
            old(self).wf(),
            !old(self).finished_spec(),
        ensures
            final(self).wf(),
            final(self).stage is Failed,
            final(self).outcome == Some(Err::<String, DeployError>(error)),
            final(self).plan == old(self).plan,
            final(self).dry_run == old(self).dry_run,
            final(self).retry == old(self).retry,
            final(self).binary_existed == old(self).binary_existed,
    {
        self.stage = DeployStage::Failed;
        self.outcome = Some(Err(error));
    }

    /// The outcome of a finished run.
    pub fn into_result(self) -> (r: Result<String, DeployError>)
        requires
            self.wf(),
            self.finished_spec(),
        ensures
            Some(r) == self.outcome,
    {
        match self.outcome {
            Some(r) => r,
            None => {
                proof {
                    assert(false);
                }
                Err(DeployError::MissingCredentials)
            },
        }
    }
}

/// A measure that every step of the machine strictly decreases while
/// the run is unfinished; drivers use it to bound their loops.
pub open spec fn machine_rank(m: DeployMachine) -> nat {
    match m.stage {
        DeployStage::Connecting => (200 - 2 * m.retry.attempts_made) as nat,
        DeployStage::ConnectBackoff => (201 - 2 * m.retry.attempts_made) as nat,
        DeployStage::EnsureDir => 20,
        DeployStage::ProbeBinary => 19,
        DeployStage::Backup => 18,
        DeployStage::Upload => 17,
        DeployStage::Chmod => 16,
        DeployStage::InstallUnit => 15,
        DeployStage::StopService => 14,
        DeployStage::EnableService => 13,
        DeployStage::StartService => 12,
        DeployStage::VerifyActive => 11,
        DeployStage::Done => 0,
        DeployStage::Failed => 0,
    }
}

/// Status of the deployed service as observed from the remote host.
#[derive(Debug, Clone)]
pub struct DeploymentStatus {
    /// Whether the service state query answered exactly `active`.
    pub service_active: bool,
    /// The unit file's modification time, displayed, when it could be read.
    pub last_deployment: Option<String>,
    /// A short size-and-date description of the live binary, when it
    /// could be read.
    pub version: Option<String>,
}

/// Assemble the deployment status from the answers of the three
/// status commands: the service state query, `stat -c %Y` on the unit
/// file, and `ls -lh` on the live binary.
pub fn deployment_status_from(
    service_result: &Result<(String, String), DeployError>,
    stat_result: &Result<(String, String), DeployError>,
    ls_result: &Result<(String, String), DeployError>,
) -> (r: DeploymentStatus)
    ensures
        r.service_active == (service_result matches Ok(o) && trimmed(o.0@) == "active"@),
        stat_result is Err ==> r.last_deployment is None,
        stat_result matches Ok(o) ==> {
            &&& parse_i64_spec(trimmed(o.0@)) is None ==> r.last_deployment is None
            &&& (parse_i64_spec(trimmed(o.0@)) matches Some(ts) ==> (r.last_deployment matches Some(d)
                && (d@ == utc_display_of(ts as int) || d@ == "Unknown"@)))
        },
        ls_result is Err ==> r.version is None,
        ls_result matches Ok(o) ==> {
            &&& ws_tokens(o.0@).len() >= 6 ==> (r.version matches Some(v)
                && v@ == "Size: "@ + ws_tokens(o.0@)[4] + ", Modified: "@ + ws_tokens(o.0@)[5])
            &&& ws_tokens(o.0@).len() < 6 ==> (r.version matches Some(v)
                && v@ == "Version info unavailable"@)
        },
{
    let service_active = match service_result {
        Ok((stdout, _)) => crate::remote::service_is_active(stdout.as_str()),
        Err(_) => false,
    };
    let last_deployment: Option<String> = match stat_result {
        Ok((stdout, _)) => {
            let t = trim_str(stdout.as_str());
            match parse_i64(t.as_str()) {
                Some(ts) => match format_timestamp(ts) {
                    Some(d) => Some(d),
                    None => Some(String::from_str("Unknown")),
                },
                None => None,
            }
        },
        Err(_) => None,
    };
    let version: Option<String> = match ls_result {
        Ok((stdout, _)) => {
            let parts = split_ws(stdout.as_str());
            if parts.len() >= 6 {
                let v = String::from_str("Size: ")
                    .concat(parts[4].as_str())
                    .concat(", Modified: ")
                    .concat(parts[5].as_str());
                proof {
                    assert(crate::strutil::views_of(parts@)[4] == parts@[4]@);
                    assert(crate::strutil::views_of(parts@)[5] == parts@[5]@);
                }
                Some(v)
            } else {
                Some(String::from_str("Version info unavailable"))
            }
        },
        Err(_) => None,
    };
    DeploymentStatus { service_active, last_deployment, version }
}

} // verus!
