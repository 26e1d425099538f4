//! Rollback: restore the backup slot over the live binary and
//! restart the service.
//!
//! Rollback reuses the deployment's action vocabulary and connection
//! retry, stops the running service best-effort, and fails fast with
//! a distinct error when there is nothing to roll back to. It never
//! reinstalls the unit file: the unit is assumed unchanged since the
//! prior deploy.

use vstd::prelude::*;

use crate::deploy::{deploy_connect_attempts, DeployAction, DeployEvent, DeploymentPlan};
use crate::errors::DeployError;
use crate::host::{rollback_model, rollback_succeeds, HostView, RemoteHost};
use crate::session::{backoff_delay_secs, RetryState};
use vstd::arithmetic::power2::pow2;

verus! {

/// Where the rollback run stands.
#[derive(Debug, Clone, Copy, PartialEq, Eq, Structural)]
pub enum RollbackStage {
    Connecting,
    ConnectBackoff,
    StopService,
    ProbeBackup,
    Restore,
    Chmod,
    StartService,
    VerifyActive,
    Done,
    Failed,
}

/// The stage machine of one rollback run.
pub struct RollbackMachine {
    pub plan: DeploymentPlan,
    pub stage: RollbackStage,
    pub retry: RetryState,
    pub outcome: Option<Result<(), DeployError>>,
}

/// A measure that every step strictly decreases while the run is
/// unfinished.
pub open spec fn rollback_rank(m: RollbackMachine) -> nat {
    match m.stage {
        RollbackStage::Connecting => (200 - 2 * m.retry.attempts_made) as nat,
        RollbackStage::ConnectBackoff => (201 - 2 * m.retry.attempts_made) as nat,
        RollbackStage::StopService => 16,
        RollbackStage::ProbeBackup => 15,
        RollbackStage::Restore => 14,
        RollbackStage::Chmod => 13,
        RollbackStage::StartService => 12,
        RollbackStage::VerifyActive => 11,
        RollbackStage::Done => 0,
        RollbackStage::Failed => 0,
    }
}

impl RollbackMachine {
    /// The machine's invariant.
    pub open spec fn wf(&self) -> bool {
        &&& self.plan.wf()
        &&& self.retry.wf()
        &&& self.retry.max_attempts == deploy_connect_attempts()
        &&& (self.stage is Connecting ==> self.retry.phase is Ready)
        &&& (self.stage is ConnectBackoff ==> self.retry.phase is Backoff)
        &&& (self.stage is Done ==> self.outcome matches Some(Ok(_)))
        &&& (self.stage is Failed ==> self.outcome matches Some(Err(_)))
        &&& (!(self.stage is Done || self.stage is Failed) ==> self.outcome is None)
    }

    /// Whether the run is over.
    pub open spec fn finished_spec(&self) -> bool {
        self.stage is Done || self.stage is Failed
    }

    /// Start a rollback run; it begins by connecting.
    pub fn new(plan: DeploymentPlan) -> (r: RollbackMachine)
        requires
            plan.wf(),
        ensures
            r.wf(),
            r.plan == plan,
            r.stage is Connecting,
            r.outcome is None,
            r.retry.attempts_made == 0,
    {
        RollbackMachine {
            plan,
            stage: RollbackStage::Connecting,
            retry: RetryState::new(3),
            outcome: None,
        }
    }

    /// Whether the run is over.
    pub fn finished(&self) -> (r: bool)
        ensures
            r == self.finished_spec(),
    {
        match self.stage {
            RollbackStage::Done => true,
            RollbackStage::Failed => true,
            _ => false,
        }
    }

    /// The action the driver should perform now.
    pub fn next_action(&self) -> (a: DeployAction)
        requires
            self.wf(),
            !self.finished_spec(),
        ensures
            self.stage is Connecting ==> (a matches DeployAction::Connect { attempt }
                && attempt == self.retry.attempts_made + 1),
            self.stage is ConnectBackoff ==> (a matches DeployAction::Wait { seconds }
                && seconds as nat == pow2((self.retry.attempts_made - 1) as nat)),
            self.stage is StopService ==> (a matches DeployAction::StopService { name }
                && name@ == self.plan.service_name@),
            self.stage is ProbeBackup ==> (a matches DeployAction::ProbeBackup { path }
                && path@ == self.plan.backup_path@),
            self.stage is Restore ==> (a matches DeployAction::RestoreBackup { from, to }
                && from@ == self.plan.backup_path@ && to@ == self.plan.remote_binary_path@),
            self.stage is Chmod ==> (a matches DeployAction::MakeExecutable { path }
                && path@ == self.plan.remote_binary_path@),
            self.stage is StartService ==> (a matches DeployAction::StartService { name }
                && name@ == self.plan.service_name@),
            self.stage is VerifyActive ==> (a matches DeployAction::QueryService { name }
                && name@ == self.plan.service_name@),
    {
        match self.stage {
            RollbackStage::Connecting => DeployAction::Connect {
                attempt: self.retry.attempts_made + 1,
            },
            RollbackStage::ConnectBackoff => DeployAction::Wait {
                seconds: backoff_delay_secs(self.retry.attempts_made),
            },
            RollbackStage::StopService => DeployAction::StopService {
                name: self.plan.service_name.clone(),
            },
            RollbackStage::ProbeBackup => DeployAction::ProbeBackup {
                path: self.plan.backup_path.clone(),
            },
            RollbackStage::Restore => DeployAction::RestoreBackup {
                from: self.plan.backup_path.clone(),
                to: self.plan.remote_binary_path.clone(),
            },
            RollbackStage::Chmod => DeployAction::MakeExecutable {
                path: self.plan.remote_binary_path.clone(),
            },
            RollbackStage::StartService => DeployAction::StartService {
                name: self.plan.service_name.clone(),
            },
            RollbackStage::VerifyActive => DeployAction::QueryService {
                name: self.plan.service_name.clone(),
            },
            RollbackStage::Done => DeployAction::Wait { seconds: 0 },
            RollbackStage::Failed => DeployAction::Wait { seconds: 0 },
        }
    }

    /// Feed the driver's answer for the current stage into the
    /// machine, advancing it one step.
    pub fn step(&mut self, ev: DeployEvent)
        requires
            old(self).wf(),
            !old(self).finished_spec(),
        ensures
            final(self).wf(),
            final(self).plan == old(self).plan,
            old(self).stage is Connecting && ev is Connected ==> final(self).stage is StopService
                && final(self).retry == old(self).retry,
            old(self).stage is Connecting && ev is ConnectFailed ==> {
                &&& final(self).retry.attempts_made == old(self).retry.attempts_made + 1
                &&& (old(self).retry.attempts_made + 1 < deploy_connect_attempts()
                    ==> final(self).stage is ConnectBackoff)
                &&& (old(self).retry.attempts_made + 1 == deploy_connect_attempts()
                    ==> final(self).stage is Failed
                        && (final(self).outcome matches Some(Err(DeployError::Connection { host, attempts }))
                            && host@ == old(self).plan.host@ && attempts == deploy_connect_attempts()))
            },
            old(self).stage is ConnectBackoff && ev is Waited ==> final(self).stage is Connecting
                && final(self).retry.attempts_made == old(self).retry.attempts_made,
            // A stop failure is ignored: the service may not be running.
            old(self).stage is StopService && (ev is StepOk || ev is StepFailed)
                ==> final(self).stage is ProbeBackup,
            // No backup: fail fast with the distinct rollback error.
            old(self).stage is ProbeBackup ==> (ev matches DeployEvent::BinaryPresent { present } ==> {
                &&& present ==> final(self).stage is Restore
                &&& !present ==> final(self).stage is Failed
                    && (final(self).outcome matches Some(Err(DeployError::RollbackUnavailable { backup_path }))
                        && backup_path@ == old(self).plan.backup_path@)
            }),
            old(self).stage is Restore && ev is StepOk ==> final(self).stage is Chmod,
            old(self).stage is Chmod && ev is StepOk ==> final(self).stage is StartService,
            old(self).stage is StartService && ev is StepOk ==> final(self).stage is VerifyActive,
            old(self).stage is VerifyActive ==> (ev matches DeployEvent::ServiceActive { active } ==> {
                &&& active ==> final(self).stage is Done
                    && final(self).outcome == Some(Ok::<(), DeployError>(()))
                &&& !active ==> final(self).stage is Failed
                    && (final(self).outcome matches Some(Err(DeployError::ServiceStart { name }))
                        && name@ == old(self).plan.service_name@)
            }),
            !(old(self).stage is StopService) && !(old(self).stage is Connecting)
                && !(old(self).stage is ConnectBackoff)
                ==> (ev matches DeployEvent::StepFailed { error }
                    ==> final(self).stage is Failed
                        && final(self).outcome == Some(Err::<(), DeployError>(error))),
    {
        match self.stage {
            RollbackStage::Connecting => {
                match ev {
                    DeployEvent::Connected => {
                        self.stage = RollbackStage::StopService;
                    },
                    DeployEvent::ConnectFailed => {
                        self.retry.on_failure();
                        if self.retry.attempts_made == self.retry.max_attempts {
                            self.stage = RollbackStage::Failed;
                            self.outcome = Some(Err(DeployError::Connection {
                                host: self.plan.host.clone(),
                                attempts: self.retry.attempts_made,
                            }));
                        } else {
                            self.stage = RollbackStage::ConnectBackoff;
                        }
                    },
                    _ => {},
                }
            },
            RollbackStage::ConnectBackoff => {
                match ev {
                    DeployEvent::Waited => {
                        self.retry.on_waited();
                        self.stage = RollbackStage::Connecting;
                    },
                    _ => {},
                }
            },
            RollbackStage::StopService => {
                match ev {
                    DeployEvent::StepOk => {
                        self.stage = RollbackStage::ProbeBackup;
                    },
                    DeployEvent::StepFailed { error: _ } => {
                        self.stage = RollbackStage::ProbeBackup;
                    },
                    _ => {},
                }
            },
            RollbackStage::ProbeBackup => {
                match ev {
                    DeployEvent::BinaryPresent { present } => {
                        if present {
                            self.stage = RollbackStage::Restore;
                        } else {
                            self.stage = RollbackStage::Failed;
                            self.outcome = Some(Err(DeployError::RollbackUnavailable {
                                backup_path: self.plan.backup_path.clone(),
                            }));
                        }
                    },
                    DeployEvent::StepFailed { error } => {
                        self.stage = RollbackStage::Failed;
                        self.outcome = Some(Err(error));
                    },
                    _ => {},
                }
            },
            RollbackStage::Restore => {
                match ev {
                    DeployEvent::StepOk => {
                        self.stage = RollbackStage::Chmod;
                    },
                    DeployEvent::StepFailed { error } => {
                        self.stage = RollbackStage::Failed;
                        self.outcome = Some(Err(error));
                    },
                    _ => {},
                }
            },
            RollbackStage::Chmod => {
                match ev {
                    DeployEvent::StepOk => {
                        self.stage = RollbackStage::StartService;
                    },
                    DeployEvent::StepFailed { error } => {
                        self.stage = RollbackStage::Failed;
                        self.outcome = Some(Err(error));
                    },
                    _ => {},
                }
            },
            RollbackStage::StartService => {
                match ev {
                    DeployEvent::StepOk => {
                        self.stage = RollbackStage::VerifyActive;
                    },
                    DeployEvent::StepFailed { error } => {
                        self.stage = RollbackStage::Failed;
                        self.outcome = Some(Err(error));
                    },
                    _ => {},
                }
            },
            RollbackStage::VerifyActive => {
                match ev {
                    DeployEvent::ServiceActive { active } => {
                        if active {
                            self.stage = RollbackStage::Done;
                            self.outcome = Some(Ok(()));
                        } else {
                            self.stage = RollbackStage::Failed;
                            self.outcome = Some(Err(DeployError::ServiceStart {
                                name: self.plan.service_name.clone(),
                            }));
                        }
                    },
                    DeployEvent::StepFailed { error } => {
                        self.stage = RollbackStage::Failed;
                        self.outcome = Some(Err(error));
                    },
                    _ => {},
                }
            },
            RollbackStage::Done => {},
            RollbackStage::Failed => {},
        }
    }

    /// The outcome of a finished run.
    pub fn into_result(self) -> (r: Result<(), DeployError>)
        requires
            self.wf(),
            self.finished_spec(),
        ensures
            Some(r) == self.outcome,
    {
        match self.outcome {
            Some(r) => r,
            None => {
                proof {
                    assert(false);
                }
                Err(DeployError::MissingCredentials)
            },
        }
    }
}

/// Run a whole rollback against `host`.
///
/// Against an unreachable host the run fails with a connection error
/// after exactly three attempts, leaving the host untouched. Against
/// a reachable host the run transforms the host exactly as
/// `rollback_model` says: with no backup it fails with
/// `RollbackUnavailable` having only stopped the service; with a
/// backup it copies the backup over the live binary - the slot itself
/// is kept - and succeeds precisely when the restarted service comes
/// up `active`.
pub fn run_rollback(plan: DeploymentPlan, host: &mut RemoteHost) -> (r: Result<(), DeployError>)
    requires
        plan.wf(),
    ensures
        !old(host)@.reachable ==> *final(host) == *old(host)
            && (r matches Err(DeployError::Connection { host: eh, attempts })
                && eh@ == plan.host@ && attempts == deploy_connect_attempts()),
        old(host)@.reachable ==> {
            &&& final(host)@ == rollback_model(old(host)@)
            &&& (r is Ok <==> rollback_succeeds(old(host)@))
            &&& (old(host)@.backup is None ==> (r matches Err(DeployError::RollbackUnavailable {
                backup_path,
            }) && backup_path@ == plan.backup_path@))
            &&& (old(host)@.backup is Some && !old(host)@.service_viable ==> (r matches Err(
                DeployError::ServiceStart { name },
            ) && name@ == plan.service_name@))
        },
{
    let ghost h0: RemoteHost = *host;
    let dummy: Vec<u8> = Vec::new();
    let mut m = RollbackMachine::new(plan);
    while !m.finished()
        invariant
            m.wf(),
            m.plan == plan,
            host.reachable == h0.reachable,
            !h0@.reachable ==> *host == h0
                && (m.stage is Connecting || m.stage is ConnectBackoff || m.stage is Failed)
                && (m.stage is Failed ==> (m.outcome matches Some(Err(DeployError::Connection {
                    host: eh,
                    attempts,
                })) && eh@ == plan.host@ && attempts == deploy_connect_attempts())),
            h0@.reachable ==> {
                &&& (m.stage is Connecting || m.stage is ConnectBackoff || m.stage is StopService)
                    ==> *host == h0
                &&& m.stage is ProbeBackup ==> host@ == (HostView { service_active: false, ..h0@ })
                &&& m.stage is Restore ==> host@ == (HostView { service_active: false, ..h0@ })
                    && h0@.backup is Some
                &&& (m.stage is Chmod || m.stage is StartService) ==> host@ == (HostView {
                    binary: h0@.backup,
                    service_active: false,
                    ..h0@
                }) && h0@.backup is Some
                &&& m.stage is VerifyActive ==> host@ == (HostView {
                    binary: h0@.backup,
                    service_active: h0@.service_viable,
                    ..h0@
                }) && h0@.backup is Some
                &&& m.stage is Done ==> host@ == rollback_model(h0@) && h0@.backup is Some
                    && h0@.service_viable && m.outcome == Some(Ok::<(), DeployError>(()))
                &&& m.stage is Failed ==> host@ == rollback_model(h0@)
                    && (h0@.backup is None ==> (m.outcome matches Some(Err(
                        DeployError::RollbackUnavailable { backup_path },
                    )) && backup_path@ == plan.backup_path@))
                    && (h0@.backup is Some ==> !h0@.service_viable
                        && (m.outcome matches Some(Err(DeployError::ServiceStart { name }))
                            && name@ == plan.service_name@))
            },
        decreases rollback_rank(m),
    {
        let a = m.next_action();
        let ev = host.perform(&a, &dummy);
        m.step(ev);
    }
    m.into_result()
}

} // verus!
