//! A model of the remote host: the two binary files, the unit file,
//! the directory, and the service state.
//!
//! `HostView` is the mathematical state that the deployment and
//! rollback contracts speak of; `deploy_model` and `rollback_model`
//! say how an operation transforms it. `RemoteHost` is an executable
//! host with that view: the drivers run against it, so every
//! end-to-end property of the pipeline is proved against these
//! semantics and can also be exercised by tests.

use vstd::prelude::*;
use vstd::string::*;

use crate::deploy::{DeployAction, DeployEvent};
use crate::errors::DeployError;
use crate::remote::copy_command;

verus! {

/// The observable state of one deployment target on a host.
#[verifier::ext_equal]
pub struct HostView {
    /// Whether connection attempts reach the host.
    pub reachable: bool,
    /// Whether the deploy directory exists.
    pub dir_exists: bool,
    /// The bytes of the live binary, when one is deployed.
    pub binary: Option<Seq<u8>>,
    /// The bytes of the backup slot, when one exists.
    pub backup: Option<Seq<u8>>,
    /// The installed unit text, when one is installed.
    pub unit: Option<Seq<char>>,
    /// Whether the service is currently running.
    pub service_active: bool,
    /// Whether a started service comes up and stays `active`.
    pub service_viable: bool,
}

/// Whether a deployment against `h` succeeds: the host must be
/// reachable and the started service must come up `active`.
pub open spec fn deploy_succeeds(h: HostView) -> bool {
    h.reachable && h.service_viable
}

/// The host after a completed deployment run of the binary `bin` with
/// unit text `unit` against a reachable host: the directory exists,
/// the new binary is live, the prior binary (when there was one)
/// fills the backup slot, the unit is installed, and the service runs
/// exactly when it is viable.
pub open spec fn deploy_model(h: HostView, bin: Seq<u8>, unit: Seq<char>) -> HostView {
    HostView {
        dir_exists: true,
        binary: Some(bin),
        backup: if h.binary is Some {
            h.binary
        } else {
            h.backup
        },
        unit: Some(unit),
        service_active: h.service_viable,
        ..h
    }
}

/// Whether a rollback against `h` succeeds: the host must be
/// reachable, the backup slot filled, and the restarted service must
/// come up `active`.
pub open spec fn rollback_succeeds(h: HostView) -> bool {
    h.reachable && h.backup is Some && h.service_viable
}

/// The host after a rollback run against a reachable host. The
/// service is stopped first, so a rollback that finds no backup
/// leaves the service stopped; one that finds a backup copies it over
/// the live binary (the slot itself is kept) and restarts the
/// service.
pub open spec fn rollback_model(h: HostView) -> HostView {
    if h.backup is None {
        HostView { service_active: false, ..h }
    } else {
        HostView { binary: h.backup, service_active: h.service_viable, ..h }
    }
}

/// An executable host model with `HostView` as its view.
pub struct RemoteHost {
    pub reachable: bool,
    pub dir_exists: bool,
    pub binary: Option<Vec<u8>>,
    pub backup: Option<Vec<u8>>,
    pub unit: Option<String>,
    pub service_active: bool,
    pub service_viable: bool,
}

impl View for RemoteHost {
    type V = HostView;

    open spec fn view(&self) -> HostView {
        HostView {
            reachable: self.reachable,
            dir_exists: self.dir_exists,
            binary: match self.binary {
                Some(b) => Some(b@),
                None => None,
            },
            backup: match self.backup {
                Some(b) => Some(b@),
                None => None,
            },
            unit: match self.unit {
                Some(u) => Some(u@),
                None => None,
            },
            service_active: self.service_active,
            service_viable: self.service_viable,
        }
    }
}

impl RemoteHost {
    /// A host with nothing deployed yet.
    pub fn fresh(reachable: bool, service_viable: bool) -> (r: RemoteHost)
        ensures
            r@ == (HostView {
                reachable,
                dir_exists: false,
                binary: None,
                backup: None,
                unit: None,
                service_active: false,
                service_viable,
            }),
    {
        RemoteHost {
            reachable,
            dir_exists: false,
            binary: None,
            backup: None,
            unit: None,
            service_active: false,
            service_viable,
        }
    }
}

impl RemoteHost {
    /// Perform one action against this host, answering and changing
    /// state as the modelled host does: probes answer what is there,
    /// copies fail when the source file is missing, an upload needs
    /// the directory, and a started service runs exactly when it is
    /// viable.
    pub fn perform(&mut self, action: &DeployAction, upload_bytes: &Vec<u8>) -> (ev: DeployEvent)
        requires
            action is Connect || action is Wait || old(self).reachable,
        ensures
            action is Connect ==> *final(self) == *old(self)
                && (old(self).reachable ==> ev is Connected)
                && (!old(self).reachable ==> ev is ConnectFailed),
            action is Wait ==> *final(self) == *old(self) && ev is Waited,
            action is EnsureDir ==> final(self)@ == (HostView { dir_exists: true, ..old(self)@ })
                && ev is StepOk,
            action is ProbeLiveBinary ==> *final(self) == *old(self)
                && (ev matches DeployEvent::BinaryPresent { present }
                    && present == (old(self)@.binary is Some)),
            action is ProbeBackup ==> *final(self) == *old(self)
                && (ev matches DeployEvent::BinaryPresent { present }
                    && present == (old(self)@.backup is Some)),
            action is BackupBinary ==> {
                &&& old(self)@.binary is Some ==> final(self)@ == (HostView {
                    backup: old(self)@.binary,
                    ..old(self)@
                }) && ev is StepOk
                &&& old(self)@.binary is None ==> *final(self) == *old(self) && ev is StepFailed
            },
            action is RestoreBackup ==> {
                &&& old(self)@.backup is Some ==> final(self)@ == (HostView {
                    binary: old(self)@.backup,
                    ..old(self)@
                }) && ev is StepOk
                &&& old(self)@.backup is None ==> *final(self) == *old(self) && ev is StepFailed
            },
            action is UploadBinary ==> {
                &&& old(self)@.dir_exists ==> final(self)@ == (HostView {
                    binary: Some(upload_bytes@),
                    ..old(self)@
                }) && ev is StepOk
                &&& !old(self)@.dir_exists ==> *final(self) == *old(self) && ev is StepFailed
            },
            action is MakeExecutable ==> *final(self) == *old(self)
                && (old(self)@.binary is Some ==> ev is StepOk)
                && (old(self)@.binary is None ==> ev is StepFailed),
            action matches DeployAction::InstallUnit { service_name: _, unit_text } ==> final(self)@
                == (HostView { unit: Some(unit_text@), ..old(self)@ }) && ev is StepOk,
            action is StopService ==> final(self)@ == (HostView {
                service_active: false,
                ..old(self)@
            }) && ev is StepOk,
            action is EnableService ==> *final(self) == *old(self) && ev is StepOk,
            action is StartService ==> final(self)@ == (HostView {
                service_active: old(self)@.service_viable,
                ..old(self)@
            }) && ev is StepOk,
            action is QueryService ==> *final(self) == *old(self)
                && (ev matches DeployEvent::ServiceActive { active }
                    && active == old(self)@.service_active),
    {
        match action {
            DeployAction::Connect { attempt: _ } => {
                if self.reachable {
                    DeployEvent::Connected
                } else {
                    DeployEvent::ConnectFailed
                }
            },
            DeployAction::Wait { seconds: _ } => DeployEvent::Waited,
            DeployAction::EnsureDir { path: _ } => {
                self.dir_exists = true;
                DeployEvent::StepOk
            },
            DeployAction::ProbeLiveBinary { path: _ } => DeployEvent::BinaryPresent {
                present: self.binary.is_some(),
            },
            DeployAction::ProbeBackup { path: _ } => DeployEvent::BinaryPresent {
                present: self.backup.is_some(),
            },
            DeployAction::BackupBinary { from, to } => {
                let copy: Option<Vec<u8>> = match &self.binary {
                    Some(b) => Some(clone_bytes(b)),
                    None => None,
                };
                match copy {
                    Some(c) => {
                        self.backup = Some(c);
                        DeployEvent::StepOk
                    },
                    None => DeployEvent::StepFailed {
                        error: DeployError::Command {
                            exit_code: 1,
                            command: copy_command(from.as_str(), to.as_str()),
                            stderr: String::from_str("cp: cannot stat: no such file"),
                        },
                    },
                }
            },
            DeployAction::RestoreBackup { from, to } => {
                let copy: Option<Vec<u8>> = match &self.backup {
                    Some(b) => Some(clone_bytes(b)),
                    None => None,
                };
                match copy {
                    Some(c) => {
                        self.binary = Some(c);
                        DeployEvent::StepOk
                    },
                    None => DeployEvent::StepFailed {
                        error: DeployError::Command {
                            exit_code: 1,
                            command: copy_command(from.as_str(), to.as_str()),
                            stderr: String::from_str("cp: cannot stat: no such file"),
                        },
                    },
                }
            },
            DeployAction::UploadBinary { remote_path } => {
                if self.dir_exists {
                    self.binary = Some(clone_bytes(upload_bytes));
                    DeployEvent::StepOk
                } else {
                    DeployEvent::StepFailed {
                        error: DeployError::Transfer {
                            detail: String::from_str("no such directory: ").concat(
                                remote_path.as_str(),
                            ),
                        },
                    }
                }
            },
            DeployAction::MakeExecutable { path } => {
                if self.binary.is_some() {
                    DeployEvent::StepOk
                } else {
                    DeployEvent::StepFailed {
                        error: DeployError::Command {
                            exit_code: 1,
                            command: crate::remote::chmod_command(path.as_str()),
                            stderr: String::from_str("chmod: cannot access: no such file"),
                        },
                    }
                }
            },
            DeployAction::InstallUnit { service_name: _, unit_text } => {
                self.unit = Some(unit_text.clone());
                DeployEvent::StepOk
            },
            DeployAction::StopService { name: _ } => {
                self.service_active = false;
                DeployEvent::StepOk
            },
            DeployAction::EnableService { name: _ } => DeployEvent::StepOk,
            DeployAction::StartService { name: _ } => {
                self.service_active = self.service_viable;
                DeployEvent::StepOk
            },
            DeployAction::QueryService { name: _ } => DeployEvent::ServiceActive {
                active: self.service_active,
            },
        }
    }
}

/// An owned copy of the byte vector `v`.
pub fn clone_bytes(v: &Vec<u8>) -> (r: Vec<u8>)
    ensures
        r@ == v@,
{
    let mut r: Vec<u8> = Vec::new();
    let mut i: usize = 0;
    while i < v.len()
        invariant
            0 <= i <= v.len(),
            r@ =~= v@.take(i as int),
        decreases v.len() - i,
    {
        r.push(v[i]);
        i = i + 1;
    }
    proof {
        assert(v@.take(v.len() as int) =~= v@);
    }
    r
}

} // verus!
