//! Drivers that run the pipeline machines to completion against the
//! executable host model, proving the end-to-end behaviour of a whole
//! deployment or rollback run.

use vstd::prelude::*;

use crate::deploy::{
    deploy_connect_attempts, dry_run_message_spec, machine_rank, success_message_spec,
    DeployMachine, DeployStage, DeploymentPlan,
};
use crate::errors::DeployError;
use crate::host::{deploy_model, deploy_succeeds, HostView, RemoteHost};

verus! {

/// Run a whole deployment against `host`, uploading `local_binary`.
///
/// A dry run succeeds without touching the host at all. Against an
/// unreachable host the run fails with a connection error after
/// exactly three attempts, leaving the host untouched. Against a
/// reachable host the run transforms the host exactly as
/// `deploy_model` says - in particular, an existing binary fills the
/// backup slot before being overwritten - and succeeds precisely when
/// the started service comes up `active`.
pub fn run_deploy(plan: DeploymentPlan, dry_run: bool, local_binary: &Vec<u8>, host: &mut RemoteHost) -> (r: Result<String, DeployError>)
    requires
        plan.wf(),
    ensures
        dry_run ==> *final(host) == *old(host) && (r matches Ok(m)
            && m@ == dry_run_message_spec(plan.binary_name@, plan.host@)),
        !dry_run && !old(host)@.reachable ==> *final(host) == *old(host)
            && (r matches Err(DeployError::Connection { host: eh, attempts })
                && eh@ == plan.host@ && attempts == deploy_connect_attempts()),
        !dry_run && old(host)@.reachable ==> {
            &&& final(host)@ == deploy_model(old(host)@, local_binary@, plan.unit_text@)
            &&& (r is Ok <==> deploy_succeeds(old(host)@))
            &&& (r matches Ok(m) ==> m@ == success_message_spec(plan.binary_name@, plan.host@))
            &&& (!old(host)@.service_viable ==> (r matches Err(DeployError::ServiceStart { name })
                && name@ == plan.service_name@))
        },
{
    let ghost h0: RemoteHost = *host;
    let mut m = DeployMachine::new(plan, dry_run);
    while !m.finished()
        invariant
            m.wf(),
            m.plan == plan,
            m.dry_run == dry_run,
            host.reachable == h0.reachable,
            dry_run ==> *host == h0 && m.stage is Done && (m.outcome matches Some(Ok(msg))
                && msg@ == dry_run_message_spec(plan.binary_name@, plan.host@)),
            !dry_run && !h0@.reachable ==> *host == h0
                && (m.stage is Connecting || m.stage is ConnectBackoff || m.stage is Failed)
                && (m.stage is Failed ==> (m.outcome matches Some(Err(DeployError::Connection {
                    host: eh,
                    attempts,
                })) && eh@ == plan.host@ && attempts == deploy_connect_attempts())),
            !dry_run && h0@.reachable ==> {
                &&& (m.stage is Connecting || m.stage is ConnectBackoff || m.stage is EnsureDir)
                    ==> *host == h0
                &&& m.stage is ProbeBinary ==> host@ == (HostView { dir_exists: true, ..h0@ })
                &&& m.stage is Backup ==> host@ == (HostView { dir_exists: true, ..h0@ })
                    && h0@.binary is Some
                &&& m.stage is Upload ==> host@ == (HostView {
                    dir_exists: true,
                    backup: if h0@.binary is Some { h0@.binary } else { h0@.backup },
                    ..h0@
                })
                &&& (m.stage is Chmod || m.stage is InstallUnit) ==> host@ == (HostView {
                    dir_exists: true,
                    binary: Some(local_binary@),
                    backup: if h0@.binary is Some { h0@.binary } else { h0@.backup },
                    ..h0@
                })
                &&& m.stage is StopService ==> host@ == (HostView {
                    dir_exists: true,
                    binary: Some(local_binary@),
                    backup: if h0@.binary is Some { h0@.binary } else { h0@.backup },
                    unit: Some(plan.unit_text@),
                    ..h0@
                })
                &&& (m.stage is EnableService || m.stage is StartService) ==> host@ == (HostView {
                    dir_exists: true,
                    binary: Some(local_binary@),
                    backup: if h0@.binary is Some { h0@.binary } else { h0@.backup },
                    unit: Some(plan.unit_text@),
                    service_active: false,
                    ..h0@
                })
                &&& m.stage is VerifyActive ==> host@ == deploy_model(h0@, local_binary@, plan.unit_text@)
                &&& m.stage is Done ==> host@ == deploy_model(h0@, local_binary@, plan.unit_text@)
                    && h0@.service_viable
                    && (m.outcome matches Some(Ok(msg))
                        && msg@ == success_message_spec(plan.binary_name@, plan.host@))
                &&& m.stage is Failed ==> host@ == deploy_model(h0@, local_binary@, plan.unit_text@)
                    && !h0@.service_viable
                    && (m.outcome matches Some(Err(DeployError::ServiceStart { name }))
                        && name@ == plan.service_name@)
            },
        decreases machine_rank(m),
    {
        let a = m.next_action();
        let ev = host.perform(&a, local_binary);
        m.step(ev);
    }
    m.into_result()
}

} // verus!
