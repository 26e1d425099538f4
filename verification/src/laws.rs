//! The backup and rollback guarantees of the pipeline, stated over
//! the host model that `run_deploy` and `run_rollback` are proved
//! against.

use vstd::prelude::*;

use crate::host::{deploy_model, deploy_succeeds, rollback_model, HostView};

verus! {

/// Deploying over an existing binary fills the backup slot with
/// exactly the bytes that were live before the deploy, and makes the
/// new binary live.
pub proof fn lemma_deploy_backs_up_prior_binary(h: HostView, bin: Seq<u8>, unit: Seq<char>)
    requires
        h.binary is Some,
    ensures
        deploy_model(h, bin, unit).backup == h.binary,
        deploy_model(h, bin, unit).binary == Some(bin),
{
}

/// Deploying to a fresh host creates no backup, installs the unit,
/// and - when the deploy succeeds - leaves the service running.
pub proof fn lemma_fresh_deploy_creates_no_backup(h: HostView, bin: Seq<u8>, unit: Seq<char>)
    requires
        h.binary is None,
        h.backup is None,
    ensures
        deploy_model(h, bin, unit).backup is None,
        deploy_model(h, bin, unit).binary == Some(bin),
        deploy_model(h, bin, unit).unit == Some(unit),
        deploy_succeeds(h) ==> deploy_model(h, bin, unit).service_active,
{
}

/// After two deploys in a row, the backup slot holds the first
/// deploy's binary, and a rollback then restores exactly those bytes.
pub proof fn lemma_second_deploy_backs_up_first(h: HostView, first: Seq<u8>, second: Seq<u8>, unit: Seq<char>)
    ensures
        deploy_model(deploy_model(h, first, unit), second, unit).backup == Some(first),
        rollback_model(deploy_model(deploy_model(h, first, unit), second, unit)).binary == Some(first),
{
}

/// A rollback with a filled backup slot makes the backup's bytes
/// live, and keeps the slot: it can be rolled back to again.
pub proof fn lemma_rollback_restores_backup(h: HostView)
    requires
        h.backup is Some,
    ensures
        rollback_model(h).binary == h.backup,
        rollback_model(h).backup == h.backup,
{
}

/// A rollback with an empty backup slot changes no file: it only
/// leaves the service stopped.
pub proof fn lemma_rollback_without_backup_changes_no_file(h: HostView)
    requires
        h.backup is None,
    ensures
        rollback_model(h).binary == h.binary,
        rollback_model(h).backup == h.backup,
        rollback_model(h).unit == h.unit,
        !rollback_model(h).service_active,
{
}

} // verus!
