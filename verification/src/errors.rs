//! The error taxonomy of the deployment core: every failure a
//! pipeline stage can surface, with enough context to diagnose it
//! without re-running.

use vstd::prelude::*;
use vstd::string::*;

use crate::strutil::dec_rep;
use crate::strutil::u64_to_dec;

verus! {

/// Why a deployment, rollback or remote operation failed.
#[derive(Debug, Clone, PartialEq)]
pub enum DeployError {
    /// The local binary was not found where the build leaves it.
    BinaryMissing { path: String },
    /// The local binary exists but is empty.
    BinaryEmpty { path: String },
    /// Neither a key path nor a password is configured.
    MissingCredentials,
    /// Every connection attempt failed.
    Connection { host: String, attempts: u32 },
    /// A remote command exited nonzero.
    Command { exit_code: i32, command: String, stderr: String },
    /// The binary upload was interrupted.
    Transfer { detail: String },
    /// The service did not report `active` after being started.
    ServiceStart { name: String },
    /// Rollback was asked for but no backup file exists.
    RollbackUnavailable { backup_path: String },
}

/// The message that each error is reported with.
pub open spec fn error_message_spec(e: DeployError) -> Seq<char> {
    match e {
        DeployError::BinaryMissing { path } => "Binary not found: "@ + path@ + ". Run build first."@,
        DeployError::BinaryEmpty { path } => "Binary file is empty: "@ + path@,
        DeployError::MissingCredentials =>
            "SSH authentication not configured. Provide either key_path or password."@,
        DeployError::Connection { host, attempts } =>
            "SSH connection failed after "@ + dec_rep(attempts as int) + " attempts: "@ + host@,
        DeployError::Command { exit_code, command, stderr } => {
            let code: Seq<char> = if exit_code >= 0 {
                dec_rep(exit_code as int)
            } else {
                "-"@ + dec_rep(-(exit_code as int))
            };
            "Command failed with exit code "@ + code + ": "@ + command@ + "\nstderr: "@ + stderr@
        },
        DeployError::Transfer { detail } => "Transfer failed: "@ + detail@,
        DeployError::ServiceStart { name } => "Service "@ + name@ + " failed to start"@,
        DeployError::RollbackUnavailable { backup_path } =>
            "No backup found for rollback. Backup file: "@ + backup_path@,
    }
}

impl DeployError {
    /// The message this error is reported with.
    pub fn message(&self) -> (r: String)
        ensures
            r@ == error_message_spec(*self),
    {
        match self {
            DeployError::BinaryMissing { path } => String::from_str("Binary not found: ")
                .concat(path.as_str())
                .concat(". Run build first."),
            DeployError::BinaryEmpty { path } => String::from_str("Binary file is empty: ")
                .concat(path.as_str()),
            DeployError::MissingCredentials => String::from_str(
                "SSH authentication not configured. Provide either key_path or password.",
            ),
            DeployError::Connection { host, attempts } => String::from_str(
                "SSH connection failed after ",
            ).concat(u64_to_dec(*attempts as u64).as_str()).concat(" attempts: ").concat(
                host.as_str(),
            ),
            DeployError::Command { exit_code, command, stderr } => {
                let code: String = if *exit_code >= 0 {
                    u64_to_dec(*exit_code as u64)
                } else {
                    let mag: u64 = if *exit_code == i32::MIN {
                        2147483648u64
                    } else {
                        (-*exit_code) as u64
                    };
                    proof {
                        assert(mag as int == -(*exit_code as int));
                    }
                    String::from_str("-").concat(u64_to_dec(mag).as_str())
                };
                String::from_str("Command failed with exit code ")
                    .concat(code.as_str())
                    .concat(": ")
                    .concat(command.as_str())
                    .concat("\nstderr: ")
                    .concat(stderr.as_str())
            },
            DeployError::Transfer { detail } => String::from_str("Transfer failed: ").concat(
                detail.as_str(),
            ),
            DeployError::ServiceStart { name } => String::from_str("Service ")
                .concat(name.as_str())
                .concat(" failed to start"),
            DeployError::RollbackUnavailable { backup_path } => String::from_str(
                "No backup found for rollback. Backup file: ",
            ).concat(backup_path.as_str()),
        }
    }
}

} // verus!
