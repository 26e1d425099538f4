//! The service unit artifact: a pure function of the deployment
//! descriptor, rendered exactly.

use vstd::prelude::*;
use vstd::string::*;

use crate::config::Config;

verus! {

/// The text of the service unit for a binary `name`, run as `user`,
/// out of the directory `dir`.
pub open spec fn unit_text_spec(name: Seq<char>, user: Seq<char>, dir: Seq<char>) -> Seq<char> {
    "[Unit]\nDescription="@ + name + " - Rust Application\nAfter=network.target\n\n[Service]\nType=simple\nUser="@
        + user + "\nWorkingDirectory="@ + dir + "\nExecStart="@ + dir + "/"@ + name
        + "\nRestart=always\nRestartSec=5\nStandardOutput=journal\nStandardError=journal\nSyslogIdentifier="@
        + name
        + "\n\n# Security settings\nNoNewPrivileges=yes\nPrivateTmp=yes\nProtectSystem=strict\nReadWritePaths="@
        + dir + "\nProtectHome=yes\n\n[Install]\nWantedBy=multi-user.target\n"@
}

/// Render the service unit for `config`: the unit is named after the
/// binary, runs as the configured user, works out of the deploy
/// directory, starts the deployed binary, restarts on failure after
/// five seconds, and is sandboxed to the deploy directory.
pub fn generate_systemd_service(config: &Config) -> (r: String)
    ensures
        r@ == unit_text_spec(config.project.name@, config.deploy.vps_user@, config.deploy.deploy_path@),
{
    let name = config.project.name.as_str();
    let user = config.deploy.vps_user.as_str();
    let dir = config.deploy.deploy_path.as_str();
    String::from_str("[Unit]\nDescription=")
        .concat(name)
        .concat(" - Rust Application\nAfter=network.target\n\n[Service]\nType=simple\nUser=")
        .concat(user)
        .concat("\nWorkingDirectory=")
        .concat(dir)
        .concat("\nExecStart=")
        .concat(dir)
        .concat("/")
        .concat(name)
        .concat("\nRestart=always\nRestartSec=5\nStandardOutput=journal\nStandardError=journal\nSyslogIdentifier=")
        .concat(name)
        .concat("\n\n# Security settings\nNoNewPrivileges=yes\nPrivateTmp=yes\nProtectSystem=strict\nReadWritePaths=")
        .concat(dir)
        .concat("\nProtectHome=yes\n\n[Install]\nWantedBy=multi-user.target\n")
}

} // verus!
