//! The remote command vocabulary: the exact shell one-liners the
//! library issues, and how their answers are read.
//!
//! Executing a command on the remote host is outside work; what the
//! command text is, what a nonzero exit status means, and how the two
//! probe answers map to a boolean are all decided here.

use vstd::prelude::*;
use vstd::string::*;

use crate::errors::DeployError;
use crate::strutil::{dec_rep, str_eq, trim_str, trimmed, u64_to_dec};

verus! {

/// What one remote command execution came back with.
#[derive(Debug, Clone)]
pub struct CommandOutcome {
    pub exit_code: i32,
    pub stdout: String,
    pub stderr: String,
}

/// Read a command outcome: exit status zero yields the captured
/// output, any other status is a command error carrying the command
/// text and the captured diagnostics.
pub fn classify_outcome(outcome: CommandOutcome, command: &str) -> (r: Result<(String, String), DeployError>)
    ensures
        outcome.exit_code == 0 ==> r == Ok::<(String, String), DeployError>((outcome.stdout, outcome.stderr)),
        outcome.exit_code != 0 ==> (r matches Err(DeployError::Command { exit_code, command: cmd, stderr })
            && exit_code == outcome.exit_code && cmd@ == command@ && stderr == outcome.stderr),
{
    if outcome.exit_code == 0 {
        Ok((outcome.stdout, outcome.stderr))
    } else {
        Err(DeployError::Command {
            exit_code: outcome.exit_code,
            command: String::from_str(command),
            stderr: outcome.stderr,
        })
    }
}

/// Whether a file-existence probe answered that the file exists: the
/// probe must have run, and its output must read `exists` once
/// trimmed. A failed probe counts as absent.
pub fn interpret_exists(probe: &Result<(String, String), DeployError>) -> (r: bool)
    ensures
        r == (probe matches Ok(o) && trimmed(o.0@) == "exists"@),
{
    match probe {
        Ok((stdout, _)) => str_eq(trim_str(stdout.as_str()).as_str(), "exists"),
        Err(_) => false,
    }
}

/// Whether a service state query reports the service as running: the
/// output must read exactly `active` once trimmed; any other answer,
/// including an empty one, counts as not running.
pub fn service_is_active(output: &str) -> (r: bool)
    ensures
        r == (trimmed(output@) == "active"@),
{
    str_eq(trim_str(output).as_str(), "active")
}

/// `mkdir -p <path>`: ensure the remote directory exists.
pub fn mkdir_command(path: &str) -> (r: String)
    ensures
        r@ == "mkdir -p "@ + path@,
{
    String::from_str("mkdir -p ").concat(path)
}

/// `cp <from> <to>`: copy a remote file.
pub fn copy_command(from: &str, to: &str) -> (r: String)
    ensures
        r@ == "cp "@ + from@ + " "@ + to@,
{
    String::from_str("cp ").concat(from).concat(" ").concat(to)
}

/// `chmod +x <path>`: mark a remote file executable.
pub fn chmod_command(path: &str) -> (r: String)
    ensures
        r@ == "chmod +x "@ + path@,
{
    String::from_str("chmod +x ").concat(path)
}

/// `sudo systemctl <verb> <name>`: drive the remote service manager.
pub fn systemctl_command(verb: &str, name: &str) -> (r: String)
    ensures
        r@ == "sudo systemctl "@ + verb@ + " "@ + name@,
{
    String::from_str("sudo systemctl ").concat(verb).concat(" ").concat(name)
}

/// `sudo systemctl daemon-reload`: reload the unit cache.
pub fn daemon_reload_command() -> (r: String)
    ensures
        r@ == "sudo systemctl daemon-reload"@,
{
    String::from_str("sudo systemctl daemon-reload")
}

/// The existence probe: prints `exists` or `not exists`.
pub fn probe_command(path: &str) -> (r: String)
    ensures
        r@ == "[ -f "@ + path@ + " ] && echo 'exists' || echo 'not exists'"@,
{
    String::from_str("[ -f ").concat(path).concat(" ] && echo 'exists' || echo 'not exists'")
}

/// `tail -n <lines> <path>`: the last lines of a remote file.
pub fn tail_command(lines: u64, path: &str) -> (r: String)
    ensures
        r@ == "tail -n "@ + dec_rep(lines as int) + " "@ + path@,
{
    String::from_str("tail -n ").concat(u64_to_dec(lines).as_str()).concat(" ").concat(path)
}

/// `tail -f -n 50 <path>`: follow a remote file.
pub fn tail_follow_command(path: &str) -> (r: String)
    ensures
        r@ == "tail -f -n 50 "@ + path@,
{
    String::from_str("tail -f -n 50 ").concat(path)
}

/// `stat -c %Y <path>`: the modification time of a remote file, in
/// seconds since the epoch.
pub fn stat_mtime_command(path: &str) -> (r: String)
    ensures
        r@ == "stat -c %Y "@ + path@,
{
    String::from_str("stat -c %Y ").concat(path)
}

/// `ls -lh <path>`: the size and date of a remote file.
pub fn ls_info_command(path: &str) -> (r: String)
    ensures
        r@ == "ls -lh "@ + path@,
{
    String::from_str("ls -lh ").concat(path)
}

/// Write `content` to a remote file through a quoted here-document.
pub fn write_file_command(path: &str, content: &str) -> (r: String)
    ensures
        r@ == "cat > "@ + path@ + " << 'EOF'\n"@ + content@ + "\nEOF"@,
{
    String::from_str("cat > ").concat(path).concat(" << 'EOF'\n").concat(content).concat("\nEOF")
}

/// The path of an installed unit file in the system unit directory.
pub fn unit_file_path(service_name: &str) -> (r: String)
    ensures
        r@ == "/etc/systemd/system/"@ + service_name@,
{
    String::from_str("/etc/systemd/system/").concat(service_name)
}

/// `sudo mv <path> /etc/systemd/system/`: move a staged unit file
/// into the system unit directory.
pub fn move_unit_command(path: &str) -> (r: String)
    ensures
        r@ == "sudo mv "@ + path@ + " /etc/systemd/system/"@,
{
    String::from_str("sudo mv ").concat(path).concat(" /etc/systemd/system/")
}

/// The three commands that install a service unit: stage the unit
/// text under `/tmp`, move it into the system unit directory with
/// elevated privilege, and reload the unit cache.
pub fn install_unit_commands(service_name: &str, unit_text: &str) -> (r: Vec<String>)
    ensures
        r@.len() == 3,
        r@[0]@ == "cat > "@ + ("/tmp/"@ + service_name@) + " << 'EOF'\n"@ + unit_text@ + "\nEOF"@,
        r@[1]@ == "sudo mv "@ + ("/tmp/"@ + service_name@) + " /etc/systemd/system/"@,
        r@[2]@ == "sudo systemctl daemon-reload"@,
{
    let temp_path = String::from_str("/tmp/").concat(service_name);
    let mut out: Vec<String> = Vec::new();
    out.push(write_file_command(temp_path.as_str(), unit_text));
    out.push(move_unit_command(temp_path.as_str()));
    out.push(daemon_reload_command());
    out
}

} // verus!
