//! Small helpers: locating the built binary and displaying durations.

use vstd::prelude::*;
use vstd::string::*;

use crate::strutil::{dec_rep, u64_to_dec};

verus! {

/// The path under which the built binary is expected:
/// `<project>/target/<mode>/<name>`.
pub open spec fn binary_candidate(project_path: Seq<char>, name: Seq<char>, mode: Seq<char>) -> Seq<char> {
    project_path + "/target/"@ + mode + "/"@ + name
}

/// Find the built binary below the project's target directory.
///
/// The caller reports which of the two candidate files exists: the
/// plain path, or the same path with an `.exe` extension. The plain
/// path wins when both exist.
pub fn find_binary(project_path: &str, project_name: &str, build_mode: &str, plain_exists: bool, exe_exists: bool) -> (r: Result<String, String>)
    ensures
        plain_exists ==> (r matches Ok(p) && p@ == binary_candidate(project_path@, project_name@, build_mode@)),
        !plain_exists && exe_exists ==> (r matches Ok(p) && p@ == binary_candidate(project_path@, project_name@, build_mode@) + ".exe"@),
        !plain_exists && !exe_exists ==> (r matches Err(m) && m@ == "Binary not found at: "@ + binary_candidate(project_path@, project_name@, build_mode@)),
{
    let candidate = String::from_str(project_path)
        .concat("/target/")
        .concat(build_mode)
        .concat("/")
        .concat(project_name);
    if plain_exists {
        Ok(candidate)
    } else if exe_exists {
        Ok(candidate.concat(".exe"))
    } else {
        Err(String::from_str("Binary not found at: ").concat(candidate.as_str()))
    }
}

/// How a span of `ms` milliseconds is displayed: milliseconds below a
/// second; seconds to one decimal place (rounded half up) below a
/// minute; whole minutes and seconds below an hour; else whole hours
/// and minutes.
pub open spec fn duration_display(ms: int) -> Seq<char> {
    if ms < 1000 {
        dec_rep(ms) + "ms"@
    } else if ms / 1000 < 60 {
        dec_rep((ms + 50) / 1000) + "."@ + dec_rep(((ms + 50) / 100) % 10) + "s"@
    } else if ms / 1000 < 3600 {
        dec_rep((ms / 1000) / 60) + "m "@ + dec_rep((ms / 1000) % 60) + "s"@
    } else {
        dec_rep((ms / 1000) / 3600) + "h "@ + dec_rep(((ms / 1000) % 3600) / 60) + "m"@
    }
}

/// Display a span of `millis` milliseconds.
pub fn format_duration(millis: u64) -> (r: String)
    ensures
        r@ == duration_display(millis as int),
{
    if millis < 1000 {
        u64_to_dec(millis).concat("ms")
    } else {
        let secs = millis / 1000;
        if secs < 60 {
            let rounded = millis + 50;
            u64_to_dec(rounded / 1000)
                .concat(".")
                .concat(u64_to_dec((rounded / 100) % 10).as_str())
                .concat("s")
        } else if secs < 3600 {
            u64_to_dec(secs / 60)
                .concat("m ")
                .concat(u64_to_dec(secs % 60).as_str())
                .concat("s")
        } else {
            u64_to_dec(secs / 3600)
                .concat("h ")
                .concat(u64_to_dec((secs % 3600) / 60).as_str())
                .concat("m")
        }
    }
}

} // verus!
