//! What the library knows about the local build: whether a rebuild
//! is due, and how the built artifact is described. Running the
//! compiler itself is outside work.

use vstd::prelude::*;
use vstd::string::*;

use crate::strutil::{dec_rep, u64_to_dec};

verus! {

/// Whether the project needs rebuilding: it does when the target
/// directory is missing, when no binary was found, or when the
/// newest source change is newer than the binary. The caller reports
/// the file system facts; times are seconds since the epoch.
pub fn needs_rebuild(target_dir_exists: bool, binary_mtime: Option<u64>, latest_src_mtime: u64) -> (r: bool)
    ensures
        r == (!target_dir_exists || binary_mtime is None || (binary_mtime matches Some(bm)
            && bm < latest_src_mtime)),
{
    if !target_dir_exists {
        return true;
    }
    match binary_mtime {
        None => true,
        Some(bm) => bm < latest_src_mtime,
    }
}

/// Information about the built artifact.
#[derive(Debug, Clone)]
pub struct BuildInfo {
    pub binary_exists: bool,
    /// The artifact's size in bytes, when it exists.
    pub file_size: Option<u64>,
    pub build_mode: String,
    pub project_name: String,
}

/// A size scaled by `den` to one decimal place, rounded half up.
pub open spec fn tenths_rep(sz: int, den: int) -> Seq<char> {
    let t = (20 * sz + den) / (2 * den);
    dec_rep(t / 10) + "."@ + dec_rep(t % 10)
}

/// How a byte count is displayed: scaled to the largest of B, KB, MB
/// and GB that keeps the figure above one, to one decimal place.
pub open spec fn size_display(sz: int) -> Seq<char> {
    if sz >= 1073741824 {
        tenths_rep(sz, 1073741824) + " GB"@
    } else if sz >= 1048576 {
        tenths_rep(sz, 1048576) + " MB"@
    } else if sz >= 1024 {
        tenths_rep(sz, 1024) + " KB"@
    } else {
        tenths_rep(sz, 1) + " B"@
    }
}

fn tenths_part(t: u64) -> (r: String)
    ensures
        r@ == dec_rep(t as int / 10) + "."@ + dec_rep(t as int % 10),
{
    u64_to_dec(t / 10).concat(".").concat(u64_to_dec(t % 10).as_str())
}

impl BuildInfo {
    /// Display the artifact's size, or `N/A` without one.
    pub fn format_size(&self) -> (r: String)
        ensures
            self.file_size matches Some(sz) ==> r@ == size_display(sz as int),
            self.file_size is None ==> r@ == "N/A"@,
    {
        match self.file_size {
            None => String::from_str("N/A"),
            Some(sz) => {
                if sz >= 1073741824 {
                    let wide: u128 = (20u128 * (sz as u128) + 1073741824u128) / 2147483648u128;
                    proof {
                        assert(20u128 * (sz as u128) + 1073741824u128 <= 20 * 0xffff_ffff_ffff_ffffu128
                            + 1073741824);
                        vstd::arithmetic::div_mod::lemma_div_is_ordered(
                            (20u128 * (sz as u128) + 1073741824u128) as int,
                            (20 * 0xffff_ffff_ffff_ffffu128 + 1073741824) as int,
                            2147483648,
                        );
                    }
                    let t: u64 = wide as u64;
                    proof {
                        assert(t as int == (20 * (sz as int) + 1073741824int) / (2147483648int));
                    }
                    tenths_part(t).concat(" GB")
                } else if sz >= 1048576 {
                    let t: u64 = (20 * sz + 1048576) / 2097152;
                    tenths_part(t).concat(" MB")
                } else if sz >= 1024 {
                    let t: u64 = (20 * sz + 1024) / 2048;
                    tenths_part(t).concat(" KB")
                } else {
                    let t: u64 = (20 * sz + 1) / 2;
                    tenths_part(t).concat(" B")
                }
            },
        }
    }
}

} // verus!
