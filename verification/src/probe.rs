//! The executable prober's decision logic: which directory entry counts as
//! a runnable executable of the host architecture.

use crate::text::{contains_sub, spec_contains_sub, str_eq};
use vstd::prelude::*;

verus! {

/// What `str::to_lowercase` returns. Named, not stated: the result is the
/// Unicode lowercasing of the input and depends on the characters alone.
pub uninterp spec fn lower_of(s: Seq<char>) -> Seq<char>;

/// Relies on `str::to_lowercase`, which lowercases the characters; an empty
/// string stays empty.
#[verifier::external_body]
fn lowercase(s: &str) -> (r: String)
    ensures
        r@ == lower_of(s@),
        s@.len() == 0 ==> r@.len() == 0,
{
    s.to_lowercase()
}

/// The architecture test on a lower-cased type-inspection output: hosts of
/// the x86 family accept output containing `executable x86`, hosts of the
/// arm64 family accept output containing `executable arm64`, and any other
/// host architecture matches nothing.
pub open spec fn spec_arch_matches(arch: Seq<char>, val: Seq<char>) -> bool {
    if arch == "x86_64"@ {
        spec_contains_sub(val, "executable x86"@)
    } else if arch == "aarch64"@ {
        spec_contains_sub(val, "executable arm64"@)
    } else {
        false
    }
}

/// Decides whether a lower-cased type-inspection output names an executable
/// of the host architecture.
pub fn architecture_matches(arch: &str, val: &str) -> (r: bool)
    ensures
        r == spec_arch_matches(arch@, val@),
{
    if str_eq(arch, "x86_64") {
        contains_sub(val, "executable x86")
    } else if str_eq(arch, "aarch64") {
        contains_sub(val, "executable arm64")
    } else {
        false
    }
}

/// One directory entry as the prober saw it: its path and the outcomes of
/// the three checks run against it.
#[derive(Clone, Debug)]
pub struct ProbeRecord {
    /// Path of the entry.
    pub path: String,
    /// The execute permission bit is set for the current user.
    pub executable: bool,
    /// Invoking the file with no arguments exited with status zero.
    pub ran_ok: bool,
    /// Raw output of the file-type inspection utility on the entry.
    pub type_output: String,
}

/// A candidate passes when it is executable, ran successfully, and the
/// lower-cased type-inspection output names the host architecture.
pub open spec fn spec_probe_accepts(arch: Seq<char>, rec: ProbeRecord) -> bool {
    rec.executable && rec.ran_ok && spec_arch_matches(arch, lower_of(rec.type_output@))
}

/// Applies the three probe checks to one candidate.
pub fn probe_accepts(arch: &str, rec: &ProbeRecord) -> (r: bool)
    ensures
        r == spec_probe_accepts(arch@, *rec),
{
    if !rec.executable {
        return false;
    }
    if !rec.ran_ok {
        return false;
    }
    let lowered = lowercase(rec.type_output.as_str());
    architecture_matches(arch, lowered.as_str())
}

/// Picks the first candidate, in enumeration order, that passes all three
/// probe checks; none qualifies exactly when every candidate fails one.
pub fn select_executable(arch: &str, recs: &Vec<ProbeRecord>) -> (r: Option<usize>)
    ensures
        r matches Some(i) ==> i < recs@.len() && spec_probe_accepts(arch@, recs@[i as int])
            && forall|j: int| 0 <= j < i ==> !spec_probe_accepts(arch@, recs@[j]),
        r is None ==> forall|j: int|
            0 <= j < recs@.len() ==> !spec_probe_accepts(arch@, recs@[j]),
{
    let mut i: usize = 0;
    while i < recs.len()
        invariant
            i <= recs@.len(),
            forall|j: int| 0 <= j < i ==> !spec_probe_accepts(arch@, recs@[j]),
        decreases recs@.len() - i,
    {
        if probe_accepts(arch, &recs[i]) {
            return Some(i);
        }
        i += 1;
    }
    None
}

} // verus!
