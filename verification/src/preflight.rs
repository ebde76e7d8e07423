//! The best-effort kernel pre-flight diagnostic: a kernel-release version
//! check and a security-module-list check. These are fast hints only and are
//! never the sole basis for declaring support — only a successful ruleset
//! construction probe is authoritative for that.

use vstd::prelude::*;
use vstd::string::*;

use crate::text::{contains_seq, find_char, parse_u32_in, str_contains};
use crate::text::{lemma_find_char_at, lemma_find_char_none, parse_u32_or_zero};

verus! {

/// Whether a release string names a version at least `maj.min`: the first
/// two dot-separated segments are the major and minor numbers, a string
/// without a dot has fewer than two segments and never qualifies, and a
/// segment that fails to parse counts as zero.
pub open spec fn kernel_version_ge(s: Seq<char>, maj: u32, min: u32) -> bool {
    let d1 = find_char(s, '.', 0);
    if d1 == s.len() {
        false
    } else {
        let d2 = find_char(s, '.', d1 + 1);
        let major = parse_u32_or_zero(s.subrange(0, d1));
        let minor = parse_u32_or_zero(s.subrange(d1 + 1, d2));
        major > maj || (major == maj && minor >= min)
    }
}

/// Whether a kernel release string such as `6.8.0-26-generic` names a
/// version at least `want_major.want_minor`. A release string without a dot
/// never qualifies; segments that fail to parse count as zero.
pub fn parse_kernel_version_ge(osrelease: &str, want_major: u32, want_minor: u32) -> (r: bool)
    ensures
        r == kernel_version_ge(osrelease@, want_major, want_minor),
{
    let n = osrelease.unicode_len();
    let mut d1: usize = 0;
    while d1 < n && osrelease.get_char(d1) != '.'
        invariant
            n == osrelease@.len(),
            d1 <= n,
            forall|k: int| 0 <= k < d1 ==> osrelease@[k] != '.',
        decreases n - d1,
    {
        d1 = d1 + 1;
    }
    proof {
        if d1 < n {
            lemma_find_char_at(osrelease@, '.', 0, d1 as int);
        } else {
            lemma_find_char_none(osrelease@, '.', 0);
        }
    }
    if d1 == n {
        return false;
    }
    let mut d2: usize = d1 + 1;
    while d2 < n && osrelease.get_char(d2) != '.'
        invariant
            n == osrelease@.len(),
            d1 + 1 <= d2 <= n,
            forall|k: int| d1 + 1 <= k < d2 ==> osrelease@[k] != '.',
        decreases n - d2,
    {
        d2 = d2 + 1;
    }
    proof {
        if d2 < n {
            lemma_find_char_at(osrelease@, '.', d1 as int + 1, d2 as int);
        } else {
            lemma_find_char_none(osrelease@, '.', d1 as int + 1);
        }
    }
    let major = parse_u32_in(osrelease, 0, d1);
    let minor = parse_u32_in(osrelease, d1 + 1, d2);
    major > want_major || (major == want_major && minor >= want_minor)
}

/// The result of the pre-flight diagnostic.
#[derive(Clone, Copy, Debug, PartialEq, Eq, Structural)]
pub struct PreflightReport {
    pub version_ok: bool,
    pub lsm_ok: bool,
}

impl PreflightReport {
    /// The facility appears available only when both hints agree.
    pub open spec fn available(self) -> bool {
        self.version_ok && self.lsm_ok
    }

    /// Whether the facility appears available: both hints must agree.
    pub fn is_available(&self) -> (r: bool)
        ensures
            r == self.available(),
    {
        self.version_ok && self.lsm_ok
    }
}

/// Evaluates the pre-flight hints from the kernel release string and the
/// security-module list: the release must name version 5.13 or later, and
/// the module list must mention `landlock`.
pub fn kernel_preflight(osrelease: &str, lsm_list: &str) -> (r: PreflightReport)
    ensures
        r.version_ok == kernel_version_ge(osrelease@, 5u32, 13u32),
        r.lsm_ok == contains_seq(lsm_list@, "landlock"@),
{
    let version_ok = parse_kernel_version_ge(osrelease, 5, 13);
    let lsm_ok = str_contains(lsm_list, "landlock");
    PreflightReport { version_ok, lsm_ok }
}

/// A yes-or-no word for a diagnostic line.
pub fn yesno(b: bool) -> (r: &'static str)
    ensures
        b ==> r@ == "yes"@,
        !b ==> r@ == "no"@,
{
    if b {
        "yes"
    } else {
        "no"
    }
}

} // verus!
