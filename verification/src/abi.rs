//! ABI negotiation: which of the kernel facility's known revisions can be
//! used, and hence which capabilities the running kernel can enforce.
//!
//! Kernel support is monotonically additive across revisions. Within the
//! seven-capability domain of this library, both known revisions represent
//! the same six capabilities (the second revision extends the mechanism only
//! outside this domain), so the negotiated set is the same for every probe
//! outcome — which is why `supported_access` can carry an exact contract even
//! though the probe itself asks the kernel.

use vstd::prelude::*;

use crate::caps::{access_names, names_seq, name_views, CapabilitySet};
use crate::kernel::ll_create_ruleset;

verus! {

/// A version-tagged revision of the kernel facility's ABI. These are the
/// revisions this library knows how to probe, newest last.
#[derive(Clone, Copy, Debug, PartialEq, Eq, Structural)]
pub enum AbiVersion {
    V1,
    V2,
}

/// The full capability set a given ABI revision can represent, within this
/// library's domain. Truncation arrived only in later revisions than the
/// known ones, so neither known revision represents it.
pub open spec fn abi_full_spec(v: AbiVersion) -> CapabilitySet {
    match v {
        AbiVersion::V1 => CapabilitySet {
            read_file: true,
            read_dir: true,
            execute: true,
            write_file: true,
            remove_file: true,
            remove_dir: true,
            truncate: false,
        },
        AbiVersion::V2 => CapabilitySet {
            read_file: true,
            read_dir: true,
            execute: true,
            write_file: true,
            remove_file: true,
            remove_dir: true,
            truncate: false,
        },
    }
}

/// What some known ABI revision can represent at all: the union over every
/// known revision's full set.
pub open spec fn representable_caps() -> CapabilitySet {
    abi_full_spec(AbiVersion::V1).union_spec(abi_full_spec(AbiVersion::V2))
}

/// The set the negotiation returns. The probe is answered by the kernel, but
/// every one of its outcomes yields this same set within the domain.
pub open spec fn supported_caps() -> CapabilitySet {
    abi_full_spec(AbiVersion::V1)
}

/// The full capability set of a given ABI revision, within this domain.
pub fn abi_full_set(v: AbiVersion) -> (r: CapabilitySet)
    ensures
        r == abi_full_spec(v),
{
    CapabilitySet {
        read_file: true,
        read_dir: true,
        execute: true,
        write_file: true,
        remove_file: true,
        remove_dir: true,
        truncate: false,
    }
}

/// Negotiates the maximal capability set the running kernel can represent:
/// probes ruleset construction (never application) for each known revision's
/// full set, newest first, and falls back to the oldest baseline as a
/// conservative default. Always a subset of the newest known revision's full
/// set and a superset of the oldest baseline's.
pub fn supported_access() -> (r: CapabilitySet)
    ensures
        r == supported_caps(),
        r.subset_spec(abi_full_spec(AbiVersion::V2)),
        abi_full_spec(AbiVersion::V1).subset_spec(r),
{
    let newest = abi_full_set(AbiVersion::V2);
    let probed = match ll_create_ruleset(&newest) {
        Ok(_) => newest,
        Err(_) => {
            let baseline = abi_full_set(AbiVersion::V1);
            match ll_create_ruleset(&baseline) {
                Ok(_) => baseline,
                Err(_) => baseline,
            }
        },
    };
    proof {
        assert forall|c: crate::caps::Capability| probed.has(c) implies abi_full_spec(
            AbiVersion::V2,
        ).has(c) by {}
        assert forall|c: crate::caps::Capability| abi_full_spec(AbiVersion::V1).has(
            c,
        ) implies probed.has(c) by {}
    }
    probed
}

/// Lists the names of the capabilities in `requested` that the negotiated
/// set cannot enforce: these are reported, never escalated to an error.
pub fn unsupported_names(requested: &CapabilitySet) -> (r: Vec<&'static str>)
    ensures
        name_views(r@) == names_seq(requested.difference_spec(supported_caps())),
{
    let sup = supported_access();
    let diff = requested.difference(&sup);
    access_names(&diff)
}

} // verus!
