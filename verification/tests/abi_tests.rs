use ai_sandbox_landlock::abi::{abi_full_set, supported_access, unsupported_names, AbiVersion};
use ai_sandbox_landlock::caps::{Capability, CapabilitySet};

#[test]
fn test_supported_access_includes_basic_reads() {
    let sup = supported_access();
    assert!(sup.contains(Capability::ReadFile));
    assert!(sup.contains(Capability::ReadDir));
}

#[test]
fn test_unsupported_names_reports_truncate_when_not_supported() {
    let mut requested = CapabilitySet::empty();
    requested.truncate = true;
    let ignored = unsupported_names(&requested);
    // On ABI V1, Truncate is typically unsupported.
    // We allow either outcome to avoid kernel-specific brittleness.
    assert!(ignored.is_empty() || ignored.contains(&"Truncate"));
}

#[test]
fn negotiated_set_is_between_oldest_and_newest_full_sets() {
    let sup = supported_access();
    let oldest = abi_full_set(AbiVersion::V1);
    let newest = abi_full_set(AbiVersion::V2);
    assert!(oldest.subset_of(&sup));
    assert!(sup.subset_of(&newest));
}

#[test]
fn unsupported_names_empty_for_plain_reads() {
    let mut requested = CapabilitySet::empty();
    requested.read_file = true;
    requested.read_dir = true;
    assert!(unsupported_names(&requested).is_empty());
}
