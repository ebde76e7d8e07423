use ai_sandbox_landlock::caps::CapabilitySet;
use ai_sandbox_landlock::enforce::{enforce_policy, EnforceError, EnforceOutcome, KernelRuleset};
use ai_sandbox_landlock::policy::{compile_root, CompiledPolicy, PathRule};

#[test]
fn create_rejects_a_mask_no_known_abi_can_represent() {
    let mut mask = CapabilitySet::empty();
    mask.read_file = true;
    mask.truncate = true;
    match KernelRuleset::create(&mask) {
        Err(EnforceError::UnrepresentableCapabilities { requested }) => {
            assert_eq!(requested, mask);
        },
        _ => panic!("truncation is representable by no known ABI revision"),
    }
}

#[test]
fn create_and_load_existing_paths() {
    let mut mask = CapabilitySet::empty();
    mask.read_file = true;
    mask.read_dir = true;
    let created = KernelRuleset::create(&mask).unwrap();
    let rules = vec![
        PathRule { path: "/usr".to_string(), allowed: mask },
        PathRule { path: "/tmp".to_string(), allowed: mask },
    ];
    // Loading rules restricts nothing yet; the ruleset is simply dropped.
    assert!(created.load(&rules).is_ok());
}

#[test]
fn load_fails_fatally_on_an_unopenable_path() {
    let mut mask = CapabilitySet::empty();
    mask.read_file = true;
    let created = KernelRuleset::create(&mask).unwrap();
    let rules = vec![PathRule {
        path: "/nonexistent-root-for-this-test".to_string(),
        allowed: mask,
    }];
    match created.load(&rules) {
        Err(EnforceError::PathUnopenable { path }) => {
            assert_eq!(path, "/nonexistent-root-for-this-test");
        },
        _ => panic!("an unresolvable rule path must be a fatal path error"),
    }
}

#[test]
fn wholly_unsupported_rule_is_dropped_not_fatal() {
    // One group's allowed set may be entirely outside the handled mask; its
    // rule binds nothing and must be skipped, never escalated to an error,
    // while the other rules load normally.
    let mut handled = CapabilitySet::empty();
    handled.read_file = true;
    let mut truncate_only = CapabilitySet::empty();
    truncate_only.truncate = true;
    let created = KernelRuleset::create(&handled).unwrap();
    let rules = vec![
        PathRule { path: "/nonexistent-root-for-this-test".to_string(), allowed: truncate_only },
        PathRule { path: "/usr".to_string(), allowed: handled },
    ];
    // The first rule's path does not even exist, but nothing of it is
    // handled, so it is dropped without being opened.
    assert!(created.load(&rules).is_ok());
}

#[test]
fn empty_compiled_policy_bypasses_the_enforcer() {
    let policy = CompiledPolicy {
        handled: CapabilitySet::empty(),
        rules: vec![],
    };
    let report = enforce_policy(&policy).unwrap();
    assert_eq!(report.outcome, EnforceOutcome::Bypassed);
    assert!(report.ignored.is_empty());
}

#[test]
fn enforcing_full_access_to_the_filesystem_root_is_a_no_op() {
    // Everything under "/" stays allowed for every handled capability, so
    // this exercises the whole create-load-restrict chain harmlessly.
    let policy = compile_root("/", false, None).unwrap();
    let report = enforce_policy(&policy).unwrap();
    match report.outcome {
        EnforceOutcome::Restricted(_) => {},
        EnforceOutcome::Bypassed => panic!("a full mask never bypasses the enforcer"),
    }
    // Truncation is requested by the full domain but representable by no
    // known revision, so it lands in the ignored set instead of failing.
    assert!(report.ignored.contains(ai_sandbox_landlock::caps::Capability::Truncate));
    assert!(!report.ignored.contains(ai_sandbox_landlock::caps::Capability::ReadFile));
}
