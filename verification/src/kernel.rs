//! The boundary to the kernel's Landlock facility, through the `landlock`
//! crate. Everything here is a thin trusted wrapper around one kernel-backed
//! operation; all policy logic stays outside this module.
//!
//! The wrappers promise nothing about what the kernel decides: every outcome
//! is handed back to verified code, which must handle each of them.

use vstd::prelude::*;

use landlock::{
    path_beneath_rules, AccessFs, BitFlags, PathFd, Ruleset, RulesetAttr, RulesetCreated,
    RulesetCreatedAttr, RulesetError, RulesetStatus,
};

use crate::caps::CapabilitySet;

verus! {

#[verifier::external_type_specification]
#[verifier::external_body]
pub struct ExRulesetCreated(RulesetCreated);

#[verifier::external_type_specification]
#[verifier::external_body]
pub struct ExRulesetError(RulesetError);

/// How far the kernel reports the one-shot self-restriction was applied.
/// `NotEnforced` is what a kernel without the facility reports when the
/// best-effort path was taken.
#[derive(Clone, Copy, Debug, PartialEq, Eq, Structural)]
pub enum RestrictionState {
    FullyEnforced,
    PartiallyEnforced,
    NotEnforced,
}

/// Why binding one path rule failed: the path could not be opened, or the
/// kernel rejected the rule.
#[derive(Debug)]
pub enum PathRuleFailure {
    Unopenable,
    Kernel(RulesetError),
}

/// Witness that the one-shot self-restriction call was actually issued:
/// the only producer of values of this type is `ll_restrict_self`, so a
/// caller holding one has been through the kernel call.
#[derive(Clone, Copy, Debug, PartialEq, Eq)]
pub struct RestrictionToken {
    state: RestrictionState,
}

impl RestrictionToken {
    /// The restriction state the kernel reported.
    pub closed spec fn state_spec(&self) -> RestrictionState {
        self.state
    }

    /// The restriction state the kernel reported.
    pub fn state(&self) -> (r: RestrictionState)
        ensures
            r == self.state_spec(),
    {
        self.state
    }
}

/// Relies on landlock's `Ruleset::default`, `RulesetAttr::handle_access` and
/// `Ruleset::create`: builds a kernel ruleset object declaring the given
/// capabilities as handled. With the crate's default best-effort
/// compatibility, capabilities the kernel cannot represent are degraded
/// rather than rejected; an empty set is refused by `handle_access`'s
/// empty-flags check before `create` runs.
#[verifier::external_body]
pub(crate) fn ll_create_ruleset(handled: &CapabilitySet) -> (r: Result<
    RulesetCreated,
    RulesetError,
>) {
    let mut f: BitFlags<AccessFs> = BitFlags::empty();
    if handled.read_file { f |= AccessFs::ReadFile; }
    if handled.read_dir { f |= AccessFs::ReadDir; }
    if handled.execute { f |= AccessFs::Execute; }
    if handled.write_file { f |= AccessFs::WriteFile; }
    if handled.remove_file { f |= AccessFs::RemoveFile; }
    if handled.remove_dir { f |= AccessFs::RemoveDir; }
    if handled.truncate { f |= AccessFs::Truncate; }
    Ruleset::default().handle_access(f).and_then(|r| r.create())
}

/// Relies on landlock's `PathFd::new`, `path_beneath_rules` and
/// `RulesetCreatedAttr::add_rules`: binds the given capabilities to one path.
/// The path is opened first so that an unresolvable path is reported instead
/// of silently skipped; `path_beneath_rules` itself narrows the access on
/// regular files to the file-compatible subset, as the crate documents. The
/// crate re-opens the path for the rule itself, so a path that vanishes
/// between the probe and that re-open is still skipped silently: the probe
/// tightens the original behaviour but cannot close that race without
/// giving up the crate's file narrowing.
#[verifier::external_body]
pub(crate) fn ll_add_path_rule(rs: RulesetCreated, path: &String, allowed: &CapabilitySet) -> (r:
    Result<RulesetCreated, PathRuleFailure>) {
    let mut f: BitFlags<AccessFs> = BitFlags::empty();
    if allowed.read_file { f |= AccessFs::ReadFile; }
    if allowed.read_dir { f |= AccessFs::ReadDir; }
    if allowed.execute { f |= AccessFs::Execute; }
    if allowed.write_file { f |= AccessFs::WriteFile; }
    if allowed.remove_file { f |= AccessFs::RemoveFile; }
    if allowed.remove_dir { f |= AccessFs::RemoveDir; }
    if allowed.truncate { f |= AccessFs::Truncate; }
    if PathFd::new(path.as_str()).is_err() {
        return Err(PathRuleFailure::Unopenable);
    }
    rs.add_rules(path_beneath_rules(&[path.as_str()], f)).map_err(PathRuleFailure::Kernel)
}

/// Relies on landlock's `RulesetCreated::restrict_self`: issues the one-shot,
/// irrevocable self-restriction, consuming the ruleset. The token's state is
/// the crate's `RulesetStatus`, variant for variant.
#[verifier::external_body]
pub(crate) fn ll_restrict_self(rs: RulesetCreated) -> (r: Result<RestrictionToken, RulesetError>) {
    match rs.restrict_self() {
        Ok(st) => Ok(RestrictionToken {
            state: match st.ruleset {
                RulesetStatus::FullyEnforced => RestrictionState::FullyEnforced,
                RulesetStatus::PartiallyEnforced => RestrictionState::PartiallyEnforced,
                RulesetStatus::NotEnforced => RestrictionState::NotEnforced,
            },
        }),
        Err(e) => Err(e),
    }
}

} // verus!
