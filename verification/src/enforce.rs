//! The enforcer: a linear state machine over a kernel ruleset object.
//!
//! The states run strictly forward — ruleset created, rules loaded,
//! restriction applied — and each transition consumes its input, so no state
//! can be revisited and the terminal state exposes nothing at all: the
//! one-shot self-restriction is irrevocable by construction. Any transition
//! failure aborts the launch; partial enforcement is never success, and a
//! successful outcome carries a witness that the restriction call was
//! actually issued.

use vstd::prelude::*;

use landlock::{RulesetCreated, RulesetError};

use crate::abi::{representable_caps, supported_caps};
use crate::caps::CapabilitySet;
use crate::kernel::{ll_add_path_rule, ll_create_ruleset, ll_restrict_self, PathRuleFailure};
use crate::policy::{CompiledPolicy, PathRule};

pub use crate::kernel::{RestrictionState, RestrictionToken};

verus! {

/// An enforcement failure. Once `KernelRuleset::create` has been called, any
/// of these is terminal for the launch: the caller must never fall back to
/// running the target command unsandboxed.
#[derive(Debug)]
pub enum EnforceError {
    /// The mask contains a capability no known ABI revision can represent at
    /// all. Distinct from the silently-droppable "unsupported by the running
    /// kernel" case, which is filtered out before creation is attempted.
    UnrepresentableCapabilities { requested: CapabilitySet },
    /// The kernel refused to create the ruleset object.
    RulesetCreation(RulesetError),
    /// A rule's path could not be resolved and opened at load time. Always
    /// fatal: a rule that silently failed to load would be a silent security
    /// gap.
    PathUnopenable { path: String },
    /// The kernel refused to bind a rule to a path.
    RuleLoading(RulesetError),
    /// The one-shot self-restriction call failed.
    Restriction(RulesetError),
}

/// Whether a rule binds nothing under the given handled mask: none of its
/// capabilities is handled, so loading it would change nothing.
pub open spec fn rule_unbound(r: PathRule, handled: CapabilitySet) -> bool {
    r.allowed.intersect_spec(handled).is_empty_spec()
}

/// The rules actually bound to the kernel under a handled mask: each rule
/// whose allowed set meets the mask, in order, with the intersected set. A
/// rule whose intersection is empty binds nothing and is dropped — its every
/// capability is either unhandled (untouched by the mechanism) or already
/// outside the mask — rather than handed to the kernel, which refuses an
/// empty access set.
pub open spec fn bound_models(rs: Seq<PathRule>, handled: CapabilitySet) -> Seq<
    (Seq<char>, CapabilitySet),
>
    decreases rs.len(),
{
    if rs.len() == 0 {
        Seq::empty()
    } else {
        let rest = bound_models(rs.drop_last(), handled);
        if rule_unbound(rs.last(), handled) {
            rest
        } else {
            rest.push((rs.last().path@, rs.last().allowed.intersect_spec(handled)))
        }
    }
}

/// A created kernel ruleset: the facility has been asked to handle exactly
/// the recorded mask, but no rule is loaded and nothing is restricted yet.
pub struct KernelRuleset {
    inner: RulesetCreated,
    handled: CapabilitySet,
}

/// A kernel ruleset with every rule loaded. The only operation left is the
/// irrevocable one-shot restriction, which consumes it.
pub struct LoadedRuleset {
    inner: RulesetCreated,
    handled: Ghost<CapabilitySet>,
    loaded: Ghost<Seq<(Seq<char>, CapabilitySet)>>,
}

impl KernelRuleset {
    /// The mask this ruleset was created for.
    pub closed spec fn handled_caps(&self) -> CapabilitySet {
        self.handled
    }

    /// Creates a kernel ruleset object handling exactly `handled`. Fails
    /// with a hard error if `handled` contains a capability no known ABI
    /// revision can represent at all; the droppable "unsupported by this
    /// kernel" case must have been filtered out by the caller beforehand.
    pub fn create(handled: &CapabilitySet) -> (r: Result<KernelRuleset, EnforceError>)
        ensures
            match r {
                Ok(k) => handled.subset_spec(representable_caps()) && k.handled_caps()
                    == *handled,
                Err(e) => match e {
                    EnforceError::UnrepresentableCapabilities { requested } => requested
                        == *handled && !handled.subset_spec(representable_caps()),
                    EnforceError::RulesetCreation(_) => handled.subset_spec(representable_caps()),
                    _ => false,
                },
            },
    {
        let representable = crate::abi::abi_full_set(crate::abi::AbiVersion::V1).union(
            &crate::abi::abi_full_set(crate::abi::AbiVersion::V2),
        );
        if !handled.subset_of(&representable) {
            return Err(EnforceError::UnrepresentableCapabilities { requested: *handled });
        }
        match ll_create_ruleset(handled) {
            Ok(inner) => Ok(KernelRuleset { inner, handled: *handled }),
            Err(e) => Err(EnforceError::RulesetCreation(e)),
        }
    }

    /// Loads every rule, in order, binding `allowed ∩ handled` to each path.
    /// A rule whose intersection with the handled mask is empty binds
    /// nothing: it is skipped, never handed to the kernel and never an
    /// error. Consumes the created ruleset; any failure is fatal and nothing
    /// of the ruleset survives it. When no rule binds anything the kernel is
    /// never asked, so success is owed.
    pub fn load(self, rules: &Vec<PathRule>) -> (r: Result<LoadedRuleset, EnforceError>)
        ensures
            match r {
                Ok(l) => l.handled_caps() == self.handled_caps() && l.loaded_rules()
                    == bound_models(rules@, self.handled_caps()),
                Err(e) => match e {
                    EnforceError::PathUnopenable { path } => exists|i: int|
                        0 <= i < rules@.len() && #[trigger] rules@[i].path@ == path@,
                    EnforceError::RuleLoading(_) => true,
                    _ => false,
                },
            },
            (forall|i: int|
                0 <= i < rules@.len() ==> rule_unbound(#[trigger] rules@[i], self.handled_caps()))
                ==> r is Ok,
    {
        let handled_set = self.handled;
        let mut inner = self.inner;
        let ghost mut loaded: Seq<(Seq<char>, CapabilitySet)> = Seq::empty();
        let n = rules.len();
        let mut i: usize = 0;
        while i < n
            invariant
                n == rules@.len(),
                i <= n,
                handled_set == self.handled_caps(),
                loaded == bound_models(rules@.take(i as int), handled_set),
            decreases n - i,
        {
            let allowed = rules[i].allowed.intersect(&handled_set);
            if !allowed.is_empty() {
                match ll_add_path_rule(inner, &rules[i].path, &allowed) {
                    Ok(next) => {
                        inner = next;
                        proof {
                            loaded = loaded.push((rules@[i as int].path@, allowed));
                        }
                    },
                    Err(PathRuleFailure::Unopenable) => {
                        let p = rules[i].path.clone();
                        proof {
                            assert(rules@[i as int].path@ == p@);
                            assert(!rule_unbound(rules@[i as int], handled_set));
                        }
                        return Err(EnforceError::PathUnopenable { path: p });
                    },
                    Err(PathRuleFailure::Kernel(e)) => {
                        proof {
                            assert(!rule_unbound(rules@[i as int], handled_set));
                        }
                        return Err(EnforceError::RuleLoading(e));
                    },
                }
            }
            proof {
                assert(rules@.take(i as int + 1).drop_last() =~= rules@.take(i as int));
                assert(rules@.take(i as int + 1).last() == rules@[i as int]);
                assert(loaded == bound_models(rules@.take(i as int + 1), handled_set));
            }
            i = i + 1;
        }
        proof {
            assert(rules@.take(n as int) =~= rules@);
        }
        Ok(LoadedRuleset { inner, handled: Ghost(handled_set), loaded: Ghost(loaded) })
    }
}

impl LoadedRuleset {
    /// The mask this ruleset was created for.
    pub closed spec fn handled_caps(&self) -> CapabilitySet {
        self.handled@
    }

    /// The models of the rules that were bound to the kernel.
    pub closed spec fn loaded_rules(&self) -> Seq<(Seq<char>, CapabilitySet)> {
        self.loaded@
    }

    /// Issues the one-shot self-restriction and consumes the ruleset: after
    /// this call, for any access inside the handled mask, the process and
    /// its future children are permanently bounded to the loaded rules, and
    /// no operation can re-enter an earlier state. Success hands back the
    /// kernel call's witness token; whether the call succeeds is the
    /// kernel's decision alone, so nothing more can be promised of it.
    pub fn restrict(self) -> (r: Result<RestrictionToken, EnforceError>)
        ensures
            r matches Err(e) ==> e matches EnforceError::Restriction(_),
    {
        match ll_restrict_self(self.inner) {
            Ok(token) => Ok(token),
            Err(e) => Err(EnforceError::Restriction(e)),
        }
    }
}

/// What one enforcement attempt did.
#[derive(Clone, Copy, Debug, PartialEq, Eq)]
pub enum EnforceOutcome {
    /// The self-restriction was issued: the token is the kernel call's
    /// witness and carries the state the kernel reported. Only the call
    /// itself produces such a token, so this outcome cannot be fabricated.
    Restricted(RestrictionToken),
    /// Nothing of the requested mask is enforceable, so the enforcer was
    /// bypassed entirely — never partially entered. Equivalent to no
    /// filesystem restriction for this launch.
    Bypassed,
}

/// The result of a successful enforcement attempt: the outcome, and the
/// requested capabilities that the negotiated set could not enforce, which
/// were dropped from the mask before ruleset creation and are reported here
/// instead of failing the launch.
pub struct EnforceReport {
    pub outcome: EnforceOutcome,
    pub ignored: CapabilitySet,
}

/// Enforces a compiled policy: negotiates kernel support, drops what the
/// kernel cannot enforce into the ignored set, and — unless nothing at all
/// remains — creates the ruleset for the narrowed mask, loads every rule,
/// and applies the one-shot restriction.
///
/// An empty effective mask never reaches the kernel, so success is owed
/// there; the narrowed mask is always representable, so the unrepresentable-
/// capability error can never come out of this function; and a `Restricted`
/// outcome carries the restriction call's witness, so it is reported only
/// when the restriction was actually issued.
pub fn enforce_policy(policy: &CompiledPolicy) -> (r: Result<EnforceReport, EnforceError>)
    ensures
        policy.handled.intersect_spec(supported_caps()).is_empty_spec() ==> r is Ok,
        match r {
            Ok(rep) => rep.ignored == policy.handled.difference_spec(supported_caps()) && (
            rep.outcome is Bypassed <==> policy.handled.intersect_spec(
                supported_caps(),
            ).is_empty_spec()),
            Err(e) => !(e is UnrepresentableCapabilities),
        },
{
    let supported = crate::abi::supported_access();
    let (effective, ignored) = crate::policy::filter_supported(&policy.handled, &supported);
    if effective.is_empty() {
        return Ok(EnforceReport { outcome: EnforceOutcome::Bypassed, ignored });
    }
    proof {
        assert(effective.subset_spec(representable_caps()));
    }
    let created = match KernelRuleset::create(&effective) {
        Ok(k) => k,
        Err(e) => {
            return Err(e);
        },
    };
    let loaded = match created.load(&policy.rules) {
        Ok(l) => l,
        Err(e) => {
            return Err(e);
        },
    };
    match loaded.restrict() {
        Ok(token) => Ok(EnforceReport { outcome: EnforceOutcome::Restricted(token), ignored }),
        Err(e) => Err(e),
    }
}

} // verus!
