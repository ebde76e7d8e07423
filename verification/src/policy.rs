//! The policy compiler: turns a declarative profile, or a degraded
//! single-root request, into a global handled capability mask plus an
//! ordered list of path rules.
//!
//! Policy decisions preserved exactly: the same path under several groups
//! keeps every resulting rule (downstream kernel semantics take the union of
//! matching rules, so the broadest declared access wins); an empty profile
//! compiles to an empty mask and zero rules, which is not an error; and a
//! requested capability the negotiated set cannot enforce is dropped from
//! what reaches the enforcer and reported separately, never escalated.

use vstd::prelude::*;
use vstd::string::*;

use crate::abi::{supported_caps, unsupported_names};
use crate::caps::{access_names, name_views, names_seq, CapabilitySet};
use crate::config::{granted, AccessRootGroup, Permissions, Profile};
use crate::errors::ConfigError;
use crate::launch::str_views;
use crate::paths::{home_seq, norm_ok, normalize_path, normalized};

verus! {

/// A resolved (normalized path, allowed capability set) pair: the compiled
/// output unit handed to the enforcer.
#[derive(Clone, Debug, PartialEq, Eq)]
pub struct PathRule {
    pub path: String,
    pub allowed: CapabilitySet,
}

/// The mathematical content of one path rule.
pub open spec fn rule_model(r: PathRule) -> (Seq<char>, CapabilitySet) {
    (r.path@, r.allowed)
}

/// The mathematical content of a rule list.
pub open spec fn rule_models(rs: Seq<PathRule>) -> Seq<(Seq<char>, CapabilitySet)> {
    rs.map_values(|r: PathRule| rule_model(r))
}

/// Whether every path of a group can be normalized.
pub open spec fn group_norm_ok(g: AccessRootGroup, home: Option<Seq<char>>) -> bool {
    forall|j: int| 0 <= j < g.paths@.len() ==> norm_ok(g.paths@[j]@, home)
}

/// Whether every path of every group can be normalized.
pub open spec fn groups_norm_ok(gs: Seq<AccessRootGroup>, home: Option<Seq<char>>) -> bool {
    forall|i: int| 0 <= i < gs.len() ==> group_norm_ok(gs[i], home)
}

/// One rule per path of a group, in path order, each bound to the group's
/// own allowed set, derived from its own permissions only.
pub open spec fn group_rules(g: AccessRootGroup, home: Option<Seq<char>>) -> Seq<
    (Seq<char>, CapabilitySet),
> {
    Seq::new(g.paths@.len(), |j: int| (normalized(g.paths@[j]@, home), g.permissions.caps()))
}

/// The rules of a sequence of groups: group order, then path order, kept;
/// nothing is merged or deduplicated.
pub open spec fn groups_rules(gs: Seq<AccessRootGroup>, home: Option<Seq<char>>) -> Seq<
    (Seq<char>, CapabilitySet),
>
    decreases gs.len(),
{
    if gs.len() == 0 {
        Seq::empty()
    } else {
        groups_rules(gs.drop_last(), home) + group_rules(gs.last(), home)
    }
}

/// The union of the groups' allowed sets.
pub open spec fn groups_mask(gs: Seq<AccessRootGroup>) -> CapabilitySet
    decreases gs.len(),
{
    if gs.len() == 0 {
        CapabilitySet::empty_spec()
    } else {
        groups_mask(gs.drop_last()).union_spec(gs.last().permissions.caps())
    }
}

/// The handled mask of a profile: the control-derived set joined with every
/// group's set. No group inherits from another.
pub open spec fn profile_mask(p: Profile) -> CapabilitySet {
    p.control_access.caps().union_spec(groups_mask(p.access_roots@))
}

/// The compiled rules of a profile.
pub open spec fn profile_rules(p: Profile, home: Option<Seq<char>>) -> Seq<
    (Seq<char>, CapabilitySet),
> {
    groups_rules(p.access_roots@, home)
}

/// A compiled policy: the handled mask and the ordered rule list, produced
/// once per launch and consumed exactly once by the enforcer.
#[derive(Clone, Debug, PartialEq, Eq)]
pub struct CompiledPolicy {
    pub handled: CapabilitySet,
    pub rules: Vec<PathRule>,
}

/// Compiles a profile: the handled mask is the union of the control-derived
/// set and every group's set, and each path is normalized and bound to its
/// group's allowed set, one rule per path. Fails exactly when some path is
/// home-relative and no home directory is known.
pub fn compile_profile(profile: &Profile, home: Option<&String>) -> (r: Result<
    CompiledPolicy,
    ConfigError,
>)
    ensures
        match r {
            Ok(c) => groups_norm_ok(profile.access_roots@, home_seq(home)) && c.handled
                == profile_mask(*profile) && rule_models(c.rules@) == profile_rules(
                *profile,
                home_seq(home),
            ),
            Err(e) => e == ConfigError::HomeUnresolved && !groups_norm_ok(
                profile.access_roots@,
                home_seq(home),
            ),
        },
{
    let ghost gs = profile.access_roots@;
    let ghost hm = home_seq(home);
    let mut handled = crate::config::access_from_control(&profile.control_access);
    let mut rules: Vec<PathRule> = Vec::new();
    let n = profile.access_roots.len();
    let mut gi: usize = 0;
    while gi < n
        invariant
            n == gs.len(),
            gi <= n,
            gs == profile.access_roots@,
            hm == home_seq(home),
            handled == profile.control_access.caps().union_spec(groups_mask(gs.take(gi as int))),
            rule_models(rules@) == groups_rules(gs.take(gi as int), hm),
            groups_norm_ok(gs.take(gi as int), hm),
        decreases n - gi,
    {
        let g = &profile.access_roots[gi];
        let caps = crate::config::access_from_permissions(&g.permissions);
        let m = g.paths.len();
        let mut pi: usize = 0;
        while pi < m
            invariant
                n == gs.len(),
                gi < n,
                gs == profile.access_roots@,
                hm == home_seq(home),
                *g == gs[gi as int],
                caps == g.permissions.caps(),
                m == g.paths@.len(),
                pi <= m,
                rule_models(rules@) == groups_rules(gs.take(gi as int), hm) + group_rules(
                    *g,
                    hm,
                ).take(pi as int),
                forall|j: int| 0 <= j < pi ==> norm_ok(g.paths@[j]@, hm),
            decreases m - pi,
        {
            match normalize_path(g.paths[pi].as_str(), home) {
                Err(e) => {
                    proof {
                        assert(!norm_ok(g.paths@[pi as int]@, hm));
                        assert(!group_norm_ok(gs[gi as int], hm));
                        assert(!groups_norm_ok(gs, hm));
                    }
                    return Err(e);
                },
                Ok(np) => {
                    let ghost np_view = np@;
                    let ghost pre = rules@;
                    rules.push(PathRule { path: np, allowed: caps });
                    proof {
                        let pushed = rule_models(rules@);
                        let target = groups_rules(gs.take(gi as int), hm) + group_rules(
                            *g,
                            hm,
                        ).take(pi as int + 1);
                        assert(rule_models(pre) == groups_rules(gs.take(gi as int), hm)
                            + group_rules(*g, hm).take(pi as int));
                        assert(group_rules(*g, hm).len() == m);
                        assert(group_rules(*g, hm).take(pi as int + 1).len() == pi + 1);
                        assert(rules@.len() == pre.len() + 1);
                        assert(rule_models(pre).len() == pre.len());
                        assert(pushed.len() == rules@.len());
                        assert(pushed.len() == target.len());
                        assert forall|k: int| 0 <= k < target.len() implies pushed[k]
                            == target[k] by {
                            if k < target.len() - 1 {
                                assert(pushed[k] == rule_models(pre)[k]);
                                assert(target[k] == (groups_rules(gs.take(gi as int), hm)
                                    + group_rules(*g, hm).take(pi as int))[k]);
                            } else {
                                assert(pushed[k] == (np_view, caps));
                                assert(target[k] == group_rules(*g, hm).take(pi as int + 1)[pi as int]);
                                assert(target[k] == (
                                    normalized(g.paths@[pi as int]@, hm),
                                    g.permissions.caps(),
                                ));
                            }
                        }
                        assert(pushed =~= target);
                    }
                },
            }
            pi = pi + 1;
        }
        handled = handled.union(&caps);
        proof {
            assert(gs.take(gi as int + 1).drop_last() =~= gs.take(gi as int));
            assert(gs.take(gi as int + 1).last() == gs[gi as int]);
            assert(group_rules(*g, hm).take(m as int) =~= group_rules(*g, hm));
            assert(rule_models(rules@) =~= groups_rules(gs.take(gi as int + 1), hm));
            assert(groups_norm_ok(gs.take(gi as int + 1), hm)) by {
                assert(forall|i: int|
                    0 <= i < gi ==> gs.take(gi as int + 1)[i] == gs.take(gi as int)[i]);
                assert(group_norm_ok(gs[gi as int], hm));
            }
        }
        gi = gi + 1;
    }
    proof {
        assert(gs.take(n as int) =~= gs);
    }
    Ok(CompiledPolicy { handled, rules })
}

/// The allowed set of the degraded single-root mode: read-only maps to
/// reading and execution; otherwise the full domain.
pub open spec fn root_allowed_spec(read_only: bool) -> CapabilitySet {
    if read_only {
        CapabilitySet {
            read_file: true,
            read_dir: true,
            execute: true,
            write_file: false,
            remove_file: false,
            remove_dir: false,
            truncate: false,
        }
    } else {
        CapabilitySet::full_spec()
    }
}

/// Compiles the degraded single-root request: one synthetic rule binding the
/// normalized root to the read-only or full allowed set, which is also the
/// handled mask.
pub fn compile_root(root: &str, read_only: bool, home: Option<&String>) -> (r: Result<
    CompiledPolicy,
    ConfigError,
>)
    ensures
        match r {
            Ok(c) => norm_ok(root@, home_seq(home)) && c.handled == root_allowed_spec(read_only)
                && rule_models(c.rules@) == seq![
                (normalized(root@, home_seq(home)), root_allowed_spec(read_only)),
            ],
            Err(e) => e == ConfigError::HomeUnresolved && !norm_ok(root@, home_seq(home)),
        },
{
    let np = match normalize_path(root, home) {
        Ok(np) => np,
        Err(e) => {
            return Err(e);
        },
    };
    let allowed = if read_only {
        CapabilitySet {
            read_file: true,
            read_dir: true,
            execute: true,
            write_file: false,
            remove_file: false,
            remove_dir: false,
            truncate: false,
        }
    } else {
        CapabilitySet::full()
    };
    let rules = vec![PathRule { path: np, allowed }];
    proof {
        assert(rule_models(rules@) =~= seq![
            (normalized(root@, home_seq(home)), root_allowed_spec(read_only)),
        ]);
    }
    Ok(CompiledPolicy { handled: allowed, rules })
}

/// Whether `i` is the first group of `gs` with the given name.
pub open spec fn is_first_named(gs: Seq<AccessRootGroup>, name: Seq<char>, i: int) -> bool {
    &&& 0 <= i < gs.len()
    &&& gs[i].name@ == name
    &&& forall|k: int| 0 <= k < i ==> gs[k].name@ != name
}

/// Whether a permission record leaves its paths read-only: no write, no
/// file removal, no truncation granted.
pub open spec fn read_only_perms(p: Permissions) -> bool {
    !(granted(p.write_file) || granted(p.remove_file) || granted(p.truncate))
}

/// The degraded-mode settings a profile implies: the normalized first path
/// of the group named `projects`, and whether that group's permissions
/// leave it read-only. Yields nothing when no such group exists or the
/// group binds no path.
pub fn projects_root_settings(profile: &Profile, home: Option<&String>) -> (r: Result<
    Option<(String, bool)>,
    ConfigError,
>)
    ensures
        match r {
            Ok(opt) => match opt {
                Some(pair) => exists|i: int|
                    {
                        &&& #[trigger] is_first_named(profile.access_roots@, "projects"@, i)
                        &&& profile.access_roots@[i].paths@.len() > 0
                        &&& norm_ok(profile.access_roots@[i].paths@[0]@, home_seq(home))
                        &&& pair.0@ == normalized(
                            profile.access_roots@[i].paths@[0]@,
                            home_seq(home),
                        )
                        &&& pair.1 == read_only_perms(profile.access_roots@[i].permissions)
                    },
                None => (forall|k: int|
                    0 <= k < profile.access_roots@.len()
                        ==> profile.access_roots@[k].name@ != "projects"@) || (exists|i: int|
                    #[trigger] is_first_named(profile.access_roots@, "projects"@, i)
                        && profile.access_roots@[i].paths@.len() == 0),
            },
            Err(e) => e == ConfigError::HomeUnresolved && exists|i: int|
                #[trigger] is_first_named(profile.access_roots@, "projects"@, i)
                    && profile.access_roots@[i].paths@.len() > 0 && !norm_ok(
                    profile.access_roots@[i].paths@[0]@,
                    home_seq(home),
                ),
        },
{
    let needle = String::from_str("projects");
    let n = profile.access_roots.len();
    let mut i: usize = 0;
    while i < n
        invariant
            n == profile.access_roots@.len(),
            i <= n,
            needle@ == "projects"@,
            forall|k: int| 0 <= k < i ==> profile.access_roots@[k].name@ != "projects"@,
        decreases n - i,
    {
        let g = &profile.access_roots[i];
        if g.name.eq(&needle) {
            proof {
                assert(is_first_named(profile.access_roots@, "projects"@, i as int));
            }
            if g.paths.len() == 0 {
                return Ok(None);
            }
            let first = match normalize_path(g.paths[0].as_str(), home) {
                Ok(p) => p,
                Err(e) => {
                    return Err(e);
                },
            };
            let w = match g.permissions.write_file {
                Some(b) => b,
                None => false,
            };
            let rm = match g.permissions.remove_file {
                Some(b) => b,
                None => false,
            };
            let tr = match g.permissions.truncate {
                Some(b) => b,
                None => false,
            };
            let read_only = !(w || rm || tr);
            return Ok(Some((first, read_only)));
        }
        i = i + 1;
    }
    Ok(None)
}

/// Splits a requested mask against the negotiated supported set: what will
/// actually be enforced, and what is dropped and only reported.
pub fn filter_supported(requested: &CapabilitySet, supported: &CapabilitySet) -> (r: (
    CapabilitySet,
    CapabilitySet,
))
    ensures
        r.0 == requested.intersect_spec(*supported),
        r.1 == requested.difference_spec(*supported),
{
    (requested.intersect(supported), requested.difference(supported))
}

/// The diagnostic view of one group: its name, the names of its allowed
/// capabilities, the names of those the kernel cannot enforce, and its
/// normalized paths.
pub struct GroupReport {
    pub name: String,
    pub allowed: Vec<&'static str>,
    pub ignored: Vec<&'static str>,
    pub paths: Vec<String>,
}

/// The diagnostic view of a compiled policy: handled capability names, the
/// requested-but-unsupported names as a separate list, and one entry per
/// group.
pub struct RulesetReport {
    pub handled: Vec<&'static str>,
    pub ignored: Vec<&'static str>,
    pub groups: Vec<GroupReport>,
}

/// The normalized paths of a group.
pub open spec fn group_paths_norm(g: AccessRootGroup, home: Option<Seq<char>>) -> Seq<Seq<char>> {
    Seq::new(g.paths@.len(), |j: int| normalized(g.paths@[j]@, home))
}

/// What a correct group report says of its group.
pub open spec fn group_report_ok(gr: GroupReport, g: AccessRootGroup, home: Option<Seq<char>>) -> bool {
    &&& gr.name@ == g.name@
    &&& name_views(gr.allowed@) == names_seq(g.permissions.caps())
    &&& name_views(gr.ignored@) == names_seq(
        g.permissions.caps().difference_spec(supported_caps()),
    )
    &&& str_views(gr.paths@) == group_paths_norm(g, home)
}

/// Builds the diagnostic report for a profile's planned ruleset: the
/// handled capability names, the requested-but-unsupported names as a
/// separate list, and per group its allowed and unsupported names with the
/// normalized paths.
pub fn ruleset_report_profile(profile: &Profile, home: Option<&String>) -> (r: Result<
    RulesetReport,
    ConfigError,
>)
    ensures
        match r {
            Ok(rep) => {
                &&& name_views(rep.handled@) == names_seq(profile_mask(*profile))
                &&& name_views(rep.ignored@) == names_seq(
                    profile_mask(*profile).difference_spec(supported_caps()),
                )
                &&& rep.groups@.len() == profile.access_roots@.len()
                &&& forall|i: int|
                    0 <= i < rep.groups@.len() ==> group_report_ok(
                        #[trigger] rep.groups@[i],
                        profile.access_roots@[i],
                        home_seq(home),
                    )
            },
            Err(e) => e == ConfigError::HomeUnresolved && !groups_norm_ok(
                profile.access_roots@,
                home_seq(home),
            ),
        },
{
    let ghost gs = profile.access_roots@;
    let ghost hm = home_seq(home);
    let compiled = match compile_profile(profile, home) {
        Ok(c) => c,
        Err(e) => {
            return Err(e);
        },
    };
    let handled = access_names(&compiled.handled);
    let ignored = unsupported_names(&compiled.handled);
    let mut groups: Vec<GroupReport> = Vec::new();
    let n = profile.access_roots.len();
    let mut gi: usize = 0;
    while gi < n
        invariant
            n == gs.len(),
            gi <= n,
            gs == profile.access_roots@,
            hm == home_seq(home),
            groups_norm_ok(gs, hm),
            groups@.len() == gi,
            forall|i: int|
                0 <= i < gi ==> group_report_ok(#[trigger] groups@[i], gs[i], hm),
        decreases n - gi,
    {
        let g = &profile.access_roots[gi];
        let caps = crate::config::access_from_permissions(&g.permissions);
        let allowed = access_names(&caps);
        let ig = unsupported_names(&caps);
        let m = g.paths.len();
        let mut paths: Vec<String> = Vec::new();
        let mut pi: usize = 0;
        while pi < m
            invariant
                gi < n,
                n == gs.len(),
                gs == profile.access_roots@,
                hm == home_seq(home),
                groups_norm_ok(gs, hm),
                *g == gs[gi as int],
                m == g.paths@.len(),
                pi <= m,
                paths@.len() == pi,
                forall|j: int| 0 <= j < pi ==> paths@[j]@ == normalized(g.paths@[j]@, hm),
            decreases m - pi,
        {
            match normalize_path(g.paths[pi].as_str(), home) {
                Ok(np) => {
                    paths.push(np);
                },
                Err(_) => {
                    proof {
                        assert(norm_ok(g.paths@[pi as int]@, hm));
                        assert(false);
                    }
                },
            }
            pi = pi + 1;
        }
        proof {
            assert forall|j: int| 0 <= j < m implies str_views(paths@)[j] == group_paths_norm(
                gs[gi as int],
                hm,
            )[j] by {
                assert(paths@[j]@ == normalized(g.paths@[j]@, hm));
            }
            assert(str_views(paths@) =~= group_paths_norm(gs[gi as int], hm));
        }
        groups.push(GroupReport { name: g.name.clone(), allowed, ignored: ig, paths });
        gi = gi + 1;
    }
    Ok(RulesetReport { handled, ignored, groups })
}

/// Builds the diagnostic report for the degraded single-root mode: one
/// synthetic group holding the normalized root and the read-only or full
/// allowed set.
pub fn ruleset_report_root(root: &str, read_only: bool, home: Option<&String>) -> (r: Result<
    RulesetReport,
    ConfigError,
>)
    ensures
        match r {
            Ok(rep) => {
                &&& name_views(rep.handled@) == names_seq(root_allowed_spec(read_only))
                &&& name_views(rep.ignored@) == names_seq(
                    root_allowed_spec(read_only).difference_spec(supported_caps()),
                )
                &&& rep.groups@.len() == 1
                &&& rep.groups@[0].name@ == "root"@
                &&& name_views(rep.groups@[0].allowed@) == names_seq(root_allowed_spec(read_only))
                &&& name_views(rep.groups@[0].ignored@) == names_seq(
                    root_allowed_spec(read_only).difference_spec(supported_caps()),
                )
                &&& rep.groups@[0].paths@.len() == 1
                &&& rep.groups@[0].paths@[0]@ == normalized(root@, home_seq(home))
            },
            Err(e) => e == ConfigError::HomeUnresolved && !norm_ok(root@, home_seq(home)),
        },
{
    let compiled = match compile_root(root, read_only, home) {
        Ok(c) => c,
        Err(e) => {
            return Err(e);
        },
    };
    let np = match normalize_path(root, home) {
        Ok(np) => np,
        Err(_) => {
            proof {
                assert(false);
            }
            return Err(ConfigError::HomeUnresolved);
        },
    };
    let handled = access_names(&compiled.handled);
    let ignored = unsupported_names(&compiled.handled);
    let allowed = access_names(&compiled.handled);
    let group = GroupReport {
        name: String::from_str("root"),
        allowed,
        ignored: unsupported_names(&compiled.handled),
        paths: vec![np],
    };
    Ok(RulesetReport { handled, ignored, groups: vec![group] })
}

/// Two groups binding the identical path compile to two independent rules,
/// one per group in group order — nothing is merged and nothing is lost —
/// and the access they jointly allow at that path is exactly the union of
/// the two groups' sets, since downstream kernel semantics take the union
/// of matching rules.
pub proof fn lemma_same_path_two_rules(p: Profile, home: Option<Seq<char>>, path: Seq<char>)
    requires
        p.access_roots@.len() == 2,
        p.access_roots@[0].paths@.len() == 1,
        p.access_roots@[0].paths@[0]@ == path,
        p.access_roots@[1].paths@.len() == 1,
        p.access_roots@[1].paths@[0]@ == path,
    ensures
        profile_rules(p, home).len() == 2,
        profile_rules(p, home)[0] == (normalized(path, home), p.access_roots@[0].permissions.caps()),
        profile_rules(p, home)[1] == (normalized(path, home), p.access_roots@[1].permissions.caps()),
        profile_rules(p, home)[0].1.union_spec(profile_rules(p, home)[1].1)
            == p.access_roots@[0].permissions.caps().union_spec(
            p.access_roots@[1].permissions.caps(),
        ),
{
    let gs = p.access_roots@;
    assert(gs.drop_last().drop_last() =~= Seq::<AccessRootGroup>::empty());
    assert(gs.drop_last().last() == gs[0]);
    assert(groups_rules(Seq::<AccessRootGroup>::empty(), home) =~= Seq::<
        (Seq<char>, CapabilitySet),
    >::empty());
    assert(groups_rules(gs.drop_last(), home) =~= group_rules(gs[0], home));
    assert(profile_rules(p, home) =~= group_rules(gs[0], home) + group_rules(gs[1], home));
}

/// An empty groups mapping together with a control record granting nothing
/// compiles to an empty handled mask and zero rules. This is not an error;
/// nothing is handled, so it is equivalent to no filesystem restriction at
/// all for the launch (handled-but-unbound would be default-deny; unhandled
/// is untouched), and the enforcer is bypassed rather than entered.
pub proof fn lemma_empty_profile_compiles_empty(p: Profile, home: Option<Seq<char>>)
    requires
        p.access_roots@.len() == 0,
        p.control_access.caps() == CapabilitySet::empty_spec(),
    ensures
        profile_mask(p) == CapabilitySet::empty_spec(),
        profile_rules(p, home).len() == 0,
        profile_mask(p).intersect_spec(supported_caps()).is_empty_spec(),
{
}

} // verus!
