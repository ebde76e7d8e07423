//! Launch planning: resolving the command to run, normalizing its working
//! directory and environment overlay, and mapping a child's termination to
//! an exit status. The actual spawn and wait happen outside this library,
//! strictly after enforcement has succeeded or been explicitly skipped.

use vstd::prelude::*;
use vstd::string::*;

use crate::config::CommandSpec;
use crate::errors::ConfigError;
use crate::paths::{home_seq, norm_ok, normalize_path, normalized};

verus! {

/// The views of a list of strings.
pub open spec fn str_views(v: Seq<String>) -> Seq<Seq<char>> {
    v.map_values(|s: String| s@)
}

/// The views of an environment overlay.
pub open spec fn env_views(v: Seq<(String, String)>) -> Seq<(Seq<char>, Seq<char>)> {
    v.map_values(|kv: (String, String)| (kv.0@, kv.1@))
}

/// Clones a list of strings, keeping every element's contents.
fn clone_strings(v: &Vec<String>) -> (r: Vec<String>)
    ensures
        str_views(r@) == str_views(v@),
{
    let mut r: Vec<String> = Vec::new();
    let n = v.len();
    let mut i: usize = 0;
    while i < n
        invariant
            n == v@.len(),
            i <= n,
            r@.len() == i,
            forall|k: int| 0 <= k < i ==> r@[k]@ == v@[k]@,
        decreases n - i,
    {
        r.push(v[i].clone());
        i = i + 1;
    }
    proof {
        assert forall|k: int| 0 <= k < v@.len() implies str_views(r@)[k] == str_views(v@)[k] by {
            assert(r@[k]@ == v@[k]@);
        }
        assert(str_views(r@) =~= str_views(v@));
    }
    r
}

/// The command actually run: an explicit command wins; an empty one falls
/// back to the profile's binary and arguments; with neither, it stays empty.
pub fn resolve_command(cli: &Vec<String>, profile_cmd: Option<&CommandSpec>) -> (r: Vec<String>)
    ensures
        cli@.len() > 0 ==> str_views(r@) == str_views(cli@),
        cli@.len() == 0 ==> match profile_cmd {
            Some(cs) => str_views(r@) == seq![cs.binary@] + str_views(cs.args@),
            None => r@.len() == 0,
        },
{
    if cli.len() > 0 {
        return clone_strings(cli);
    }
    match profile_cmd {
        None => Vec::new(),
        Some(cs) => {
            let mut r: Vec<String> = Vec::new();
            r.push(cs.binary.clone());
            let n = cs.args.len();
            let mut i: usize = 0;
            while i < n
                invariant
                    n == cs.args@.len(),
                    i <= n,
                    r@.len() == i + 1,
                    r@[0]@ == cs.binary@,
                    forall|k: int| 0 <= k < i ==> r@[k + 1]@ == cs.args@[k]@,
                decreases n - i,
            {
                r.push(cs.args[i].clone());
                i = i + 1;
            }
            proof {
                let target = seq![cs.binary@] + str_views(cs.args@);
                assert forall|k: int| 0 <= k < r@.len() implies str_views(r@)[k] == target[k] by {
                    if k == 0 {
                        assert(r@[0]@ == cs.binary@);
                    } else {
                        assert(r@[(k - 1) + 1]@ == cs.args@[k - 1]@);
                    }
                }
                assert(str_views(r@) =~= target);
            }
            r
        },
    }
}

/// Everything the spawn needs, fully resolved: the binary, its arguments,
/// the normalized working directory if one was configured, and the
/// normalized environment overlay. Whether the working directory exists is
/// checked by the caller, outside this library, before the spawn.
pub struct LaunchPlan {
    pub binary: String,
    pub args: Vec<String>,
    pub working_dir: Option<String>,
    pub env: Vec<(String, String)>,
}

/// Whether every path-like value of a command record can be normalized.
pub open spec fn command_norm_ok(cs: CommandSpec, home: Option<Seq<char>>) -> bool {
    &&& (cs.working_dir matches Some(wd) ==> norm_ok(wd@, home))
    &&& (cs.env matches Some(evs) ==> forall|i: int|
        0 <= i < evs@.len() ==> norm_ok(evs@[i].1@, home))
}

/// The planned environment overlay: keys pass through, home-relative values
/// are expanded, all other values pass through unchanged.
pub open spec fn env_plan(evs: Seq<(String, String)>, home: Option<Seq<char>>) -> Seq<
    (Seq<char>, Seq<char>),
> {
    evs.map_values(|kv: (String, String)| (kv.0@, normalized(kv.1@, home)))
}

/// Builds the launch plan for a resolved command: the first element is the
/// binary, the rest are its arguments; the configured working directory and
/// home-relative environment values are normalized. Fails on an empty
/// command, or when normalization needs a home directory nobody knows.
pub fn plan_command(
    cmd: &Vec<String>,
    profile_cmd: Option<&CommandSpec>,
    home: Option<&String>,
) -> (r: Result<LaunchPlan, ConfigError>)
    ensures
        match r {
            Ok(plan) => {
                &&& cmd@.len() > 0
                &&& plan.binary@ == cmd@[0]@
                &&& str_views(plan.args@) == str_views(cmd@).drop_first()
                &&& match profile_cmd {
                    None => plan.working_dir is None && plan.env@.len() == 0,
                    Some(cs) => {
                        &&& command_norm_ok(*cs, home_seq(home))
                        &&& match cs.working_dir {
                            None => plan.working_dir is None,
                            Some(wd) => plan.working_dir matches Some(w) && w@ == normalized(
                                wd@,
                                home_seq(home),
                            ),
                        }
                        &&& match cs.env {
                            None => plan.env@.len() == 0,
                            Some(evs) => env_views(plan.env@) == env_plan(evs@, home_seq(home)),
                        }
                    },
                }
            },
            Err(e) => (e == ConfigError::EmptyCommand && cmd@.len() == 0) || (e
                == ConfigError::HomeUnresolved && cmd@.len() > 0 && (profile_cmd matches Some(cs)
                && !command_norm_ok(*cs, home_seq(home)))),
        },
{
    if cmd.len() == 0 {
        return Err(ConfigError::EmptyCommand);
    }
    let binary = cmd[0].clone();
    let mut args: Vec<String> = Vec::new();
    let n = cmd.len();
    let mut i: usize = 1;
    while i < n
        invariant
            n == cmd@.len(),
            1 <= i <= n,
            args@.len() == i - 1,
            forall|k: int| 0 <= k < i - 1 ==> args@[k]@ == cmd@[k + 1]@,
        decreases n - i,
    {
        args.push(cmd[i].clone());
        i = i + 1;
    }
    proof {
        assert forall|k: int| 0 <= k < n - 1 implies str_views(args@)[k] == str_views(
            cmd@,
        ).drop_first()[k] by {
            assert(args@[k]@ == cmd@[k + 1]@);
        }
        assert(str_views(args@) =~= str_views(cmd@).drop_first());
    }
    let mut working_dir: Option<String> = None;
    let mut env: Vec<(String, String)> = Vec::new();
    match profile_cmd {
        None => {},
        Some(cs) => {
            match &cs.working_dir {
                None => {},
                Some(wd) => {
                    match normalize_path(wd.as_str(), home) {
                        Ok(w) => {
                            working_dir = Some(w);
                        },
                        Err(e) => {
                            return Err(e);
                        },
                    }
                },
            }
            match &cs.env {
                None => {},
                Some(evs) => {
                    let m = evs.len();
                    let mut j: usize = 0;
                    while j < m
                        invariant
                            cmd@.len() > 0,
                            profile_cmd matches Some(x) && *x == *cs,
                            cs.env matches Some(ev) && ev@ == evs@,
                            m == evs@.len(),
                            j <= m,
                            env@.len() == j,
                            forall|k: int| 0 <= k < j ==> norm_ok(evs@[k].1@, home_seq(home)),
                            forall|k: int|
                                0 <= k < j ==> env@[k].0@ == evs@[k].0@ && env@[k].1@ == normalized(
                                    evs@[k].1@,
                                    home_seq(home),
                                ),
                        decreases m - j,
                    {
                        let key = evs[j].0.clone();
                        match normalize_path(evs[j].1.as_str(), home) {
                            Ok(v) => {
                                env.push((key, v));
                            },
                            Err(e) => {
                                proof {
                                    assert(!norm_ok(evs@[j as int].1@, home_seq(home)));
                                    assert(!command_norm_ok(*cs, home_seq(home)));
                                }
                                return Err(e);
                            },
                        }
                        j = j + 1;
                    }
                    proof {
                        assert forall|k: int| 0 <= k < m implies env_views(env@)[k] == env_plan(
                            evs@,
                            home_seq(home),
                        )[k] by {
                            assert(env@[k].0@ == evs@[k].0@);
                            assert(env@[k].1@ == normalized(evs@[k].1@, home_seq(home)));
                        }
                        assert(env_views(env@) =~= env_plan(evs@, home_seq(home)));
                    }
                },
            }
        },
    }
    Ok(LaunchPlan { binary, args, working_dir, env })
}

/// Maps a child's termination to an exit status: an explicit exit code is
/// returned as-is; death by signal maps to the fixed fallback status 1,
/// never to zero.
pub fn exit_status_code(code: Option<i32>) -> (r: i32)
    ensures
        code matches Some(c) ==> r == c,
        code is None ==> r == 1,
{
    match code {
        Some(c) => c,
        None => 1,
    }
}

} // verus!
