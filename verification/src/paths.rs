//! Path normalization: the only transformation applied to configured paths is
//! home-relative expansion (`~/...`). Nothing else is canonicalized and
//! existence is not checked here.

use vstd::prelude::*;
use vstd::string::*;

use crate::errors::ConfigError;

verus! {

/// A path string is home-relative when it starts with the two characters `~/`.
pub open spec fn is_home_relative(p: Seq<char>) -> bool {
    p.len() >= 2 && p[0] == '~' && p[1] == '/'
}

/// Home expansion: `~/rest` becomes `home/rest`, with exactly one separator
/// between the home directory and the remainder.
pub open spec fn expand_home(p: Seq<char>, home: Seq<char>) -> Seq<char>
    recommends
        is_home_relative(p),
{
    if home.len() > 0 && home[home.len() - 1] == '/' {
        home + p.subrange(2, p.len() as int)
    } else {
        home + seq!['/'] + p.subrange(2, p.len() as int)
    }
}

/// Whether normalization of `p` can succeed given the (possibly unknown)
/// home directory.
pub open spec fn norm_ok(p: Seq<char>, home: Option<Seq<char>>) -> bool {
    is_home_relative(p) ==> home is Some
}

/// The normalized form of `p`: home-relative paths are expanded, everything
/// else passes through unchanged.
pub open spec fn normalized(p: Seq<char>, home: Option<Seq<char>>) -> Seq<char>
    recommends
        norm_ok(p, home),
{
    if is_home_relative(p) {
        expand_home(p, home.unwrap())
    } else {
        p
    }
}

/// The view of an optional home directory string.
pub open spec fn home_seq(home: Option<&String>) -> Option<Seq<char>> {
    match home {
        Some(h) => Some(h@),
        None => None,
    }
}

/// Expands a leading `~/` to the given home directory; any other path is
/// returned unchanged. Fails exactly when the path is home-relative and no
/// home directory is available.
pub fn normalize_path(p: &str, home: Option<&String>) -> (r: Result<String, ConfigError>)
    ensures
        match r {
            Ok(s) => norm_ok(p@, home_seq(home)) && s@ == normalized(p@, home_seq(home)),
            Err(e) => e == ConfigError::HomeUnresolved && is_home_relative(p@) && home is None,
        },
{
    let n = p.unicode_len();
    let home_rel = n >= 2 && p.get_char(0) == '~' && p.get_char(1) == '/';
    if !home_rel {
        return Ok(String::from_str(p));
    }
    match home {
        None => Err(ConfigError::HomeUnresolved),
        Some(h) => {
            let hn = h.as_str().unicode_len();
            let mut out = h.clone();
            if !(hn >= 1 && h.as_str().get_char(hn - 1) == '/') {
                out.append("/");
                proof {
                    reveal_strlit("/");
                    assert("/"@ =~= seq!['/']);
                }
            }
            let rest = p.substring_char(2, n);
            out.append(rest);
            proof {
                assert(out@ =~= expand_home(p@, h@));
            }
            Ok(out)
        },
    }
}

} // verus!
