//! The declarative configuration model: per-capability permission records,
//! named groups of paths, profiles, and the starter configuration document.
//!
//! A configuration document is decoded outside this library and handed in as
//! already-structured values; it is immutable once loaded.

use vstd::prelude::*;
use vstd::string::*;

use crate::caps::CapabilitySet;
use crate::errors::ConfigError;

verus! {

/// Whether an optional permission field grants its capability: absent means
/// false.
pub open spec fn granted(o: Option<bool>) -> bool {
    o == Some(true)
}

/// Per-capability optional booleans for one group of paths. Purely a
/// configuration record, with no identity of its own.
#[derive(Clone, Debug, PartialEq, Eq)]
pub struct Permissions {
    pub read_file: Option<bool>,
    pub read_dir: Option<bool>,
    pub execute: Option<bool>,
    pub write_file: Option<bool>,
    pub remove_file: Option<bool>,
    pub remove_dir: Option<bool>,
    pub truncate: Option<bool>,
}

impl Permissions {
    /// The capability set this record grants.
    pub open spec fn caps(self) -> CapabilitySet {
        CapabilitySet {
            read_file: granted(self.read_file),
            read_dir: granted(self.read_dir),
            execute: granted(self.execute),
            write_file: granted(self.write_file),
            remove_file: granted(self.remove_file),
            remove_dir: granted(self.remove_dir),
            truncate: granted(self.truncate),
        }
    }

    /// The record that grants nothing explicitly.
    pub fn none() -> (r: Permissions)
        ensures
            r == Permissions::none_spec(),
    {
        Permissions {
            read_file: None,
            read_dir: None,
            execute: None,
            write_file: None,
            remove_file: None,
            remove_dir: None,
            truncate: None,
        }
    }

    pub open spec fn none_spec() -> Permissions {
        Permissions {
            read_file: None,
            read_dir: None,
            execute: None,
            write_file: None,
            remove_file: None,
            remove_dir: None,
            truncate: None,
        }
    }
}

/// A global Permissions-shaped record establishing capabilities to be handled
/// independently of any group: it widens the handled mask but binds no path.
#[derive(Clone, Debug, PartialEq, Eq)]
pub struct ControlAccess {
    pub read_file: Option<bool>,
    pub read_dir: Option<bool>,
    pub execute: Option<bool>,
    pub write_file: Option<bool>,
    pub remove_file: Option<bool>,
    pub remove_dir: Option<bool>,
    pub truncate: Option<bool>,
}

impl ControlAccess {
    /// The capability set this record asks to have handled.
    pub open spec fn caps(self) -> CapabilitySet {
        CapabilitySet {
            read_file: granted(self.read_file),
            read_dir: granted(self.read_dir),
            execute: granted(self.execute),
            write_file: granted(self.write_file),
            remove_file: granted(self.remove_file),
            remove_dir: granted(self.remove_dir),
            truncate: granted(self.truncate),
        }
    }

    /// The record that asks for nothing explicitly.
    pub fn none() -> (r: ControlAccess)
        ensures
            r == ControlAccess::none_spec(),
    {
        ControlAccess {
            read_file: None,
            read_dir: None,
            execute: None,
            write_file: None,
            remove_file: None,
            remove_dir: None,
            truncate: None,
        }
    }

    pub open spec fn none_spec() -> ControlAccess {
        ControlAccess {
            read_file: None,
            read_dir: None,
            execute: None,
            write_file: None,
            remove_file: None,
            remove_dir: None,
            truncate: None,
        }
    }
}

/// A permission record with every field false or absent grants the empty
/// capability set.
pub proof fn lemma_no_grants_empty_caps(p: Permissions)
    requires
        p.read_file != Some(true),
        p.read_dir != Some(true),
        p.execute != Some(true),
        p.write_file != Some(true),
        p.remove_file != Some(true),
        p.remove_dir != Some(true),
        p.truncate != Some(true),
    ensures
        p.caps() == CapabilitySet::empty_spec(),
{
}

/// Maps a permission record to the capability set it grants; each field
/// stands for exactly one capability and absent fields grant nothing.
pub fn access_from_permissions(perms: &Permissions) -> (r: CapabilitySet)
    ensures
        r == perms.caps(),
{
    CapabilitySet {
        read_file: perms.read_file == Some(true),
        read_dir: perms.read_dir == Some(true),
        execute: perms.execute == Some(true),
        write_file: perms.write_file == Some(true),
        remove_file: perms.remove_file == Some(true),
        remove_dir: perms.remove_dir == Some(true),
        truncate: perms.truncate == Some(true),
    }
}

/// Maps the global control record to the capability set it asks to have
/// handled.
pub fn access_from_control(ctrl: &ControlAccess) -> (r: CapabilitySet)
    ensures
        r == ctrl.caps(),
{
    CapabilitySet {
        read_file: ctrl.read_file == Some(true),
        read_dir: ctrl.read_dir == Some(true),
        execute: ctrl.execute == Some(true),
        write_file: ctrl.write_file == Some(true),
        remove_file: ctrl.remove_file == Some(true),
        remove_dir: ctrl.remove_dir == Some(true),
        truncate: ctrl.truncate == Some(true),
    }
}

/// A named group: an ordered list of paths sharing exactly one permission
/// record. There is no per-path override within a group.
#[derive(Clone, Debug, PartialEq, Eq)]
pub struct AccessRootGroup {
    pub name: String,
    pub paths: Vec<String>,
    pub permissions: Permissions,
}

impl AccessRootGroup {
    /// Well-formedness: a group binds at least one path.
    pub open spec fn wf(self) -> bool {
        self.paths@.len() > 0
    }
}

/// The command a launch runs: binary, arguments, optional working directory
/// and optional environment overlay.
#[derive(Clone, Debug, PartialEq, Eq)]
pub struct CommandSpec {
    pub binary: String,
    pub args: Vec<String>,
    pub working_dir: Option<String>,
    pub env: Option<Vec<(String, String)>>,
}

/// One declarative launch profile. Immutable once loaded.
#[derive(Clone, Debug, PartialEq, Eq)]
pub struct Profile {
    pub description: Option<String>,
    pub access_roots: Vec<AccessRootGroup>,
    pub control_access: ControlAccess,
    pub command: CommandSpec,
    pub log_level: Option<String>,
    pub dry_run: Option<bool>,
}

impl Profile {
    /// Well-formedness: every group binds at least one path, and group names
    /// are unique — the groups stand for a mapping from name to group.
    pub open spec fn wf(self) -> bool {
        &&& forall|i: int| 0 <= i < self.access_roots@.len() ==> self.access_roots@[i].wf()
        &&& forall|i: int, j: int|
            0 <= i < j < self.access_roots@.len() ==> self.access_roots@[i].name@
                != self.access_roots@[j].name@
    }
}

/// The decoded configuration document: a version tag and named profiles.
#[derive(Clone, Debug, PartialEq, Eq)]
pub struct Config {
    pub version: Option<u32>,
    pub profiles: Vec<(String, Profile)>,
}

impl Config {
    /// Well-formedness: profile names are unique — the entries stand for a
    /// mapping from name to profile.
    pub open spec fn wf(self) -> bool {
        forall|i: int, j: int|
            0 <= i < j < self.profiles@.len() ==> self.profiles@[i].0@ != self.profiles@[j].0@
    }
}

/// Accepts a configuration document's version: absent defaults to the only
/// supported version, 1; anything else is rejected.
pub fn check_config_version(version: Option<u32>) -> (r: Result<(), ConfigError>)
    ensures
        r is Ok <==> (version is None || version == Some(1u32)),
        r is Err ==> (version matches Some(v) && v != 1 && r == Err::<(), ConfigError>(
            ConfigError::UnsupportedVersion(v),
        )),
{
    match version {
        None => Ok(()),
        Some(v) => if v == 1 {
            Ok(())
        } else {
            Err(ConfigError::UnsupportedVersion(v))
        },
    }
}

/// Looks a profile up by name; returns the first entry whose name matches.
pub fn find_profile<'a>(cfg: &'a Config, name: &String) -> (r: Option<&'a Profile>)
    ensures
        match r {
            Some(p) => exists|i: int|
                0 <= i < cfg.profiles@.len() && cfg.profiles@[i].0@ == name@ && *p
                    == cfg.profiles@[i].1 && (forall|j: int|
                    0 <= j < i ==> cfg.profiles@[j].0@ != name@),
            None => forall|i: int| 0 <= i < cfg.profiles@.len() ==> cfg.profiles@[i].0@ != name@,
        },
{
    let n = cfg.profiles.len();
    let mut i: usize = 0;
    while i < n
        invariant
            n == cfg.profiles@.len(),
            i <= n,
            forall|j: int| 0 <= j < i ==> cfg.profiles@[j].0@ != name@,
        decreases n - i,
    {
        if cfg.profiles[i].0.eq(name) {
            return Some(&cfg.profiles[i].1);
        }
        i = i + 1;
    }
    None
}

/// The permission record of the starter profile's `projects` group:
/// read-only access to the project tree, no execution.
pub open spec fn starter_projects_perms() -> Permissions {
    Permissions {
        read_file: Some(true),
        read_dir: Some(true),
        execute: Some(false),
        write_file: Some(false),
        remove_file: Some(false),
        remove_dir: Some(false),
        truncate: Some(false),
    }
}

/// The permission record of the starter profile's `system` group:
/// read and execute, no writes.
pub open spec fn starter_system_perms() -> Permissions {
    Permissions {
        read_file: Some(true),
        read_dir: Some(true),
        execute: Some(true),
        write_file: Some(false),
        remove_file: Some(false),
        remove_dir: Some(false),
        truncate: Some(false),
    }
}

/// The permission record of the starter profile's `cache` group:
/// read, write and file removal inside the cache directory.
pub open spec fn starter_cache_perms() -> Permissions {
    Permissions {
        read_file: Some(true),
        read_dir: Some(true),
        execute: Some(false),
        write_file: Some(true),
        remove_file: Some(true),
        remove_dir: Some(false),
        truncate: Some(false),
    }
}

/// The starter profile's global control record: read and execute handled
/// everywhere, writes left untouched.
pub open spec fn starter_control() -> ControlAccess {
    ControlAccess {
        read_file: Some(true),
        read_dir: Some(true),
        execute: Some(true),
        write_file: Some(false),
        remove_file: Some(false),
        remove_dir: Some(false),
        truncate: Some(false),
    }
}

/// Builds the starter configuration document for a project root: one profile
/// under the given name with three groups (`projects`, `system`, `cache`), a
/// bash command rooted at the project, and an info log level.
///
/// This is pure data templating; nothing here enforces anything.
pub fn starter_config(root: &str, name: &str) -> (c: Config)
    ensures
        c.version == Some(1u32),
        c.wf(),
        c.profiles@.len() == 1,
        c.profiles@[0].0@ == name@,
        ({
            let p = c.profiles@[0].1;
            &&& p.description matches Some(d) && d@ == "Generated profile for "@ + name@
            &&& p.access_roots@.len() == 3
            &&& p.access_roots@[0].name@ == "projects"@
            &&& p.access_roots@[0].paths@.len() == 1
            &&& p.access_roots@[0].paths@[0]@ == root@
            &&& p.access_roots@[0].permissions == starter_projects_perms()
            &&& p.access_roots@[1].name@ == "system"@
            &&& p.access_roots@[1].paths@.len() == 3
            &&& p.access_roots@[1].paths@[0]@ == "/usr"@
            &&& p.access_roots@[1].paths@[1]@ == "/lib"@
            &&& p.access_roots@[1].paths@[2]@ == "/lib64"@
            &&& p.access_roots@[1].permissions == starter_system_perms()
            &&& p.access_roots@[2].name@ == "cache"@
            &&& p.access_roots@[2].paths@.len() == 1
            &&& p.access_roots@[2].paths@[0]@ == "~/.ai-sandbox/cache"@
            &&& p.access_roots@[2].permissions == starter_cache_perms()
            &&& p.control_access == starter_control()
            &&& p.command.binary@ == "/bin/bash"@
            &&& p.command.args@.len() == 0
            &&& p.command.working_dir matches Some(w) && w@ == root@
            &&& p.command.env is None
            &&& p.log_level matches Some(l) && l@ == "info"@
            &&& p.dry_run == Some(false)
            &&& p.wf()
        }),
{
    let projects = AccessRootGroup {
        name: String::from_str("projects"),
        paths: vec![String::from_str(root)],
        permissions: Permissions {
            read_file: Some(true),
            read_dir: Some(true),
            execute: Some(false),
            write_file: Some(false),
            remove_file: Some(false),
            remove_dir: Some(false),
            truncate: Some(false),
        },
    };
    let system = AccessRootGroup {
        name: String::from_str("system"),
        paths: vec![
            String::from_str("/usr"),
            String::from_str("/lib"),
            String::from_str("/lib64"),
        ],
        permissions: Permissions {
            read_file: Some(true),
            read_dir: Some(true),
            execute: Some(true),
            write_file: Some(false),
            remove_file: Some(false),
            remove_dir: Some(false),
            truncate: Some(false),
        },
    };
    let cache = AccessRootGroup {
        name: String::from_str("cache"),
        paths: vec![String::from_str("~/.ai-sandbox/cache")],
        permissions: Permissions {
            read_file: Some(true),
            read_dir: Some(true),
            execute: Some(false),
            write_file: Some(true),
            remove_file: Some(true),
            remove_dir: Some(false),
            truncate: Some(false),
        },
    };
    let profile = Profile {
        description: Some(String::from_str("Generated profile for ").concat(name)),
        access_roots: vec![projects, system, cache],
        control_access: ControlAccess {
            read_file: Some(true),
            read_dir: Some(true),
            execute: Some(true),
            write_file: Some(false),
            remove_file: Some(false),
            remove_dir: Some(false),
            truncate: Some(false),
        },
        command: CommandSpec {
            binary: String::from_str("/bin/bash"),
            args: vec![],
            working_dir: Some(String::from_str(root)),
            env: None,
        },
        log_level: Some(String::from_str("info")),
        dry_run: Some(false),
    };
    proof {
        reveal_strlit("projects");
        reveal_strlit("system");
        reveal_strlit("cache");
        assert("projects"@.len() == 8);
        assert("system"@.len() == 6);
        assert("cache"@.len() == 5);
    }
    Config { version: Some(1), profiles: vec![(String::from_str(name), profile)] }
}

} // verus!
