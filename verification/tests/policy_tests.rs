use ai_sandbox_landlock::caps::{Capability, CapabilitySet};
use ai_sandbox_landlock::config::{
    access_from_control, access_from_permissions, check_config_version, find_profile,
    AccessRootGroup, CommandSpec, Config, ControlAccess, Permissions, Profile,
};
use ai_sandbox_landlock::errors::ConfigError;
use ai_sandbox_landlock::policy::{
    compile_profile, compile_root, filter_supported, projects_root_settings,
    ruleset_report_profile, ruleset_report_root,
};

fn no_permissions() -> Permissions {
    Permissions {
        read_file: None,
        read_dir: None,
        execute: None,
        write_file: None,
        remove_file: None,
        remove_dir: None,
        truncate: None,
    }
}

fn no_control() -> ControlAccess {
    ControlAccess {
        read_file: None,
        read_dir: None,
        execute: None,
        write_file: None,
        remove_file: None,
        remove_dir: None,
        truncate: None,
    }
}

fn true_command() -> CommandSpec {
    CommandSpec {
        binary: "/bin/true".to_string(),
        args: vec![],
        working_dir: None,
        env: None,
    }
}

#[test]
fn test_permissions_mapping_read_only() {
    let perms = Permissions {
        read_file: Some(true),
        read_dir: Some(true),
        ..no_permissions()
    };
    let set = access_from_permissions(&perms);
    assert!(set.contains(Capability::ReadFile));
    assert!(set.contains(Capability::ReadDir));
    assert!(!set.contains(Capability::WriteFile));
}

#[test]
fn test_control_mapping_execute() {
    let ctrl = ControlAccess {
        execute: Some(true),
        ..no_control()
    };
    let set = access_from_control(&ctrl);
    assert!(set.contains(Capability::Execute));
    assert!(!set.contains(Capability::WriteFile));
}

#[test]
fn all_false_or_absent_permissions_compile_to_empty_set() {
    let absent = access_from_permissions(&no_permissions());
    assert!(absent.is_empty());
    let explicit = access_from_permissions(&Permissions {
        read_file: Some(false),
        read_dir: Some(false),
        execute: Some(false),
        write_file: Some(false),
        remove_file: Some(false),
        remove_dir: Some(false),
        truncate: Some(false),
    });
    assert!(explicit.is_empty());
}

#[test]
fn scenario_single_group_read_permissions() {
    let profile = Profile {
        description: None,
        access_roots: vec![AccessRootGroup {
            name: "projects".to_string(),
            paths: vec!["/tmp/proj".to_string()],
            permissions: Permissions {
                read_file: Some(true),
                read_dir: Some(true),
                ..no_permissions()
            },
        }],
        control_access: no_control(),
        command: true_command(),
        log_level: None,
        dry_run: None,
    };
    let compiled = compile_profile(&profile, None).unwrap();
    let expected = CapabilitySet {
        read_file: true,
        read_dir: true,
        execute: false,
        write_file: false,
        remove_file: false,
        remove_dir: false,
        truncate: false,
    };
    assert_eq!(compiled.handled, expected);
    assert_eq!(compiled.rules.len(), 1);
    assert_eq!(compiled.rules[0].path, "/tmp/proj");
    assert_eq!(compiled.rules[0].allowed, expected);
}

#[test]
fn scenario_degraded_read_only_root() {
    let compiled = compile_root("/usr", true, None).unwrap();
    let expected = CapabilitySet {
        read_file: true,
        read_dir: true,
        execute: true,
        write_file: false,
        remove_file: false,
        remove_dir: false,
        truncate: false,
    };
    assert_eq!(compiled.handled, expected);
    assert_eq!(compiled.rules.len(), 1);
    assert_eq!(compiled.rules[0].path, "/usr");
    assert_eq!(compiled.rules[0].allowed, expected);
}

#[test]
fn scenario_degraded_read_write_root_gets_full_domain() {
    let compiled = compile_root("/tmp/proj", false, None).unwrap();
    assert_eq!(compiled.handled, CapabilitySet::full());
    assert_eq!(compiled.rules.len(), 1);
    assert_eq!(compiled.rules[0].allowed, CapabilitySet::full());
}

#[test]
fn scenario_unsupported_capability_is_split_off_not_escalated() {
    let mut requested = CapabilitySet::empty();
    requested.read_file = true;
    requested.truncate = true;
    let supported = ai_sandbox_landlock::abi::supported_access();
    let (effective, ignored) = filter_supported(&requested, &supported);
    assert!(effective.contains(Capability::ReadFile));
    assert!(!effective.contains(Capability::Truncate));
    assert!(ignored.contains(Capability::Truncate));
    assert!(!ignored.contains(Capability::ReadFile));
    let names = ai_sandbox_landlock::abi::unsupported_names(&requested);
    assert_eq!(names, vec!["Truncate"]);
}

#[test]
fn scenario_empty_profile_compiles_to_nothing_and_restricts_nothing() {
    let profile = Profile {
        description: None,
        access_roots: vec![],
        control_access: no_control(),
        command: true_command(),
        log_level: None,
        dry_run: None,
    };
    let compiled = compile_profile(&profile, None).unwrap();
    // Explicitly: this is not an error, the mask is empty and there are no
    // rules, so nothing is handled and the launch is unrestricted.
    assert!(compiled.handled.is_empty());
    assert_eq!(compiled.rules.len(), 0);
    let supported = ai_sandbox_landlock::abi::supported_access();
    let (effective, ignored) = filter_supported(&compiled.handled, &supported);
    assert!(effective.is_empty());
    assert!(ignored.is_empty());
}

#[test]
fn same_path_in_two_groups_keeps_both_rules() {
    let profile = Profile {
        description: None,
        access_roots: vec![
            AccessRootGroup {
                name: "readers".to_string(),
                paths: vec!["/tmp/shared".to_string()],
                permissions: Permissions {
                    read_file: Some(true),
                    read_dir: Some(true),
                    ..no_permissions()
                },
            },
            AccessRootGroup {
                name: "writers".to_string(),
                paths: vec!["/tmp/shared".to_string()],
                permissions: Permissions {
                    write_file: Some(true),
                    remove_file: Some(true),
                    ..no_permissions()
                },
            },
        ],
        control_access: no_control(),
        command: true_command(),
        log_level: None,
        dry_run: None,
    };
    let compiled = compile_profile(&profile, None).unwrap();
    assert_eq!(compiled.rules.len(), 2);
    assert_eq!(compiled.rules[0].path, "/tmp/shared");
    assert_eq!(compiled.rules[1].path, "/tmp/shared");
    let reads = CapabilitySet {
        read_file: true,
        read_dir: true,
        execute: false,
        write_file: false,
        remove_file: false,
        remove_dir: false,
        truncate: false,
    };
    let writes = CapabilitySet {
        read_file: false,
        read_dir: false,
        execute: false,
        write_file: true,
        remove_file: true,
        remove_dir: false,
        truncate: false,
    };
    assert_eq!(compiled.rules[0].allowed, reads);
    assert_eq!(compiled.rules[1].allowed, writes);
    // Kernel semantics take the union of matching rules at the path.
    assert_eq!(compiled.rules[0].allowed.union(&compiled.rules[1].allowed), reads.union(&writes));
    assert_eq!(compiled.handled, reads.union(&writes));
}

#[test]
fn compile_profile_rejects_home_relative_path_without_home() {
    let profile = Profile {
        description: None,
        access_roots: vec![AccessRootGroup {
            name: "cache".to_string(),
            paths: vec!["~/cache".to_string()],
            permissions: Permissions {
                read_file: Some(true),
                ..no_permissions()
            },
        }],
        control_access: no_control(),
        command: true_command(),
        log_level: None,
        dry_run: None,
    };
    assert_eq!(compile_profile(&profile, None), Err(ConfigError::HomeUnresolved));
}

#[test]
fn compile_profile_expands_home_relative_paths() {
    let profile = Profile {
        description: None,
        access_roots: vec![AccessRootGroup {
            name: "cache".to_string(),
            paths: vec!["~/cache".to_string()],
            permissions: Permissions {
                read_file: Some(true),
                ..no_permissions()
            },
        }],
        control_access: no_control(),
        command: true_command(),
        log_level: None,
        dry_run: None,
    };
    let home = "/home/someone".to_string();
    let compiled = compile_profile(&profile, Some(&home)).unwrap();
    assert_eq!(compiled.rules[0].path, "/home/someone/cache");
}

#[test]
fn control_access_widens_the_mask_without_binding_paths() {
    let profile = Profile {
        description: None,
        access_roots: vec![AccessRootGroup {
            name: "projects".to_string(),
            paths: vec!["/tmp/proj".to_string()],
            permissions: Permissions {
                read_file: Some(true),
                ..no_permissions()
            },
        }],
        control_access: ControlAccess {
            execute: Some(true),
            ..no_control()
        },
        command: true_command(),
        log_level: None,
        dry_run: None,
    };
    let compiled = compile_profile(&profile, None).unwrap();
    assert!(compiled.handled.contains(Capability::ReadFile));
    assert!(compiled.handled.contains(Capability::Execute));
    assert_eq!(compiled.rules.len(), 1);
    assert!(!compiled.rules[0].allowed.contains(Capability::Execute));
}

#[test]
fn test_print_ruleset_profile_runs() {
    let group = AccessRootGroup {
        name: "system".to_string(),
        paths: vec!["/usr".to_string()],
        permissions: Permissions {
            read_file: Some(true),
            read_dir: Some(true),
            execute: Some(true),
            ..no_permissions()
        },
    };
    let profile = Profile {
        description: Some("test".to_string()),
        access_roots: vec![group],
        control_access: ControlAccess {
            read_file: Some(true),
            read_dir: Some(true),
            execute: Some(true),
            ..no_control()
        },
        command: true_command(),
        log_level: Some("info".to_string()),
        dry_run: Some(true),
    };
    let r = ruleset_report_profile(&profile, None);
    assert!(r.is_ok());
    let rep = r.unwrap();
    assert_eq!(rep.handled, vec!["ReadFile", "ReadDir", "Execute"]);
    assert_eq!(rep.groups.len(), 1);
    assert_eq!(rep.groups[0].name, "system");
    assert_eq!(rep.groups[0].paths, vec!["/usr".to_string()]);
}

#[test]
fn root_report_holds_the_normalized_root_and_allowed_names() {
    let rep = ruleset_report_root("/usr", true, None).unwrap();
    assert_eq!(rep.handled, vec!["ReadFile", "ReadDir", "Execute"]);
    assert_eq!(rep.groups.len(), 1);
    assert_eq!(rep.groups[0].paths, vec!["/usr".to_string()]);
    assert!(rep.ignored.is_empty());
}

#[test]
fn config_version_one_or_absent_is_accepted() {
    assert!(check_config_version(None).is_ok());
    assert!(check_config_version(Some(1)).is_ok());
    assert_eq!(check_config_version(Some(2)), Err(ConfigError::UnsupportedVersion(2)));
    assert_eq!(check_config_version(Some(0)), Err(ConfigError::UnsupportedVersion(0)));
}

#[test]
fn find_profile_returns_first_match_by_name() {
    let mk = |desc: &str| Profile {
        description: Some(desc.to_string()),
        access_roots: vec![],
        control_access: no_control(),
        command: true_command(),
        log_level: None,
        dry_run: None,
    };
    let cfg = Config {
        version: Some(1),
        profiles: vec![
            ("alpha".to_string(), mk("first")),
            ("beta".to_string(), mk("second")),
            ("alpha".to_string(), mk("shadowed")),
        ],
    };
    let name = "alpha".to_string();
    let p = find_profile(&cfg, &name).unwrap();
    assert_eq!(p.description, Some("first".to_string()));
    let missing = "gamma".to_string();
    assert!(find_profile(&cfg, &missing).is_none());
}

#[test]
fn projects_group_drives_degraded_settings() {
    let profile = Profile {
        description: None,
        access_roots: vec![
            AccessRootGroup {
                name: "system".to_string(),
                paths: vec!["/usr".to_string()],
                permissions: Permissions {
                    read_file: Some(true),
                    ..no_permissions()
                },
            },
            AccessRootGroup {
                name: "projects".to_string(),
                paths: vec!["/tmp/proj".to_string(), "/tmp/other".to_string()],
                permissions: Permissions {
                    read_file: Some(true),
                    write_file: Some(true),
                    ..no_permissions()
                },
            },
        ],
        control_access: no_control(),
        command: true_command(),
        log_level: None,
        dry_run: None,
    };
    let settings = projects_root_settings(&profile, None).unwrap();
    assert_eq!(settings, Some(("/tmp/proj".to_string(), false)));

    let read_only = Profile {
        access_roots: vec![AccessRootGroup {
            name: "projects".to_string(),
            paths: vec!["/tmp/proj".to_string()],
            permissions: Permissions {
                read_file: Some(true),
                ..no_permissions()
            },
        }],
        ..profile
    };
    assert_eq!(
        projects_root_settings(&read_only, None).unwrap(),
        Some(("/tmp/proj".to_string(), true))
    );

    let none = Profile {
        access_roots: vec![],
        ..read_only
    };
    assert_eq!(projects_root_settings(&none, None).unwrap(), None);
}
