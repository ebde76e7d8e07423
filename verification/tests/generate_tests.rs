use ai_sandbox_landlock::config::{
    starter_config, AccessRootGroup, CommandSpec, Config, ControlAccess, Permissions, Profile,
};
use serde_yaml::{Mapping, Value};

fn vstr(s: &str) -> Value {
    Value::String(s.to_string())
}

fn opt_bool_value(o: &Option<bool>) -> Value {
    match o {
        Some(b) => Value::Bool(*b),
        None => Value::Null,
    }
}

fn perm_fields_value(fields: [&Option<bool>; 7]) -> Value {
    let names = [
        "read_file",
        "read_dir",
        "execute",
        "write_file",
        "remove_file",
        "remove_dir",
        "truncate",
    ];
    let mut m = Mapping::new();
    for (name, field) in names.iter().zip(fields.iter()) {
        m.insert(vstr(name), opt_bool_value(field));
    }
    Value::Mapping(m)
}

fn permissions_value(p: &Permissions) -> Value {
    perm_fields_value([
        &p.read_file,
        &p.read_dir,
        &p.execute,
        &p.write_file,
        &p.remove_file,
        &p.remove_dir,
        &p.truncate,
    ])
}

fn control_value(c: &ControlAccess) -> Value {
    perm_fields_value([
        &c.read_file,
        &c.read_dir,
        &c.execute,
        &c.write_file,
        &c.remove_file,
        &c.remove_dir,
        &c.truncate,
    ])
}

fn config_value(cfg: &Config) -> Value {
    let mut root = Mapping::new();
    root.insert(
        vstr("version"),
        match cfg.version {
            Some(v) => Value::Number(v.into()),
            None => Value::Null,
        },
    );
    let mut profiles = Mapping::new();
    for (name, p) in &cfg.profiles {
        let mut pm = Mapping::new();
        pm.insert(
            vstr("description"),
            match &p.description {
                Some(d) => vstr(d),
                None => Value::Null,
            },
        );
        let mut groups = Mapping::new();
        for g in &p.access_roots {
            let mut gm = Mapping::new();
            gm.insert(
                vstr("paths"),
                Value::Sequence(g.paths.iter().map(|s| vstr(s)).collect()),
            );
            gm.insert(vstr("permissions"), permissions_value(&g.permissions));
            groups.insert(vstr(&g.name), Value::Mapping(gm));
        }
        pm.insert(vstr("access_roots"), Value::Mapping(groups));
        pm.insert(vstr("control_access"), control_value(&p.control_access));
        let mut cm = Mapping::new();
        cm.insert(vstr("binary"), vstr(&p.command.binary));
        cm.insert(
            vstr("args"),
            Value::Sequence(p.command.args.iter().map(|s| vstr(s)).collect()),
        );
        cm.insert(
            vstr("working_dir"),
            match &p.command.working_dir {
                Some(w) => vstr(w),
                None => Value::Null,
            },
        );
        cm.insert(
            vstr("env"),
            match &p.command.env {
                Some(kvs) => {
                    let mut em = Mapping::new();
                    for (k, v) in kvs {
                        em.insert(vstr(k), vstr(v));
                    }
                    Value::Mapping(em)
                },
                None => Value::Null,
            },
        );
        pm.insert(vstr("command"), Value::Mapping(cm));
        pm.insert(
            vstr("log_level"),
            match &p.log_level {
                Some(l) => vstr(l),
                None => Value::Null,
            },
        );
        pm.insert(
            vstr("dry_run"),
            match p.dry_run {
                Some(b) => Value::Bool(b),
                None => Value::Null,
            },
        );
        profiles.insert(vstr(name), Value::Mapping(pm));
    }
    root.insert(vstr("profiles"), Value::Mapping(profiles));
    Value::Mapping(root)
}

fn get<'a>(m: &'a Mapping, key: &str) -> &'a Value {
    m.get(&vstr(key)).expect("missing key")
}

fn opt_bool_back(v: &Value) -> Option<bool> {
    if v.is_null() { None } else { Some(v.as_bool().expect("expected bool")) }
}

fn opt_string_back(v: &Value) -> Option<String> {
    if v.is_null() { None } else { Some(v.as_str().expect("expected string").to_string()) }
}

fn perm_fields_back(v: &Value) -> [Option<bool>; 7] {
    let m = v.as_mapping().expect("expected permission mapping");
    [
        opt_bool_back(get(m, "read_file")),
        opt_bool_back(get(m, "read_dir")),
        opt_bool_back(get(m, "execute")),
        opt_bool_back(get(m, "write_file")),
        opt_bool_back(get(m, "remove_file")),
        opt_bool_back(get(m, "remove_dir")),
        opt_bool_back(get(m, "truncate")),
    ]
}

fn config_back(v: &Value) -> Config {
    let root = v.as_mapping().expect("expected document mapping");
    let version = match get(root, "version") {
        Value::Null => None,
        v => Some(v.as_u64().expect("expected integer version") as u32),
    };
    let mut profiles = Vec::new();
    for (name, pv) in get(root, "profiles").as_mapping().expect("expected profiles mapping") {
        let pm = pv.as_mapping().expect("expected profile mapping");
        let mut access_roots = Vec::new();
        for (gname, gv) in get(pm, "access_roots").as_mapping().expect("expected groups mapping") {
            let gm = gv.as_mapping().expect("expected group mapping");
            let paths = get(gm, "paths")
                .as_sequence()
                .expect("expected path sequence")
                .iter()
                .map(|s| s.as_str().expect("expected path string").to_string())
                .collect();
            let [read_file, read_dir, execute, write_file, remove_file, remove_dir, truncate] =
                perm_fields_back(get(gm, "permissions"));
            access_roots.push(AccessRootGroup {
                name: gname.as_str().expect("expected group name").to_string(),
                paths,
                permissions: Permissions {
                    read_file,
                    read_dir,
                    execute,
                    write_file,
                    remove_file,
                    remove_dir,
                    truncate,
                },
            });
        }
        let [read_file, read_dir, execute, write_file, remove_file, remove_dir, truncate] =
            perm_fields_back(get(pm, "control_access"));
        let cm = get(pm, "command").as_mapping().expect("expected command mapping");
        let env = match get(cm, "env") {
            Value::Null => None,
            v => Some(
                v.as_mapping()
                    .expect("expected env mapping")
                    .iter()
                    .map(|(k, val)| {
                        (
                            k.as_str().expect("expected env key").to_string(),
                            val.as_str().expect("expected env value").to_string(),
                        )
                    })
                    .collect(),
            ),
        };
        profiles.push((
            name.as_str().expect("expected profile name").to_string(),
            Profile {
                description: opt_string_back(get(pm, "description")),
                access_roots,
                control_access: ControlAccess {
                    read_file,
                    read_dir,
                    execute,
                    write_file,
                    remove_file,
                    remove_dir,
                    truncate,
                },
                command: CommandSpec {
                    binary: get(cm, "binary").as_str().expect("expected binary").to_string(),
                    args: get(cm, "args")
                        .as_sequence()
                        .expect("expected args sequence")
                        .iter()
                        .map(|s| s.as_str().expect("expected arg string").to_string())
                        .collect(),
                    working_dir: opt_string_back(get(cm, "working_dir")),
                    env,
                },
                log_level: opt_string_back(get(pm, "log_level")),
                dry_run: opt_bool_back(get(pm, "dry_run")),
            },
        ));
    }
    Config { version, profiles }
}

#[test]
fn starter_config_has_the_documented_structure() {
    let cfg = starter_config("/tmp/ai-sandbox-integ-root", "integ");
    assert_eq!(cfg.version, Some(1));
    assert_eq!(cfg.profiles.len(), 1);
    let (name, profile) = &cfg.profiles[0];
    assert_eq!(name, "integ");
    assert_eq!(
        profile.description,
        Some("Generated profile for integ".to_string())
    );
    let group_names: Vec<&str> = profile.access_roots.iter().map(|g| g.name.as_str()).collect();
    for expected in ["system", "cache", "projects"] {
        assert!(group_names.contains(&expected), "missing group {}", expected);
    }
    let projects = profile.access_roots.iter().find(|g| g.name == "projects").unwrap();
    assert_eq!(projects.paths, vec!["/tmp/ai-sandbox-integ-root".to_string()]);
    assert_eq!(projects.permissions.read_file, Some(true));
    assert_eq!(projects.permissions.write_file, Some(false));
    assert_eq!(profile.command.binary, "/bin/bash");
    assert_eq!(
        profile.command.working_dir,
        Some("/tmp/ai-sandbox-integ-root".to_string())
    );
    assert_eq!(profile.log_level, Some("info".to_string()));
    assert_eq!(profile.dry_run, Some(false));
}

#[test]
fn starter_config_round_trips_through_yaml_unchanged() {
    let cfg = starter_config("/tmp/proj", "demo");
    let doc = config_value(&cfg);
    let yaml = serde_yaml::to_string(&doc).expect("serializable document");
    let parsed: Value = serde_yaml::from_str(&yaml).expect("valid YAML output");
    let back = config_back(&parsed);
    assert_eq!(back, cfg);
}

#[test]
fn yaml_round_trip_keeps_absent_fields_absent() {
    let cfg = Config {
        version: None,
        profiles: vec![(
            "bare".to_string(),
            Profile {
                description: None,
                access_roots: vec![AccessRootGroup {
                    name: "projects".to_string(),
                    paths: vec!["~/work".to_string()],
                    permissions: Permissions {
                        read_file: Some(true),
                        read_dir: None,
                        execute: None,
                        write_file: None,
                        remove_file: None,
                        remove_dir: None,
                        truncate: None,
                    },
                }],
                control_access: ControlAccess {
                    read_file: None,
                    read_dir: None,
                    execute: None,
                    write_file: None,
                    remove_file: None,
                    remove_dir: None,
                    truncate: None,
                },
                command: CommandSpec {
                    binary: "/bin/sh".to_string(),
                    args: vec!["-c".to_string(), "true".to_string()],
                    working_dir: None,
                    env: Some(vec![("K".to_string(), "~/v".to_string())]),
                },
                log_level: None,
                dry_run: None,
            },
        )],
    };
    let yaml = serde_yaml::to_string(&config_value(&cfg)).expect("serializable document");
    let parsed: Value = serde_yaml::from_str(&yaml).expect("valid YAML output");
    assert_eq!(config_back(&parsed), cfg);
}
