use forge::{
    AddPlan, ConfigEnv, Consolidated, CreateError, DestState, FileKind, FsOp, LegacyFile, Removal,
    StoreError, Template, TemplateSet, ValidationError, builtin_templates, file_content, file_kind,
    get_user_local_templates_file, get_user_templates_dir, is_safe_path, list_templates,
    load_templates, lookup, plan_add, plan_create, remove_local_template, save_local_template,
    validate_template,
};

fn template(name: &str, structure: &[&str], files: &[(&str, &str)]) -> Template {
    Template {
        name: name.to_string(),
        description: "d".to_string(),
        structure: structure.iter().map(|s| s.to_string()).collect(),
        files: files.iter().map(|(p, k)| (p.to_string(), k.to_string())).collect(),
    }
}

fn set_of(entries: Vec<(&str, Template)>) -> TemplateSet {
    let mut s = TemplateSet::new();
    for (k, t) in entries {
        s.insert(k.to_string(), t);
    }
    s
}

fn resolve(legacy: &Vec<LegacyFile>, consolidated: Consolidated) -> TemplateSet {
    match load_templates(&builtin_templates(), legacy, consolidated) {
        Ok(o) => o.templates,
        Err(_) => panic!("Failed to load templates"),
    }
}

#[test]
fn test_load_templates() {
    let templates = resolve(&Vec::new(), Consolidated::Missing);
    assert!(templates.contains_key("backend-api"));
    assert!(templates.contains_key("frontend-react"));
}

#[test]
fn test_invalid_template_key() {
    let templates = resolve(&Vec::new(), Consolidated::Missing);
    assert!(!templates.contains_key("nonexistent-template"));
}

#[test]
fn safe_paths() {
    assert!(is_safe_path("src"));
    assert!(is_safe_path("src/a..b"));
    assert!(is_safe_path("./x/.../y"));
    assert!(is_safe_path(""));
    assert!(!is_safe_path("/etc"));
    assert!(!is_safe_path(".."));
    assert!(!is_safe_path("a/../b"));
    assert!(!is_safe_path("a/.."));
    assert!(!is_safe_path("../a"));
}

#[test]
fn validate_accepts_relative_paths() {
    let t = template("API", &["src", "tests/unit"], &[(".gitignore", "backend")]);
    assert!(validate_template(&t).is_ok());
}

#[test]
fn validate_reports_first_unsafe_entry() {
    let t = template("T", &["ok", "/abs", "../up"], &[]);
    assert!(matches!(validate_template(&t), Err(ValidationError::AbsoluteDirectory(p)) if p == "/abs"));
    let t = template("T", &["ok", "a/../b"], &[("/x", "k")]);
    assert!(matches!(validate_template(&t), Err(ValidationError::ParentInDirectory(p)) if p == "a/../b"));
    let t = template("T", &["ok"], &[("fine", "k"), ("/etc/passwd", "k")]);
    assert!(matches!(validate_template(&t), Err(ValidationError::AbsoluteFile(p)) if p == "/etc/passwd"));
    let t = template("T", &["ok"], &[("../secret", "k")]);
    assert!(matches!(validate_template(&t), Err(ValidationError::ParentInFile(p)) if p == "../secret"));
}

#[test]
fn override_wins_over_builtin() {
    let over = set_of(vec![("backend-api", template("Mine", &["lib"], &[]))]);
    let templates = resolve(&Vec::new(), Consolidated::Present(over));
    let t = templates.get("backend-api").unwrap();
    assert_eq!(t.name, "Mine");
    assert_eq!(t.structure, vec!["lib".to_string()]);
    assert_eq!(templates.get("frontend-react").unwrap().name, "Frontend React");
}

#[test]
fn malformed_override_file_is_a_config_error() {
    let r = load_templates(&builtin_templates(), &Vec::new(), Consolidated::Malformed);
    assert!(matches!(r, Err(StoreError::MalformedOverrides)));
    let legacy = vec![LegacyFile::Single("x".to_string(), template("X", &[], &[]))];
    let r = load_templates(&builtin_templates(), &legacy, Consolidated::Malformed);
    assert!(matches!(r, Err(StoreError::MalformedOverrides)));
}

#[test]
fn migration_runs_once() {
    let stale = set_of(vec![("svc", template("Old", &[], &[])), ("keep", template("Keep", &[], &[]))]);
    let legacy = vec![
        LegacyFile::Single("svc".to_string(), template("New", &["src"], &[])),
        LegacyFile::Unrecognized,
        LegacyFile::Keyed(set_of(vec![("web", template("Web", &[], &[]))])),
    ];
    let first = load_templates(&builtin_templates(), &legacy, Consolidated::Present(stale)).ok().unwrap();
    assert_eq!(first.removed, vec![true, false, true]);
    let written = first.written.unwrap();
    assert_eq!(written.entries.len(), 3);
    assert_eq!(written.get("svc").unwrap().name, "New");
    assert_eq!(written.get("keep").unwrap().name, "Keep");
    assert_eq!(written.get("web").unwrap().name, "Web");
    assert_eq!(first.templates.entries.len(), 6);

    let left = vec![LegacyFile::Unrecognized];
    let second = load_templates(&builtin_templates(), &left, Consolidated::Present(written)).ok().unwrap();
    assert_eq!(second.removed, vec![false]);
    assert!(second.written.is_none());
    assert_eq!(second.templates.entries.len(), 6);
    assert_eq!(second.templates.get("svc").unwrap().name, "New");
}

#[test]
fn migration_into_missing_file_creates_it() {
    let legacy = vec![LegacyFile::Single("solo".to_string(), template("Solo", &[], &[]))];
    let o = load_templates(&builtin_templates(), &legacy, Consolidated::Missing).ok().unwrap();
    let w = o.written.unwrap();
    assert_eq!(w.entries.len(), 1);
    assert!(o.templates.contains_key("solo"));
}

#[test]
fn remove_nonexistent_is_false() {
    assert!(matches!(remove_local_template("nonexistent", Consolidated::Missing), Ok(Removal::NotFound)));
    let over = set_of(vec![("mine", template("Mine", &[], &[]))]);
    assert!(matches!(remove_local_template("nonexistent", Consolidated::Present(over)), Ok(Removal::NotFound)));
    assert!(matches!(remove_local_template("x", Consolidated::Malformed), Err(StoreError::MalformedOverrides)));
}

#[test]
fn remove_falls_back_to_builtin() {
    let over = set_of(vec![
        ("backend-api", template("Mine", &[], &[])),
        ("only-mine", template("Only", &[], &[])),
    ]);
    let after = match remove_local_template("backend-api", Consolidated::Present(over)) {
        Ok(Removal::Removed(m)) => m,
        _ => panic!("expected removal"),
    };
    let after = match remove_local_template("only-mine", Consolidated::Present(after)) {
        Ok(Removal::Removed(m)) => m,
        _ => panic!("expected removal"),
    };
    assert_eq!(after.entries.len(), 0);
    let templates = resolve(&Vec::new(), Consolidated::Present(after));
    assert_eq!(templates.get("backend-api").unwrap().name, "Backend API");
    assert!(matches!(lookup(&templates, "only-mine"), Err(StoreError::KeyNotFound(k)) if k == "only-mine"));
}

#[test]
fn save_treats_missing_or_corrupt_file_as_empty() {
    let t = template("T", &["src"], &[]);
    let m = save_local_template("k", &t, Consolidated::Missing).ok().unwrap();
    assert_eq!(m.entries.len(), 1);
    let m = save_local_template("k", &t, Consolidated::Malformed).ok().unwrap();
    assert_eq!(m.entries.len(), 1);
    let m = save_local_template("j", &t, Consolidated::Present(m)).ok().unwrap();
    assert_eq!(m.entries.len(), 2);
    let t2 = template("T2", &[], &[]);
    let m = save_local_template("j", &t2, Consolidated::Present(m)).ok().unwrap();
    assert_eq!(m.entries.len(), 2);
    assert_eq!(m.get("j").unwrap().name, "T2");
    let bad = template("Bad", &["../x"], &[]);
    assert!(matches!(save_local_template("b", &bad, Consolidated::Missing), Err(ValidationError::ParentInDirectory(_))));
}

#[test]
fn add_opens_existing_or_builds_skeleton() {
    let templates = resolve(&Vec::new(), Consolidated::Missing);
    assert!(matches!(plan_add(&templates, "backend-api"), AddPlan::OpenExisting));
    match plan_add(&templates, "my-backend") {
        AddPlan::Create(t) => {
            assert_eq!(t.name, "my-backend Template");
            assert_eq!(t.description, "Edit this description");
            assert_eq!(t.structure, vec!["src".to_string(), "tests".to_string()]);
            assert_eq!(t.files, vec![(".gitignore".to_string(), "backend".to_string())]);
            assert!(validate_template(&t).is_ok());
        }
        AddPlan::OpenExisting => panic!("expected a skeleton"),
    }
}

#[test]
fn user_templates_dir_by_platform() {
    let env = ConfigEnv {
        windows: false,
        appdata: Some("C:/AppData".to_string()),
        xdg_config_home: Some("/xdg".to_string()),
        home: Some("/home/u".to_string()),
    };
    assert_eq!(get_user_templates_dir(&env).ok().unwrap(), "/xdg/forge/templates");
    assert_eq!(
        get_user_local_templates_file(&env).ok().unwrap(),
        "/xdg/forge/templates/local_templates.json"
    );
    let env = ConfigEnv { windows: true, ..env };
    assert_eq!(get_user_templates_dir(&env).ok().unwrap(), "C:/AppData/forge/templates");
    let env = ConfigEnv { windows: false, appdata: None, xdg_config_home: None, home: Some("/home/u".to_string()) };
    assert_eq!(get_user_templates_dir(&env).ok().unwrap(), "/home/u/.config/forge/templates");
    let env = ConfigEnv { windows: false, appdata: None, xdg_config_home: None, home: None };
    assert!(matches!(get_user_local_templates_file(&env), Err(StoreError::NoConfigDir)));
}

#[test]
fn listing_text() {
    let s = set_of(vec![("a", template("A", &[], &[])), ("b", template("B", &[], &[]))]);
    assert_eq!(list_templates(&s), "  a - A\n    d\n\n  b - B\n    d\n\n");
}

#[test]
fn file_kinds_and_bodies() {
    assert_eq!(file_kind("backend"), FileKind::Backend);
    assert_eq!(file_kind("frontend"), FileKind::Frontend);
    assert_eq!(file_kind("python"), FileKind::Python);
    assert_eq!(file_kind("whatever"), FileKind::Plain);
    assert_eq!(file_content(FileKind::Backend), "target/\n.env\n*.log\n");
    assert_eq!(file_content(FileKind::Plain), "");
}

fn api_template() -> Template {
    template("API", &["src", "tests"], &[(".gitignore", "backend")])
}

fn describe(ops: &[FsOp]) -> Vec<String> {
    ops.iter()
        .map(|o| match o {
            FsOp::CreateDir(p) => format!("dir {}", p),
            FsOp::WriteFile(p, c) => format!("file {} = {}", p, c),
        })
        .collect()
}

#[test]
fn materialize_example_project() {
    let ops = plan_create("myapi", &api_template(), true, false, DestState::Absent, false).ok().unwrap();
    let d = describe(&ops);
    assert_eq!(d[0], "dir myapi");
    assert_eq!(d[1], "dir myapi/src");
    assert_eq!(d[2], "dir myapi/tests");
    assert_eq!(d[3], "file myapi/.gitignore = target/\n.env\n*.log\n");
    assert_eq!(d.len(), 5);
    match &ops[4] {
        FsOp::WriteFile(p, c) => {
            assert_eq!(p, "myapi/README.md");
            assert!(c.contains("myapi"));
            assert!(c.contains("API"));
            assert_eq!(c, "# myapi\n\nArchitecture: API\n\nd\n");
        }
        FsOp::CreateDir(_) => panic!("expected the README"),
    }
}

#[test]
fn forced_creation_repeats_identically() {
    let t = api_template();
    let first = plan_create("proj", &t, true, true, DestState::Absent, false).ok().unwrap();
    let second = plan_create("proj", &t, true, true, DestState::NonEmpty, true).ok().unwrap();
    assert_eq!(describe(&first), describe(&second));
}

#[test]
fn populated_destination_needs_force() {
    let t = api_template();
    let r = plan_create("proj", &t, true, false, DestState::NonEmpty, false);
    assert!(matches!(r, Err(CreateError::DestinationExists(p)) if p == "proj"));
    assert!(plan_create("proj", &t, true, true, DestState::NonEmpty, false).is_ok());
    assert!(plan_create("proj", &t, true, false, DestState::Empty, false).is_ok());
}

#[test]
fn readme_is_optional() {
    let t = api_template();
    let ops = plan_create("p", &t, false, false, DestState::Absent, false).ok().unwrap();
    assert_eq!(ops.len(), 4);
    let ops = plan_create("p", &t, true, false, DestState::Empty, true).ok().unwrap();
    assert_eq!(ops.len(), 4);
}
