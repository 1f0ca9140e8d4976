use command_registry::command::{Command, FolderEntry};
use command_registry::command::derive_name;
use command_registry::config::{CommandConfig, ConfigError};

fn entry(path: &str, name: &str, config: Option<&str>) -> FolderEntry {
    FolderEntry {
        path: path.to_owned(),
        name: name.to_owned(),
        config: config.map(|c| c.to_owned()),
    }
}

#[test]
fn folder_without_descriptor_gets_derived_identity() {
    let e = entry("/cmds/git-sync", "git-sync", None);
    let c = Command::resolve(&e).unwrap();
    assert_eq!(c.name, "Git Sync");
    assert_eq!(c.description, "");
    assert_eq!(c.category, "");
    assert_eq!(c.path, "/cmds/git-sync/command.sh");
}

#[test]
fn folder_with_descriptor_takes_fields_verbatim() {
    let toml_text = "name = \"Backup All\"\ncategory = \"system\"\ndescription = \"Runs nightly backup\"\n";
    let e = entry("/cmds/backup", "backup", Some(toml_text));
    let c = Command::resolve(&e).unwrap();
    assert_eq!(c.name, "Backup All");
    assert_eq!(c.category, "system");
    assert_eq!(c.description, "Runs nightly backup");
    assert_eq!(c.path, "/cmds/backup");
}

#[test]
fn name_derivation_is_deterministic() {
    let a = derive_name("git-sync");
    let b = derive_name("git-sync");
    assert_eq!(a, b);
    assert_eq!(a, "Git Sync");
}

#[test]
fn name_derivation_is_idempotent_on_its_result() {
    let once = derive_name("remote-backup-all");
    assert_eq!(once, "Remote Backup All");
    let twice = derive_name(&once);
    assert_eq!(twice, once);
}

#[test]
fn plain_folder_name_is_capitalized() {
    assert_eq!(derive_name("backup"), "Backup");
}

#[test]
fn empty_entry_list_resolves_to_empty_registry() {
    let r = Command::list(&Vec::new()).unwrap();
    assert_eq!(r.len(), 0);
}

#[test]
fn registry_keeps_entry_order() {
    let entries = vec![
        entry("/cmds/b-tool", "b-tool", None),
        entry("/cmds/a-tool", "a-tool", None),
    ];
    let r = Command::list(&entries).unwrap();
    assert_eq!(r.len(), 2);
    assert_eq!(r[0].name, "B Tool");
    assert_eq!(r[1].name, "A Tool");
}

#[test]
fn malformed_descriptor_fails_whole_resolution() {
    let entries = vec![
        entry("/cmds/fine", "fine", None),
        entry("/cmds/broken", "broken", Some("name = \"unclosed")),
        entry("/cmds/also-fine", "also-fine", None),
    ];
    let err = Command::list(&entries).unwrap_err();
    assert_eq!(err.path, "/cmds/broken");
}

#[test]
fn missing_field_fails_and_is_named() {
    let toml_text = "name = \"X\"\ncategory = \"y\"\n";
    let e = entry("/cmds/x", "x", Some(toml_text));
    let err = Command::resolve(&e).unwrap_err();
    assert_eq!(err.path, "/cmds/x");
    assert_eq!(err.message, "missing required field description");
}

#[test]
fn mistyped_field_counts_as_missing() {
    let toml_text = "name = 3\ncategory = \"y\"\ndescription = \"z\"\n";
    let e = entry("/cmds/x", "x", Some(toml_text));
    let err = Command::resolve(&e).unwrap_err();
    assert_eq!(err.message, "missing required field name");
}

#[test]
fn descriptor_with_extra_keys_still_parses() {
    let toml_text = "name = \"N\"\ncategory = \"c\"\ndescription = \"d\"\nextra = 7\n";
    let cfg = CommandConfig::parse(toml_text).unwrap();
    assert_eq!(cfg.name, "N");
    assert_eq!(cfg.category, "c");
    assert_eq!(cfg.description, "d");
}

#[test]
fn parse_reports_syntax_errors_as_such() {
    let e = CommandConfig::parse("= not toml =").unwrap_err();
    assert!(matches!(e, ConfigError::Syntax(_)));
}

#[test]
fn parse_names_first_missing_field_in_order() {
    let e = CommandConfig::parse("description = \"d\"\n").unwrap_err();
    match e {
        ConfigError::MissingField(f) => assert_eq!(f, "name"),
        ConfigError::Syntax(_) => panic!("expected a missing field"),
    }
    let e = CommandConfig::parse("name = \"n\"\n").unwrap_err();
    match e {
        ConfigError::MissingField(f) => assert_eq!(f, "category"),
        ConfigError::Syntax(_) => panic!("expected a missing field"),
    }
}
