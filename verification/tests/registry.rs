use hakawati::migration::hakawati_registry;
use hakawati::migration::scenarios_script;
use hakawati::migration::tales_script;
use hakawati::migration::validate_registry;
use hakawati::migration::Migration;
use hakawati::migration::MigrationKind;

fn forward(version: u64, description: &str, script: &str) -> Migration {
    Migration {
        version,
        description: description.to_string(),
        script: script.to_string(),
        kind: MigrationKind::Forward,
    }
}

#[test]
fn embedded_registry_is_well_formed() {
    let reg = hakawati_registry();
    assert!(validate_registry(&reg));
    assert_eq!(reg.len(), 2);
}

#[test]
fn embedded_registry_contents() {
    let reg = hakawati_registry();
    assert_eq!(reg[0].version, 1);
    assert_eq!(reg[0].description, "create_scenarios_table");
    assert_eq!(reg[0].script, scenarios_script());
    assert_eq!(reg[0].kind, MigrationKind::Forward);
    assert_eq!(reg[1].version, 2);
    assert_eq!(reg[1].description, "create_tales_table");
    assert_eq!(reg[1].script, tales_script());
    assert_eq!(reg[1].kind, MigrationKind::Forward);
}

#[test]
fn empty_registry_is_well_formed() {
    let reg: Vec<Migration> = Vec::new();
    assert!(validate_registry(&reg));
}

#[test]
fn registry_starting_above_one_is_invalid() {
    let reg = vec![forward(2, "late_start", "CREATE TABLE a (x);")];
    assert!(!validate_registry(&reg));
}

#[test]
fn registry_with_gap_is_invalid() {
    let reg = vec![
        forward(1, "first", "CREATE TABLE a (x);"),
        forward(3, "skipped_two", "CREATE TABLE b (x);"),
    ];
    assert!(!validate_registry(&reg));
}

#[test]
fn registry_with_duplicate_is_invalid() {
    let reg = vec![
        forward(1, "first", "CREATE TABLE a (x);"),
        forward(1, "first_again", "CREATE TABLE b (x);"),
    ];
    assert!(!validate_registry(&reg));
}

#[test]
fn registry_with_zero_version_is_invalid() {
    let reg = vec![forward(0, "zero", "CREATE TABLE a (x);")];
    assert!(!validate_registry(&reg));
}
