//! The build-time migration registry.
//!
//! A registry is an ordered list of forward migrations whose versions are
//! unique, dense and strictly increasing from 1: the entry at index `i`
//! carries version `i + 1`. The registry embedded in this binary holds
//! the two schema migrations of the application, their scripts fixed at
//! build time.

use vstd::prelude::*;

verus! {

/// The direction of a migration. Only forward migrations exist; there
/// are no down-migrations.
#[derive(Debug, Clone, Copy, PartialEq, Eq, Structural)]
pub enum MigrationKind {
    Forward,
}

/// A single schema migration: a positive version, a short description,
/// a direction marker and the SQL script that realizes it.
#[derive(Debug, Clone)]
pub struct Migration {
    pub version: u64,
    pub description: String,
    pub script: String,
    pub kind: MigrationKind,
}

/// A registry is well formed when its versions are unique, dense and
/// strictly increasing from 1; equivalently, the entry at index `i`
/// carries version `i + 1`, and every entry is a forward migration.
pub open spec fn registry_well_formed(reg: Seq<Migration>) -> bool {
    forall|i: int|
        0 <= i < reg.len() ==> (#[trigger] reg[i]).version == i + 1 && reg[i].kind is Forward
}

/// The highest version a registry can bring a database to: the version
/// of its last entry, or 0 for an empty registry.
pub open spec fn max_version(reg: Seq<Migration>) -> int {
    reg.len() as int
}

/// Decides whether a registry is well formed: versions unique, dense and
/// strictly increasing from 1.
pub fn validate_registry(reg: &Vec<Migration>) -> (valid: bool)
    ensures
        valid == registry_well_formed(reg@),
{
    let n = reg.len();
    let mut i: usize = 0;
    while i < n
        invariant
            n == reg@.len(),
            0 <= i <= n,
            forall|j: int|
                0 <= j < i ==> (#[trigger] reg@[j]).version == j + 1 && reg@[j].kind is Forward,
        decreases n - i,
    {
        if reg[i].version != (i as u64) + 1 {
            return false;
        }
        i = i + 1;
    }
    true
}

/// Strict order: in a well-formed registry, whenever the migration with
/// version `k` lies in the applied prefix (the first `applied` entries,
/// the ones a marker of `applied` records as done), every version `j`
/// with `1 <= j < k` lies in that prefix too.
pub proof fn lemma_strict_order(reg: Seq<Migration>, applied: int, k: int, j: int)
    requires
        registry_well_formed(reg),
        0 <= applied <= reg.len(),
        exists|i: int| 0 <= i < applied && (#[trigger] reg[i]).version == k,
        1 <= j < k,
    ensures
        exists|i: int| 0 <= i < applied && (#[trigger] reg[i]).version == j,
{
    let i0 = choose|i: int| 0 <= i < applied && (#[trigger] reg[i]).version == k;
    assert(reg[i0].version == i0 + 1);
    assert(i0 == k - 1);
    assert(reg[j - 1].version == j);
}

/// The application's registry: the two forward migrations that define
/// the schema, with their scripts embedded verbatim.
pub fn hakawati_registry() -> (reg: Vec<Migration>)
    ensures
        registry_well_formed(reg@),
        reg@.len() == 2,
        reg@[0].version == 1,
        reg@[0].description@ == "create_scenarios_table"@,
        reg@[0].script@ == scenarios_script_text(),
        reg@[1].version == 2,
        reg@[1].description@ == "create_tales_table"@,
        reg@[1].script@ == tales_script_text(),
{
    let first = Migration {
        version: 1,
        description: String::from_str("create_scenarios_table"),
        script: String::from_str(scenarios_script()),
        kind: MigrationKind::Forward,
    };
    let second = Migration {
        version: 2,
        description: String::from_str("create_tales_table"),
        script: String::from_str(tales_script()),
        kind: MigrationKind::Forward,
    };
    let mut reg: Vec<Migration> = Vec::new();
    reg.push(first);
    reg.push(second);
    reg
}

/// The text of migration 1's script: the table of scenarios.
pub open spec fn scenarios_script_text() -> Seq<char> {
    "CREATE TABLE scenarios (id INTEGER PRIMARY KEY AUTOINCREMENT, title TEXT NOT NULL, description TEXT, created_at TEXT NOT NULL DEFAULT (datetime('now')));"@
}

/// The text of migration 2's script: the table of tales.
pub open spec fn tales_script_text() -> Seq<char> {
    "CREATE TABLE tales (id INTEGER PRIMARY KEY AUTOINCREMENT, scenario_id INTEGER NOT NULL REFERENCES scenarios(id), title TEXT NOT NULL, content TEXT, created_at TEXT NOT NULL DEFAULT (datetime('now')));"@
}

/// The script of migration 1, as the driver receives it.
pub fn scenarios_script() -> (s: &'static str)
    ensures
        s@ == scenarios_script_text(),
{
    "CREATE TABLE scenarios (id INTEGER PRIMARY KEY AUTOINCREMENT, title TEXT NOT NULL, description TEXT, created_at TEXT NOT NULL DEFAULT (datetime('now')));"
}

/// The script of migration 2, as the driver receives it.
pub fn tales_script() -> (s: &'static str)
    ensures
        s@ == tales_script_text(),
{
    "CREATE TABLE tales (id INTEGER PRIMARY KEY AUTOINCREMENT, scenario_id INTEGER NOT NULL REFERENCES scenarios(id), title TEXT NOT NULL, content TEXT, created_at TEXT NOT NULL DEFAULT (datetime('now')));"
}

} // verus!
