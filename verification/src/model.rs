//! One provisioning pass, end to end, against a model of the database.
//!
//! `ModelDb` holds exactly what the runner may observe and change in the
//! real database: the schema version marker and the ordered list of
//! scripts whose transactions committed. `provision` drives a
//! `MigrationRunner` over such a database and is verified for every
//! registry, every starting version and every injected script failure:
//! the marker only advances, an up-to-date database is left untouched, a
//! database newer than the registry is rejected without mutation, and a
//! failing script commits nothing of its own migration while everything
//! before it stays committed.

use vstd::prelude::*;

use crate::errors::ProvisionError;
use crate::migration::Migration;
use crate::migration::registry_well_formed;
use crate::runner::MigrationRunner;

verus! {

/// The observable state of the database: the schema version marker and
/// the scripts committed so far, in commit order.
#[derive(Debug, Clone, PartialEq, Eq)]
pub struct ModelDb {
    pub schema_version: u64,
    pub committed_scripts: Vec<String>,
}

/// A pass left the database untouched: same marker, same committed
/// scripts.
pub open spec fn db_unchanged(before: ModelDb, after: ModelDb) -> bool {
    after.schema_version == before.schema_version && after.committed_scripts@
        == before.committed_scripts@
}

/// Whether an injected failure at version `fail_at` stops a pass that
/// starts at version `stored` over a registry of `reg_len` migrations:
/// it does exactly when that version is pending in this pass.
pub open spec fn failure_blocks(reg_len: int, stored: int, fail_at: Option<u64>) -> bool {
    match fail_at {
        Some(k) => stored < k <= reg_len,
        None => false,
    }
}

/// The version the marker holds when the pass stops: one below the
/// failing version if the injected failure is pending, otherwise the
/// registry's maximum.
pub open spec fn halt_version(reg_len: int, stored: int, fail_at: Option<u64>) -> int {
    match fail_at {
        Some(k) => if stored < k <= reg_len {
            k - 1
        } else {
            reg_len
        },
        None => reg_len,
    }
}

/// The cause text the model gives an injected script failure.
pub open spec fn injected_cause_text() -> Seq<char> {
    "injected script failure"@
}

/// How a pass extends the committed scripts: everything committed
/// before is still there, unchanged and in place, and after it stand
/// exactly the scripts of versions `stored + 1 ..= halt`, in ascending
/// version order.
pub open spec fn scripts_extended(
    before: Seq<String>,
    after: Seq<String>,
    reg: Seq<Migration>,
    stored: int,
    halt: int,
) -> bool {
    &&& after.len() == before.len() + (halt - stored)
    &&& forall|j: int| 0 <= j < before.len() ==> after[j] == before[j]
    &&& forall|j: int|
        before.len() <= j < after.len() ==> #[trigger] after[j] == reg[stored + j
            - before.len()].script
}

/// Runs one provisioning pass: validates the registry, rejects a
/// database newer than the binary, then applies each pending migration
/// in ascending version order, committing its script and advancing the
/// marker together. A failure injected at version `fail_at` makes that
/// script's transaction fail, modelling a poisoned migration.
#[verifier::loop_isolation(false)]
pub fn provision(db: &mut ModelDb, registry: Vec<Migration>, fail_at: Option<u64>) -> (r: Result<
    u64,
    ProvisionError,
>)
    ensures
        !registry_well_formed(registry@) ==> (r matches Err(e) && e is RegistryInvalid
            && db_unchanged(*old(db), *final(db))),
        registry_well_formed(registry@) && old(db).schema_version > registry@.len() ==> (r matches
            Err(e) && e is SchemaNewerThanBinary && db_unchanged(*old(db), *final(db))),
        registry_well_formed(registry@) && old(db).schema_version <= registry@.len() ==> final(db).schema_version == halt_version(
            registry@.len() as int,
            old(db).schema_version as int,
            fail_at,
        ),
        registry_well_formed(registry@) && old(db).schema_version <= registry@.len()
            && !failure_blocks(registry@.len() as int, old(db).schema_version as int, fail_at) ==> (
        r matches Ok(v) && v == registry@.len()),
        registry_well_formed(registry@) && old(db).schema_version <= registry@.len()
            && failure_blocks(registry@.len() as int, old(db).schema_version as int, fail_at) ==> (
        r matches Err(e) && e matches ProvisionError::MigrationFailed { version, cause } && version
            == fail_at.unwrap() && cause@ == injected_cause_text()),
        registry_well_formed(registry@) && old(db).schema_version <= registry@.len()
            ==> scripts_extended(
            old(db).committed_scripts@,
            final(db).committed_scripts@,
            registry@,
            old(db).schema_version as int,
            halt_version(registry@.len() as int, old(db).schema_version as int, fail_at),
        ),
        final(db).schema_version >= old(db).schema_version,
        registry_well_formed(registry@) && old(db).schema_version == registry@.len() ==> (
        db_unchanged(*old(db), *final(db)) && (r matches Ok(v) && v == registry@.len())),
{
    let ghost reg = registry@;
    let ghost db0 = *db;
    let mut runner = match MigrationRunner::begin(registry, db.schema_version) {
        Err(e) => { return Err(e) },
        Ok(runner) => runner,
    };
    while !runner.is_complete()
        invariant
            runner.wf(),
            runner.registry_view() == reg,
            db.schema_version == runner.version_view(),
            db0.schema_version <= runner.version_view(),
            !failure_blocks(
                reg.len() as int,
                db0.schema_version as int,
                fail_at,
            ) || (fail_at matches Some(k) && runner.version_view() < k),
            scripts_extended(
                db0.committed_scripts@,
                db.committed_scripts@,
                reg,
                db0.schema_version as int,
                runner.version_view() as int,
            ),
        decreases reg.len() - runner.version_view(),
    {
        let pending = runner.next_pending().unwrap();
        let version = pending.version;
        let script = pending.script.clone();
        let failed = match fail_at {
            Some(k) => k == version,
            None => false,
        };
        if failed {
            return Err(runner.failure_error(String::from_str("injected script failure")));
        }
        db.committed_scripts.push(script);
        db.schema_version = version;
        runner.record_success();
    }
    proof {
        if db0.schema_version == reg.len() {
            assert(db.committed_scripts@ =~= db0.committed_scripts@);
        }
    }
    Ok(runner.current_version())
}

} // verus!
