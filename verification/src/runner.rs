//! The migration runner.
//!
//! `MigrationRunner` is the decision core of startup provisioning: it
//! validates the registry, rejects a database newer than the binary, and
//! then names the pending migrations one at a time, in strictly
//! ascending version order, advancing its marker only when the host
//! reports that a migration's transaction committed. The host shell
//! owns the database connection and performs the transactions; every
//! decision about what to run and what the marker becomes is made here.

use vstd::prelude::*;

use crate::errors::ProvisionError;
use crate::migration::Migration;
use crate::migration::registry_well_formed;

verus! {

/// The runner's state between migrations: the registry it was started
/// with and the version the database is known to be at.
pub struct MigrationRunner {
    registry: Vec<Migration>,
    version: u64,
}

impl MigrationRunner {
    /// The registry the runner was started with.
    pub closed spec fn registry_view(self) -> Seq<Migration> {
        self.registry@
    }

    /// The schema version the database currently holds.
    pub closed spec fn version_view(self) -> u64 {
        self.version
    }

    /// Well-formedness: the registry is valid and the marker does not
    /// exceed its maximum version.
    pub open spec fn wf(self) -> bool {
        &&& registry_well_formed(self.registry_view())
        &&& self.version_view() <= self.registry_view().len()
    }

    /// Starts a runner for one provisioning pass, given the registry
    /// embedded in the binary and the schema version read from the
    /// database. Rejects a malformed registry before any mutation, and
    /// rejects a database already past the registry's maximum version.
    pub fn begin(registry: Vec<Migration>, stored_version: u64) -> (r: Result<
        MigrationRunner,
        ProvisionError,
    >)
        ensures
            !registry_well_formed(registry@) ==> (r matches Err(e) && e is RegistryInvalid),
            registry_well_formed(registry@) && stored_version > registry@.len() ==> (r matches Err(
                e,
            ) && e is SchemaNewerThanBinary),
            registry_well_formed(registry@) && stored_version <= registry@.len() ==> (r matches Ok(
                runner,
            ) && runner.registry_view() == registry@ && runner.version_view() == stored_version
                && runner.wf()),
    {
        if !crate::migration::validate_registry(&registry) {
            return Err(ProvisionError::RegistryInvalid);
        }
        if stored_version > registry.len() as u64 {
            return Err(ProvisionError::SchemaNewerThanBinary);
        }
        Ok(MigrationRunner { registry, version: stored_version })
    }

    /// The schema version the database is at, as far as this pass has
    /// brought it.
    pub fn current_version(&self) -> (v: u64)
        ensures
            v == self.version_view(),
    {
        self.version
    }

    /// The registry's maximum version: what the database will hold once
    /// this pass completes.
    pub fn target_version(&self) -> (v: u64)
        requires
            self.wf(),
        ensures
            v == self.registry_view().len(),
    {
        self.registry.len() as u64
    }

    /// Whether every registered migration has been applied.
    pub fn is_complete(&self) -> (done: bool)
        requires
            self.wf(),
        ensures
            done <==> self.version_view() == self.registry_view().len(),
    {
        self.version == self.registry.len() as u64
    }

    /// The next migration to apply: the registry entry whose version is
    /// one above the marker, or nothing when the pass is complete.
    pub fn next_pending(&self) -> (next: Option<&Migration>)
        requires
            self.wf(),
        ensures
            self.version_view() < self.registry_view().len() ==> (next matches Some(m) && *m
                == self.registry_view()[self.version_view() as int] && m.version
                == self.version_view() + 1),
            self.version_view() >= self.registry_view().len() ==> next is None,
    {
        if self.version < self.registry.len() as u64 {
            Some(&self.registry[self.version as usize])
        } else {
            None
        }
    }

    /// Records that the pending migration's transaction committed: the
    /// marker advances by exactly one version and the registry is
    /// untouched.
    pub fn record_success(&mut self)
        requires
            old(self).wf(),
            old(self).version_view() < old(self).registry_view().len(),
        ensures
            final(self).registry_view() == old(self).registry_view(),
            final(self).version_view() == old(self).version_view() + 1,
            final(self).wf(),
    {
        let n = self.registry.len();
        assert(self.version < n);
        self.version = self.version + 1;
    }

    /// The error that reports the pending migration's failure: the
    /// version that was being applied, with the cause the host observed.
    /// The marker is not advanced; the next startup resumes here.
    pub fn failure_error(&self, cause: String) -> (e: ProvisionError)
        requires
            self.wf(),
            self.version_view() < self.registry_view().len(),
        ensures
            e matches ProvisionError::MigrationFailed { version, cause: c } && version
                == self.version_view() + 1 && c == cause,
    {
        let n = self.registry.len();
        assert(self.version < n);
        ProvisionError::MigrationFailed { version: self.version + 1, cause }
    }
}

} // verus!
