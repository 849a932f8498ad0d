//! Installed packages: each package name is installed once, from a
//! validated manifest with the provenance of its installation, and is
//! then enabled or disabled (with a reason).
use vstd::prelude::*;
use crate::error::AgentOsError;
use crate::state::KernelState;
use crate::ecosystem::EcosystemSource;
use crate::text::{str_eq, is_blank, trimmed};

verus! {

/// The manifest a package ships.
#[derive(Debug)]
pub struct PackageManifest {
    pub package_name: String,
    pub version: String,
}

/// A manifest as found on disk.
#[derive(Debug)]
pub struct PackageManifestRecord {
    pub package_id: String,
    pub manifest: PackageManifest,
    pub root_path: String,
    pub manifest_path: String,
    pub source: EcosystemSource,
    pub content_hash: String,
}

/// Who installed a package.
#[derive(Debug)]
pub struct PackageInstallProvenance {
    pub installed_by: String,
}

/// Whether an installed package contributes anything.
#[derive(Debug, Clone, Copy, PartialEq, Eq, Structural)]
pub enum PackageInstallStatus {
    Enabled,
    Disabled,
}

/// What is required of a package's signature.
#[derive(Debug, Clone, Copy, PartialEq, Eq, Structural)]
pub struct PackageTrustPolicy {
    pub require_signature: bool,
    pub signature_verified: bool,
}

/// An installed package.
#[derive(Debug)]
pub struct PackageInstallRecord {
    pub package_install_id: String,
    pub package_id: String,
    pub manifest: PackageManifest,
    pub root_path: String,
    pub manifest_path: String,
    pub source: EcosystemSource,
    pub content_hash: String,
    pub status: PackageInstallStatus,
    pub disabled_reason: Option<String>,
    pub trust_policy: PackageTrustPolicy,
    pub install_provenance: PackageInstallProvenance,
    pub cache_path: Option<String>,
    pub created_at: String,
    pub updated_at: String,
}

/// Some package named `name` is installed.
pub open spec fn has_package(ps: Seq<PackageInstallRecord>, name: Seq<char>) -> bool {
    exists|i: int| 0 <= i < ps.len() && ps[i].manifest.package_name@ == name
}

/// The position of package `name` (meaningful when `has_package`).
pub open spec fn package_pos(ps: Seq<PackageInstallRecord>, name: Seq<char>) -> int {
    choose|i: int| 0 <= i < ps.len() && ps[i].manifest.package_name@ == name
}

/// Each package name is installed at most once.
pub open spec fn package_names_unique(ps: Seq<PackageInstallRecord>) -> bool {
    forall|i: int, j: int|
        0 <= i < ps.len() && 0 <= j < ps.len() && #[trigger] ps[i].manifest.package_name@
            == #[trigger] ps[j].manifest.package_name@ ==> i == j
}

/// Why a manifest record is refused: the first of its id, name, version,
/// root path, manifest path, source path and hash that is blank.
pub open spec fn manifest_error(m: PackageManifestRecord) -> Option<AgentOsError> {
    if trimmed(m.package_id@).len() == 0 {
        Some(AgentOsError::Validation("package manifest record field package_id must not be empty"))
    } else if trimmed(m.manifest.package_name@).len() == 0 {
        Some(AgentOsError::Validation("package manifest record field package_name must not be empty"))
    } else if trimmed(m.manifest.version@).len() == 0 {
        Some(AgentOsError::Validation("package manifest record field version must not be empty"))
    } else if trimmed(m.root_path@).len() == 0 {
        Some(AgentOsError::Validation("package manifest record field root_path must not be empty"))
    } else if trimmed(m.manifest_path@).len() == 0 {
        Some(AgentOsError::Validation("package manifest record field manifest_path must not be empty"))
    } else if trimmed(m.source.source_path@).len() == 0 {
        Some(AgentOsError::Validation("package manifest record field source_path must not be empty"))
    } else if trimmed(m.content_hash@).len() == 0 {
        Some(AgentOsError::Validation("package manifest record field content_hash must not be empty"))
    } else {
        None
    }
}

/// Why an installation is refused: an invalid manifest, no installer, or
/// a package of that name already installed.
pub open spec fn install_error(s: KernelState, m: PackageManifestRecord, p: PackageInstallProvenance) -> Option<AgentOsError> {
    if manifest_error(m) is Some {
        manifest_error(m)
    } else if trimmed(p.installed_by@).len() == 0 {
        Some(AgentOsError::Validation("package install provenance installed_by must not be empty"))
    } else if has_package(s.package_installs@, m.manifest.package_name@) {
        Some(AgentOsError::Validation("package is already installed"))
    } else {
        None
    }
}

/// The record an installation of `m` by `p` under id `id` at `now` makes.
pub open spec fn installed(m: PackageManifestRecord, p: PackageInstallProvenance, id: String, now: String) -> PackageInstallRecord {
    PackageInstallRecord {
        package_install_id: id,
        package_id: m.package_id,
        manifest: m.manifest,
        root_path: m.root_path,
        manifest_path: m.manifest_path,
        source: m.source,
        content_hash: m.content_hash,
        status: PackageInstallStatus::Enabled,
        disabled_reason: None,
        trust_policy: PackageTrustPolicy { require_signature: false, signature_verified: false },
        install_provenance: p,
        cache_path: None,
        created_at: now,
        updated_at: now,
    }
}

/// Checks a manifest record.
pub fn validate_package_manifest_record(record: &PackageManifestRecord) -> (r: Result<(), AgentOsError>)
    ensures
        match manifest_error(*record) {
            Some(e) => r == Err::<(), AgentOsError>(e),
            None => r is Ok,
        },
{
    if is_blank(record.package_id.as_str()) {
        return Err(AgentOsError::Validation("package manifest record field package_id must not be empty"));
    }
    if is_blank(record.manifest.package_name.as_str()) {
        return Err(AgentOsError::Validation("package manifest record field package_name must not be empty"));
    }
    if is_blank(record.manifest.version.as_str()) {
        return Err(AgentOsError::Validation("package manifest record field version must not be empty"));
    }
    if is_blank(record.root_path.as_str()) {
        return Err(AgentOsError::Validation("package manifest record field root_path must not be empty"));
    }
    if is_blank(record.manifest_path.as_str()) {
        return Err(AgentOsError::Validation("package manifest record field manifest_path must not be empty"));
    }
    if is_blank(record.source.source_path.as_str()) {
        return Err(AgentOsError::Validation("package manifest record field source_path must not be empty"));
    }
    if is_blank(record.content_hash.as_str()) {
        return Err(AgentOsError::Validation("package manifest record field content_hash must not be empty"));
    }
    Ok(())
}

fn copy_opt(o: &Option<String>) -> (r: Option<String>)
    ensures
        r == *o,
{
    match o {
        Some(s) => Some(s.clone()),
        None => None,
    }
}

impl PackageInstallRecord {
    /// A copy of this record.
    pub fn duplicate(&self) -> (r: PackageInstallRecord)
        ensures
            r == *self,
    {
        PackageInstallRecord {
            package_install_id: self.package_install_id.clone(),
            package_id: self.package_id.clone(),
            manifest: PackageManifest { package_name: self.manifest.package_name.clone(), version: self.manifest.version.clone() },
            root_path: self.root_path.clone(),
            manifest_path: self.manifest_path.clone(),
            source: self.source.duplicate(),
            content_hash: self.content_hash.clone(),
            status: self.status,
            disabled_reason: copy_opt(&self.disabled_reason),
            trust_policy: self.trust_policy,
            install_provenance: PackageInstallProvenance { installed_by: self.install_provenance.installed_by.clone() },
            cache_path: copy_opt(&self.cache_path),
            created_at: self.created_at.clone(),
            updated_at: self.updated_at.clone(),
        }
    }
}

impl KernelState {
    /// The position of package `name`, if it is installed.
    pub fn find_package(&self, name: &str) -> (r: Option<usize>)
        requires
            package_names_unique(self.package_installs@),
        ensures
            r.is_none() <==> !has_package(self.package_installs@, name@),
            r matches Some(i) ==> i == package_pos(self.package_installs@, name@) && i < self.package_installs@.len(),
    {
        let mut i: usize = 0;
        while i < self.package_installs.len()
            invariant
                i <= self.package_installs@.len(),
                package_names_unique(self.package_installs@),
                forall|j: int| 0 <= j < i ==> self.package_installs@[j].manifest.package_name@ != name@,
            decreases self.package_installs@.len() - i,
        {
            if str_eq(self.package_installs[i].manifest.package_name.as_str(), name) {
                proof {
                    let k = package_pos(self.package_installs@, name@);
                    assert(self.package_installs@[k].manifest.package_name@ == self.package_installs@[i as int].manifest.package_name@);
                }
                return Some(i);
            }
            i = i + 1;
        }
        None
    }

    /// Installs the package of `manifest`, installed by `provenance`, under
    /// id `package_install_id` at `now`, enabled and unsigned, as
    /// `install_error` allows.
    pub fn install_package_manifest(
        &mut self,
        manifest: PackageManifestRecord,
        provenance: PackageInstallProvenance,
        package_install_id: String,
        now: String,
    ) -> (r: Result<PackageInstallRecord, AgentOsError>)
        requires
            old(self).wf(),
        ensures
            final(self).wf(),
            match install_error(*old(self), manifest, provenance) {
                Some(e) => r == Err::<PackageInstallRecord, AgentOsError>(e) && *final(self) == *old(self),
                None => {
                    let rec = installed(manifest, provenance, package_install_id, now);
                    &&& r == Ok::<PackageInstallRecord, AgentOsError>(rec)
                    &&& final(self).package_installs@ == old(self).package_installs@.push(rec)
                    &&& *final(self) == (KernelState { package_installs: final(self).package_installs, ..*old(self) })
                },
            },
    {
        match validate_package_manifest_record(&manifest) {
            Err(e) => return Err(e),
            Ok(()) => {},
        }
        if is_blank(provenance.installed_by.as_str()) {
            return Err(AgentOsError::Validation("package install provenance installed_by must not be empty"));
        }
        if self.find_package(manifest.manifest.package_name.as_str()).is_some() {
            return Err(AgentOsError::Validation("package is already installed"));
        }
        let install = PackageInstallRecord {
            package_install_id,
            package_id: manifest.package_id,
            manifest: manifest.manifest,
            root_path: manifest.root_path,
            manifest_path: manifest.manifest_path,
            source: manifest.source,
            content_hash: manifest.content_hash,
            status: PackageInstallStatus::Enabled,
            disabled_reason: None,
            trust_policy: PackageTrustPolicy { require_signature: false, signature_verified: false },
            install_provenance: provenance,
            cache_path: None,
            created_at: now.clone(),
            updated_at: now,
        };
        let out = install.duplicate();
        let ghost before = self.package_installs@;
        self.package_installs.push(install);
        proof {
            assert forall|a: int, b: int|
                0 <= a < self.package_installs@.len() && 0 <= b < self.package_installs@.len()
                    && #[trigger] self.package_installs@[a].manifest.package_name@
                    == #[trigger] self.package_installs@[b].manifest.package_name@ implies a == b by {
                if a < before.len() {
                    assert(self.package_installs@[a] == before[a]);
                }
                if b < before.len() {
                    assert(self.package_installs@[b] == before[b]);
                }
                if a < before.len() && b == before.len() {
                    assert(before[a].manifest.package_name@ == self.package_installs@[b].manifest.package_name@);
                    assert(has_package(before, self.package_installs@[b].manifest.package_name@));
                }
                if b < before.len() && a == before.len() {
                    assert(before[b].manifest.package_name@ == self.package_installs@[a].manifest.package_name@);
                    assert(has_package(before, self.package_installs@[a].manifest.package_name@));
                }
            }
        }
        Ok(out)
    }

    fn set_package_status(&mut self, package_name: &str, status: PackageInstallStatus, disabled_reason: Option<String>, now: String) -> (r: Result<
        PackageInstallRecord,
        AgentOsError,
    >)
        requires
            old(self).wf(),
        ensures
            final(self).wf(),
            !has_package(old(self).package_installs@, package_name@) ==> r == Err::<PackageInstallRecord, AgentOsError>(
                AgentOsError::NotFound("package"),
            ) && *final(self) == *old(self),
            has_package(old(self).package_installs@, package_name@) ==> {
                let k = package_pos(old(self).package_installs@, package_name@);
                let rec = PackageInstallRecord { status, disabled_reason, updated_at: now, ..old(self).package_installs@[k] };
                &&& r == Ok::<PackageInstallRecord, AgentOsError>(rec)
                &&& final(self).package_installs@ == old(self).package_installs@.update(k, rec)
                &&& *final(self) == (KernelState { package_installs: final(self).package_installs, ..*old(self) })
            },
    {
        let k = match self.find_package(package_name) {
            None => return Err(AgentOsError::NotFound("package")),
            Some(k) => k,
        };
        let mut install = self.package_installs.remove(k);
        install.status = status;
        install.disabled_reason = disabled_reason;
        install.updated_at = now;
        let out = install.duplicate();
        self.package_installs.insert(k, install);
        proof {
            assert(self.package_installs@ =~= old(self).package_installs@.update(k as int, install));
            assert forall|a: int, b: int|
                0 <= a < self.package_installs@.len() && 0 <= b < self.package_installs@.len()
                    && #[trigger] self.package_installs@[a].manifest.package_name@
                    == #[trigger] self.package_installs@[b].manifest.package_name@ implies a == b by {
                assert(self.package_installs@[a].manifest.package_name@ == old(self).package_installs@[a].manifest.package_name@);
                assert(self.package_installs@[b].manifest.package_name@ == old(self).package_installs@[b].manifest.package_name@);
            }
        }
        Ok(out)
    }

    /// Enables installed package `package_name` at `now`, clearing any
    /// disable reason. An unknown package is `NotFound`.
    pub fn enable_package(&mut self, package_name: &str, now: String) -> (r: Result<PackageInstallRecord, AgentOsError>)
        requires
            old(self).wf(),
        ensures
            final(self).wf(),
            !has_package(old(self).package_installs@, package_name@) ==> r == Err::<PackageInstallRecord, AgentOsError>(
                AgentOsError::NotFound("package"),
            ) && *final(self) == *old(self),
            has_package(old(self).package_installs@, package_name@) ==> {
                let k = package_pos(old(self).package_installs@, package_name@);
                let rec = PackageInstallRecord {
                    status: PackageInstallStatus::Enabled,
                    disabled_reason: None,
                    updated_at: now,
                    ..old(self).package_installs@[k]
                };
                &&& r == Ok::<PackageInstallRecord, AgentOsError>(rec)
                &&& final(self).package_installs@ == old(self).package_installs@.update(k, rec)
                &&& *final(self) == (KernelState { package_installs: final(self).package_installs, ..*old(self) })
            },
    {
        self.set_package_status(package_name, PackageInstallStatus::Enabled, None, now)
    }

    /// Disables installed package `package_name` at `now` for `reason`. A
    /// blank reason is a `Validation` error, whatever the package; an
    /// unknown package is `NotFound`.
    pub fn disable_package(&mut self, package_name: &str, reason: String, now: String) -> (r: Result<
        PackageInstallRecord,
        AgentOsError,
    >)
        requires
            old(self).wf(),
        ensures
            final(self).wf(),
            trimmed(reason@).len() == 0 ==> r == Err::<PackageInstallRecord, AgentOsError>(
                AgentOsError::Validation("package disable reason must not be empty"),
            ) && *final(self) == *old(self),
            trimmed(reason@).len() > 0 && !has_package(old(self).package_installs@, package_name@) ==> r == Err::<
                PackageInstallRecord,
                AgentOsError,
            >(AgentOsError::NotFound("package")) && *final(self) == *old(self),
            trimmed(reason@).len() > 0 && has_package(old(self).package_installs@, package_name@) ==> {
                let k = package_pos(old(self).package_installs@, package_name@);
                let rec = PackageInstallRecord {
                    status: PackageInstallStatus::Disabled,
                    disabled_reason: Some(reason),
                    updated_at: now,
                    ..old(self).package_installs@[k]
                };
                &&& r == Ok::<PackageInstallRecord, AgentOsError>(rec)
                &&& final(self).package_installs@ == old(self).package_installs@.update(k, rec)
                &&& *final(self) == (KernelState { package_installs: final(self).package_installs, ..*old(self) })
            },
    {
        if is_blank(reason.as_str()) {
            return Err(AgentOsError::Validation("package disable reason must not be empty"));
        }
        self.set_package_status(package_name, PackageInstallStatus::Disabled, Some(reason), now)
    }
}

/// A package name is installed once: after an installation succeeded,
/// installing any valid manifest of the same name is refused.
pub proof fn law_package_installed_once(
    before: KernelState,
    after: KernelState,
    first: PackageManifestRecord,
    p: PackageInstallProvenance,
    id: String,
    now: String,
    again: PackageManifestRecord,
    q: PackageInstallProvenance,
)
    requires
        install_error(before, first, p) is None,
        after.package_installs@ == before.package_installs@.push(installed(first, p, id, now)),
        again.manifest.package_name@ == first.manifest.package_name@,
        manifest_error(again) is None,
        trimmed(q.installed_by@).len() > 0,
    ensures
        install_error(after, again, q) == Some(AgentOsError::Validation("package is already installed")),
{
    let n = before.package_installs@.len() as int;
    assert(after.package_installs@[n].manifest.package_name@ == again.manifest.package_name@);
}

} // verus!
