//! The manifest data model and the version-gated synchronization state.
//!
//! A manifest names the authoritative database snapshot (with a strictly
//! ordering version number) and the set of image files that should exist
//! locally.  The local store keeps two scalar facts between syncs: the last
//! applied database version, which only ever grows, and the fingerprint of
//! the last applied manifest, used for change detection.

use vstd::prelude::*;

use crate::text::str_eq;

verus! {

/// The database part of a manifest: a versioned snapshot and where to get
/// it.
#[derive(Debug, Clone)]
pub struct ManifestDb {
    pub version: i64,
    pub url: String,
    pub sha256: Option<String>,
}

/// One image file named by the manifest: a relative path (or absolute URL)
/// and, optionally, the content hash the publisher declared for it.
#[derive(Debug, Clone)]
pub struct ManifestImageItem {
    pub file: String,
    pub sha256: Option<String>,
}

/// The image part of a manifest: a base URL and the full file list.
#[derive(Debug, Clone)]
pub struct ManifestImages {
    pub base_url: String,
    pub files: Vec<ManifestImageItem>,
}

/// A parsed manifest document.
#[derive(Debug, Clone)]
pub struct CatalogManifest {
    pub db: ManifestDb,
    pub images: Option<ManifestImages>,
}

/// The outcome of one sync cycle.
#[derive(Debug, Clone)]
pub struct SyncResult {
    pub updated_db: bool,
    pub downloaded_images: usize,
    pub db_version: i64,
}

/// The two scalar facts the store persists between syncs.
#[derive(Debug, Clone)]
pub struct SyncState {
    pub db_version: i64,
    pub manifest_hash: Option<String>,
}

/// The decisions a sync cycle takes before any transfer starts.
#[derive(Debug, Clone)]
pub struct SyncPlan {
    pub update_db: bool,
    pub manifest_changed: bool,
    pub clear_staging: bool,
}

/// The stored hash equals the fresh fingerprint.
pub open spec fn spec_hash_matches(stored: Option<String>, fingerprint: Seq<char>) -> bool {
    stored matches Some(h) && h@ == fingerprint
}

/// Plans a sync cycle: the database is replaced only when the manifest's
/// version is strictly newer than the stored one, and the staging subtree
/// is cleared whenever anything changed.
pub fn plan_sync(manifest: &CatalogManifest, state: &SyncState, fingerprint: &str) -> (p: SyncPlan)
    ensures
        p.update_db == (manifest.db.version > state.db_version),
        p.manifest_changed == !spec_hash_matches(state.manifest_hash, fingerprint@),
        p.clear_staging == (p.update_db || p.manifest_changed),
{
    let manifest_changed = match &state.manifest_hash {
        Some(h) => !str_eq(h.as_str(), fingerprint),
        None => true,
    };
    let update_db = manifest.db.version > state.db_version;
    SyncPlan { update_db, manifest_changed, clear_staging: update_db || manifest_changed }
}

/// The stored version after a database install: the freshly installed
/// file's own recorded version, raised to the manifest's version if the
/// fresh file still reports an older one.
pub open spec fn spec_installed_version(fresh: int, manifest_version: int) -> int {
    if fresh < manifest_version {
        manifest_version
    } else {
        fresh
    }
}

/// The stored version after a whole sync cycle against a manifest whose
/// version is `manifest_version`, when the freshly installed database file
/// reports `fresh` (irrelevant if no install happens).
pub open spec fn spec_next_version(cur: int, manifest_version: int, fresh: int) -> int {
    if manifest_version > cur {
        spec_installed_version(fresh, manifest_version)
    } else {
        cur
    }
}

/// The stored version never decreases across a sync cycle, whatever the
/// manifest declares and whatever the downloaded file reports; and after
/// the cycle it is at least the manifest's version.
pub proof fn lemma_version_monotonic(cur: int, manifest_version: int, fresh: int)
    ensures
        spec_next_version(cur, manifest_version, fresh) >= cur,
        spec_next_version(cur, manifest_version, fresh) >= manifest_version,
{
}

/// A second cycle against the same manifest leaves the stored version as it
/// stands: the first cycle raised it to at least the manifest's version, so
/// the second plans no replacement — whatever version a fresh download
/// would have reported.
pub proof fn lemma_sync_idempotent(cur: int, manifest_version: int, fresh: int, fresh2: int)
    ensures
        !(manifest_version > spec_next_version(cur, manifest_version, fresh)),
        spec_next_version(
            spec_next_version(cur, manifest_version, fresh),
            manifest_version,
            fresh2,
        ) == spec_next_version(cur, manifest_version, fresh),
{
}

/// Records a finished database install: the stored version becomes the
/// manifest's version unless the fresh file already reports a newer one.
/// The stored version never decreases.
pub fn apply_db_install(state: &mut SyncState, fresh_version: i64, manifest_version: i64)
    requires
        old(state).db_version < manifest_version,
    ensures
        final(state).db_version == spec_installed_version(
            fresh_version as int,
            manifest_version as int,
        ),
        final(state).db_version >= old(state).db_version,
        final(state).manifest_hash == old(state).manifest_hash,
{
    if fresh_version < manifest_version {
        state.db_version = manifest_version;
    } else {
        state.db_version = fresh_version;
    }
}

/// Records the fingerprint of the manifest that was just applied; the
/// stored version is untouched.
pub fn record_manifest_hash(state: &mut SyncState, fingerprint: &str)
    ensures
        final(state).db_version == old(state).db_version,
        spec_hash_matches(final(state).manifest_hash, fingerprint@),
{
    state.manifest_hash = Some(fingerprint.to_owned());
}

} // verus!
