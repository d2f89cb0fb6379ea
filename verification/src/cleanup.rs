//! Stale-artifact reconciliation: deciding which local image files are
//! orphans of the current manifest.
//!
//! The manifest's file list is the only source of truth.  A local file whose
//! normalized relative path is not in that list is an orphan and may be
//! removed — unless it lies under the staging subtree, which is exempt.  A
//! manifest without image entries is refused outright, so a malformed or
//! empty manifest can never wipe the local mirror: on an error no action
//! list is produced and nothing is deleted.

use vstd::prelude::*;

use crate::manifest::CatalogManifest;
use crate::manifest::ManifestImageItem;
use crate::paths::{is_in_launch_dir, normalize_rel_path, spec_in_launch_dir,
    spec_normalize_rel_path};
use crate::text::str_eq;

verus! {

/// What the reconciler decides for one local file.
#[derive(Debug, Clone, Copy, PartialEq, Eq, Structural)]
pub enum CleanupAction {
    /// The file lies under the staging subtree and is left alone.
    SkippedStaging,
    /// The file is named by the manifest and is kept.
    Kept,
    /// The file is an orphan and is to be removed.
    Removed,
}

/// Why a cleanup request was refused.
#[derive(Debug, Clone, Copy, PartialEq, Eq, Structural)]
pub enum CleanupError {
    /// The manifest has no image block at all.
    NoImages,
    /// The manifest's image file list is empty; deleting everything local
    /// on that basis is refused.
    EmptyImageList,
}

/// The counts a cleanup run reports.
#[derive(Debug, Clone)]
pub struct CleanupResult {
    pub removed_files: usize,
    pub kept_files: usize,
    pub total_scanned: usize,
    pub manifest_files: usize,
    pub skipped_launch_files: usize,
}

/// The normalized names of the manifest's image files.
pub open spec fn spec_manifest_names(files: Seq<ManifestImageItem>) -> Seq<Seq<char>> {
    files.map_values(|it: ManifestImageItem| spec_normalize_rel_path(it.file@))
}

/// What the reconciler decides for a local file with the given relative
/// path, against the given manifest file list.
pub open spec fn spec_cleanup_action(
    files: Seq<ManifestImageItem>,
    path: Seq<char>,
) -> CleanupAction {
    if spec_in_launch_dir(path) {
        CleanupAction::SkippedStaging
    } else if spec_manifest_names(files).contains(spec_normalize_rel_path(path)) {
        CleanupAction::Kept
    } else {
        CleanupAction::Removed
    }
}

impl CleanupError {
    /// A human-readable cause, surfaced to the caller of a refused cleanup.
    pub fn message(&self) -> (r: &'static str)
        ensures
            self is NoImages ==> r@ == "manifest has no image block"@,
            self is EmptyImageList ==> r@ == "manifest has no image files; aborting cleanup"@,
    {
        match self {
            CleanupError::NoImages => "manifest has no image block",
            CleanupError::EmptyImageList => "manifest has no image files; aborting cleanup",
        }
    }
}

/// Decides, for every file found under the image root (given by its path
/// relative to that root), whether it is kept, removed, or exempt as
/// staging content.  A manifest without image entries is refused, and then
/// no action list exists: nothing is deleted.
pub fn decide_cleanup(manifest: &CatalogManifest, walked: &Vec<String>) -> (r: Result<
    Vec<CleanupAction>,
    CleanupError,
>)
    ensures
        r is Err <==> (manifest.images is None || (manifest.images matches Some(im)
            && im.files@.len() == 0)),
        manifest.images is None ==> r == Err::<Vec<CleanupAction>, CleanupError>(
            CleanupError::NoImages,
        ),
        (manifest.images matches Some(im) && im.files@.len() == 0) ==> r == Err::<
            Vec<CleanupAction>,
            CleanupError,
        >(CleanupError::EmptyImageList),
        r matches Ok(actions) ==> {
            &&& manifest.images matches Some(im)
            &&& actions@.len() == walked@.len()
            &&& forall|i: int|
                0 <= i < walked@.len() ==> actions@[i] == spec_cleanup_action(
                    im.files@,
                    walked@[i]@,
                )
        },
        r matches Ok(actions) ==> forall|i: int|
            0 <= i < walked@.len() && spec_in_launch_dir(walked@[i]@) ==> actions@[i]
                == CleanupAction::SkippedStaging,
{
    let imgs = match &manifest.images {
        Some(imgs) => imgs,
        None => {
            return Err(CleanupError::NoImages);
        },
    };
    let m = imgs.files.len();
    if m == 0 {
        return Err(CleanupError::EmptyImageList);
    }

    let mut names: Vec<String> = Vec::new();
    for j in 0..m
        invariant
            m == imgs.files@.len(),
            names@.len() == j,
            forall|l: int| 0 <= l < j ==> names@[l]@ == spec_manifest_names(imgs.files@)[l],
    {
        names.push(normalize_rel_path(imgs.files[j].file.as_str()));
    }

    let n = walked.len();
    let mut actions: Vec<CleanupAction> = Vec::new();
    for i in 0..n
        invariant
            n == walked@.len(),
            m == imgs.files@.len(),
            names@.len() == m,
            forall|l: int| 0 <= l < m ==> names@[l]@ == spec_manifest_names(imgs.files@)[l],
            actions@.len() == i,
            forall|l: int|
                0 <= l < i ==> actions@[l] == spec_cleanup_action(imgs.files@, walked@[l]@),
    {
        let path = &walked[i];
        let act = if is_in_launch_dir(path.as_str()) {
            CleanupAction::SkippedStaging
        } else {
            let norm = normalize_rel_path(path.as_str());
            let mut found = false;
            for j in 0..m
                invariant
                    m == imgs.files@.len(),
                    names@.len() == m,
                    norm@ == spec_normalize_rel_path(walked@[i as int]@),
                    forall|l: int| 0 <= l < m ==> names@[l]@ == spec_manifest_names(imgs.files@)[l],
                    found <==> exists|l: int|
                        0 <= l < j && spec_manifest_names(imgs.files@)[l] == norm@,
            {
                let eq = str_eq(names[j].as_str(), norm.as_str());
                proof {
                    assert(names@[j as int]@ == spec_manifest_names(imgs.files@)[j as int]);
                    if eq {
                        assert(spec_manifest_names(imgs.files@)[j as int] == norm@);
                    }
                }
                if !found && eq {
                    found = true;
                }
            }
            if found {
                assert(spec_manifest_names(imgs.files@).contains(
                    spec_normalize_rel_path(walked@[i as int]@),
                ));
                CleanupAction::Kept
            } else {
                assert(!spec_manifest_names(imgs.files@).contains(
                    spec_normalize_rel_path(walked@[i as int]@),
                ));
                CleanupAction::Removed
            }
        };
        actions.push(act);
    }
    Ok(actions)
}

/// How many entries of the first `n` are the given action.
pub open spec fn spec_count_action(s: Seq<CleanupAction>, which: CleanupAction, n: int) -> int
    decreases n,
{
    if n <= 0 {
        0
    } else {
        spec_count_action(s, which, n - 1) + if s[n - 1] == which {
            1int
        } else {
            0int
        }
    }
}

/// How many of the first `n` removal decisions were actually carried out.
pub open spec fn spec_count_removed_ok(s: Seq<CleanupAction>, ok: Seq<bool>, n: int) -> int
    decreases n,
{
    if n <= 0 {
        0
    } else {
        spec_count_removed_ok(s, ok, n - 1) + if s[n - 1] == CleanupAction::Removed && ok[n - 1] {
            1int
        } else {
            0int
        }
    }
}

/// How many distinct names the first `n` entries hold.
pub open spec fn spec_distinct_count(names: Seq<Seq<char>>, n: int) -> int
    decreases n,
{
    if n <= 0 {
        0
    } else {
        spec_distinct_count(names, n - 1) + if names.take(n - 1).contains(names[n - 1]) {
            0int
        } else {
            1int
        }
    }
}

/// Counts the distinct normalized names in the manifest's file list — the
/// size of the authoritative file set a cleanup run reports.
pub fn count_manifest_files(files: &Vec<ManifestImageItem>) -> (r: usize)
    ensures
        r == spec_distinct_count(spec_manifest_names(files@), files@.len() as int),
{
    let m = files.len();
    let mut names: Vec<String> = Vec::new();
    for j in 0..m
        invariant
            m == files@.len(),
            names@.len() == j,
            forall|l: int| 0 <= l < j ==> names@[l]@ == spec_manifest_names(files@)[l],
    {
        names.push(normalize_rel_path(files[j].file.as_str()));
    }
    let ghost all = spec_manifest_names(files@);
    let mut count: usize = 0;
    for j in 0..m
        invariant
            m == files@.len(),
            names@.len() == m,
            all == spec_manifest_names(files@),
            forall|l: int| 0 <= l < m ==> names@[l]@ == all[l],
            count <= j,
            count == spec_distinct_count(all, j as int),
    {
        let mut seen = false;
        for l in 0..j
            invariant
                j < m,
                m == files@.len(),
                names@.len() == m,
                all == spec_manifest_names(files@),
                forall|t: int| 0 <= t < m ==> names@[t]@ == all[t],
                seen <==> exists|t: int| 0 <= t < l && all[t] == all[j as int],
        {
            let eq = str_eq(names[l].as_str(), names[j].as_str());
            proof {
                assert(names@[l as int]@ == all[l as int]);
                assert(names@[j as int]@ == all[j as int]);
                if eq {
                    assert(all[l as int] == all[j as int]);
                }
            }
            if !seen && eq {
                seen = true;
            }
        }
        proof {
            if seen {
                let t = choose|t: int| 0 <= t < j && all[t] == all[j as int];
                assert(all.take(j as int)[t] == all[t]);
                assert(all.take(j as int).contains(all[j as int]));
            } else {
                assert forall|t: int| 0 <= t < j implies all.take(j as int)[t] != all[j as int] by {
                    assert(all.take(j as int)[t] == all[t]);
                }
                assert(!all.take(j as int).contains(all[j as int]));
            }
        }
        if !seen {
            count = count + 1;
        }
    }
    count
}

/// Tallies a finished cleanup walk: how many files were scanned, kept,
/// exempt as staging, and actually removed (a removal the file system
/// refused is logged by the application and not counted).
pub fn cleanup_tally(
    actions: &Vec<CleanupAction>,
    removal_ok: &Vec<bool>,
    manifest_files: usize,
) -> (r: CleanupResult)
    requires
        removal_ok@.len() == actions@.len(),
    ensures
        r.total_scanned == actions@.len(),
        r.kept_files == spec_count_action(actions@, CleanupAction::Kept, actions@.len() as int),
        r.skipped_launch_files == spec_count_action(
            actions@,
            CleanupAction::SkippedStaging,
            actions@.len() as int,
        ),
        r.removed_files == spec_count_removed_ok(actions@, removal_ok@, actions@.len() as int),
        r.manifest_files == manifest_files,
{
    let n = actions.len();
    let mut kept: usize = 0;
    let mut skipped: usize = 0;
    let mut removed: usize = 0;
    for i in 0..n
        invariant
            n == actions@.len(),
            removal_ok@.len() == actions@.len(),
            kept <= i && skipped <= i && removed <= i,
            kept == spec_count_action(actions@, CleanupAction::Kept, i as int),
            skipped == spec_count_action(actions@, CleanupAction::SkippedStaging, i as int),
            removed == spec_count_removed_ok(actions@, removal_ok@, i as int),
    {
        match actions[i] {
            CleanupAction::Kept => {
                kept = kept + 1;
            },
            CleanupAction::SkippedStaging => {
                skipped = skipped + 1;
            },
            CleanupAction::Removed => {
                if removal_ok[i] {
                    removed = removed + 1;
                }
            },
        }
    }
    CleanupResult {
        removed_files: removed,
        kept_files: kept,
        total_scanned: n,
        manifest_files,
        skipped_launch_files: skipped,
    }
}

} // verus!
