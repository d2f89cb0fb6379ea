//! The image cache decision: which manifest entries must be fetched.
//!
//! The cache records, per manifest-relative filename, the hash that was last
//! successfully downloaded.  An entry needs a download when the local file is
//! missing, when the manifest declares a hash different from the cached one,
//! or — for entries without a declared hash — when the manifest itself
//! changed since the last applied sync.

use vstd::prelude::*;

use crate::manifest::{ManifestImageItem, ManifestImages};
use crate::text::{chars_of, chars_starts_with, is_prefix, str_eq};

verus! {

/// What the application found locally for one manifest entry: whether the
/// file exists on disk, and the hash the cache recorded for it.
#[derive(Debug, Clone)]
pub struct LocalImageStatus {
    pub exists: bool,
    pub cached_sha: Option<String>,
}

/// One pending transfer: the resolved URL, the manifest-relative name, and
/// the hash the manifest declared (recorded in the cache on success).
#[derive(Debug, Clone)]
pub struct DownloadJob {
    pub url: String,
    pub rel_name: String,
    pub expected_sha: Option<String>,
}

/// The text of an optional string.
pub open spec fn spec_opt_view(o: Option<String>) -> Option<Seq<char>> {
    match o {
        Some(s) => Some(s@),
        None => None,
    }
}

/// The manifest entry must be fetched.
pub open spec fn spec_needs_download(
    item: ManifestImageItem,
    status: LocalImageStatus,
    manifest_changed: bool,
) -> bool {
    !status.exists || (match item.sha256 {
        Some(h) => !(status.cached_sha matches Some(c) && c@ == h@),
        None => manifest_changed,
    })
}

/// Decides whether one manifest entry must be fetched, from what the
/// application found locally.
pub fn needs_download(
    item: &ManifestImageItem,
    status: &LocalImageStatus,
    manifest_changed: bool,
) -> (r: bool)
    ensures
        r == spec_needs_download(*item, *status, manifest_changed),
{
    if !status.exists {
        return true;
    }
    match &item.sha256 {
        Some(h) => match &status.cached_sha {
            Some(c) => !str_eq(c.as_str(), h.as_str()),
            None => true,
        },
        None => manifest_changed,
    }
}

/// What resolving `rel` against `base` yields under the `url` crate's
/// reference-resolution algorithm: the resolved text, or nothing when the
/// base does not parse or the join fails.
pub uninterp spec fn url_join_of(base: Seq<char>, rel: Seq<char>) -> Option<Seq<char>>;

/// Relies on `url::Url::parse` and `url::Url::join`: RFC 3986 reference
/// resolution of `rel` against `base`, a function of the two texts alone;
/// both the resolved and the failing outcome are tied to the name, so the
/// result is fully pinned.
#[verifier::external_body]
fn join_url(base: &str, rel: &str) -> (r: Option<String>)
    ensures
        r matches Some(u) ==> url_join_of(base@, rel@) == Some(u@),
        r is None ==> url_join_of(base@, rel@) is None,
{
    match url::Url::parse(base) {
        Ok(b) => match b.join(rel) {
            Ok(u) => Some(u.to_string()),
            Err(_) => None,
        },
        Err(_) => None,
    }
}

/// The entry names an absolute URL of its own.
pub open spec fn spec_is_absolute_url(s: Seq<char>) -> bool {
    is_prefix("http://"@, s) || is_prefix("https://"@, s)
}

/// What `resolve_url` returns: an absolute entry is taken as it stands; a
/// relative one is resolved against the base URL, falling back to plain
/// concatenation exactly when the resolution fails.
pub open spec fn spec_resolved_url(r: Seq<char>, base: Seq<char>, file: Seq<char>) -> bool {
    if spec_is_absolute_url(file) {
        r == file
    } else {
        match url_join_of(base, file) {
            Some(u) => r == u,
            None => r == base + file,
        }
    }
}

/// Resolves the URL one manifest entry is fetched from.
pub fn resolve_url(base: &str, file: &str) -> (r: String)
    ensures
        spec_resolved_url(r@, base@, file@),
{
    let fv = chars_of(file);
    let p1 = chars_of("http://");
    let p2 = chars_of("https://");
    proof {
        reveal_strlit("http://");
        reveal_strlit("https://");
    }
    if chars_starts_with(&fv, &p1) || chars_starts_with(&fv, &p2) {
        return file.to_owned();
    }
    match join_url(base, file) {
        Some(u) => u,
        None => base.to_owned().concat(file),
    }
}

/// The indices of the first `n` manifest entries that must be fetched, in
/// manifest order.
pub open spec fn spec_needed_indices(
    files: Seq<ManifestImageItem>,
    statuses: Seq<LocalImageStatus>,
    manifest_changed: bool,
    n: int,
) -> Seq<int>
    decreases n,
{
    if n <= 0 {
        Seq::empty()
    } else {
        let rest = spec_needed_indices(files, statuses, manifest_changed, n - 1);
        if spec_needs_download(files[n - 1], statuses[n - 1], manifest_changed) {
            rest.push(n - 1)
        } else {
            rest
        }
    }
}

/// A planned job list matches the needed entries, one job per needed index,
/// in manifest order.
pub open spec fn spec_plan_matches(
    jobs: Seq<DownloadJob>,
    imgs: ManifestImages,
    statuses: Seq<LocalImageStatus>,
    manifest_changed: bool,
    n: int,
) -> bool {
    let idxs = spec_needed_indices(imgs.files@, statuses, manifest_changed, n);
    &&& jobs.len() == idxs.len()
    &&& forall|k: int|
        0 <= k < jobs.len() ==> {
            &&& 0 <= #[trigger] idxs[k] < imgs.files@.len()
            &&& jobs[k].rel_name@ == imgs.files@[idxs[k]].file@
            &&& spec_opt_view(jobs[k].expected_sha) == spec_opt_view(imgs.files@[idxs[k]].sha256)
            &&& spec_resolved_url(jobs[k].url@, imgs.base_url@, imgs.files@[idxs[k]].file@)
        }
}

/// Plans the download pass for one sync cycle: a single read-only pass that
/// turns the manifest's file list and the locally observed statuses into the
/// list of jobs that actually need fetching, before any transfer starts.
pub fn plan_downloads(
    imgs: &ManifestImages,
    statuses: &Vec<LocalImageStatus>,
    manifest_changed: bool,
) -> (jobs: Vec<DownloadJob>)
    requires
        statuses@.len() == imgs.files@.len(),
    ensures
        spec_plan_matches(jobs@, *imgs, statuses@, manifest_changed, imgs.files@.len() as int),
{
    let n = imgs.files.len();
    let mut jobs: Vec<DownloadJob> = Vec::new();
    for i in 0..n
        invariant
            n == imgs.files@.len(),
            statuses@.len() == imgs.files@.len(),
            spec_plan_matches(jobs@, *imgs, statuses@, manifest_changed, i as int),
    {
        let item = &imgs.files[i];
        let status = &statuses[i];
        if needs_download(item, status, manifest_changed) {
            let url = resolve_url(imgs.base_url.as_str(), item.file.as_str());
            let expected_sha = match &item.sha256 {
                Some(h) => Some(h.clone()),
                None => None,
            };
            let job = DownloadJob { url, rel_name: item.file.clone(), expected_sha };
            jobs.push(job);
        }
    }
    jobs
}

/// When nothing changed since a fully successful sync — every file exists,
/// every declared hash is already cached, and the manifest's fingerprint is
/// the one last applied — no entry needs fetching: the second run downloads
/// nothing.
pub proof fn lemma_plan_idempotent(
    files: Seq<ManifestImageItem>,
    statuses: Seq<LocalImageStatus>,
    n: int,
)
    requires
        n <= files.len(),
        n <= statuses.len(),
        forall|i: int| 0 <= i < n ==> (#[trigger] statuses[i]).exists,
        forall|i: int|
            0 <= i < n ==> match (#[trigger] files[i]).sha256 {
                Some(h) => statuses[i].cached_sha matches Some(c) && c@ == h@,
                None => true,
            },
    ensures
        spec_needed_indices(files, statuses, false, n).len() == 0,
    decreases n,
{
    if n > 0 {
        lemma_plan_idempotent(files, statuses, n - 1);
    }
}

} // verus!
