//! The bounded download phase.
//!
//! Image downloads run concurrently, gated by a counting semaphore so that
//! at most a configured number are in flight at once.  `BoundedDownloader`
//! is the model of that discipline: every operation preserves the bound, so
//! no schedule can exceed it.  After all transfers have joined, a single
//! serialized pass summarizes the outcomes and collects the cache writes;
//! per-file failures are counted, never escalated.

use vstd::prelude::*;

use crate::cache::DownloadJob;

verus! {

/// The concurrency ceiling used when none is configured.
pub const DEFAULT_IMG_CONCURRENCY: usize = 16;

/// The concurrency ceiling a sync cycle runs with: the configured value if
/// it is positive, the default otherwise.
pub fn effective_concurrency(configured: Option<usize>) -> (r: usize)
    ensures
        r == (match configured {
            Some(v) => if v > 0 {
                v as int
            } else {
                DEFAULT_IMG_CONCURRENCY as int
            },
            None => DEFAULT_IMG_CONCURRENCY as int,
        }),
        r >= 1,
{
    match configured {
        Some(v) => if v > 0 {
            v
        } else {
            DEFAULT_IMG_CONCURRENCY
        },
        None => DEFAULT_IMG_CONCURRENCY,
    }
}

/// The counting-semaphore discipline of the download phase: a task may
/// start only while fewer than `limit` are in flight, and every finished
/// task gives its permit back.  Whatever order tasks start and finish in,
/// the in-flight count never exceeds the limit.
pub struct BoundedDownloader {
    limit: usize,
    in_flight: usize,
}

impl BoundedDownloader {
    /// The configured ceiling.
    pub closed spec fn spec_limit(&self) -> int {
        self.limit as int
    }

    /// How many tasks hold a permit.
    pub closed spec fn spec_in_flight(&self) -> int {
        self.in_flight as int
    }

    /// The bound every operation preserves: never more than `limit` tasks
    /// in flight.
    pub open spec fn wf(&self) -> bool {
        &&& self.spec_limit() >= 1
        &&& 0 <= self.spec_in_flight() <= self.spec_limit()
    }

    pub fn new(limit: usize) -> (r: Self)
        requires
            limit >= 1,
        ensures
            r.wf(),
            r.spec_limit() == limit,
            r.spec_in_flight() == 0,
    {
        BoundedDownloader { limit, in_flight: 0 }
    }

    /// Tries to start one task: succeeds exactly when a permit is free.
    pub fn try_start(&mut self) -> (started: bool)
        requires
            old(self).wf(),
        ensures
            final(self).wf(),
            final(self).spec_limit() == old(self).spec_limit(),
            started ==> old(self).spec_in_flight() < old(self).spec_limit()
                && final(self).spec_in_flight() == old(self).spec_in_flight() + 1,
            !started ==> old(self).spec_in_flight() == old(self).spec_limit()
                && final(self).spec_in_flight() == old(self).spec_in_flight(),
    {
        if self.in_flight < self.limit {
            self.in_flight = self.in_flight + 1;
            true
        } else {
            false
        }
    }

    /// One task finished and returns its permit.
    pub fn finish(&mut self)
        requires
            old(self).wf(),
            old(self).spec_in_flight() >= 1,
        ensures
            final(self).wf(),
            final(self).spec_limit() == old(self).spec_limit(),
            final(self).spec_in_flight() == old(self).spec_in_flight() - 1,
    {
        self.in_flight = self.in_flight - 1;
    }

    /// How many tasks currently hold a permit.
    pub fn active(&self) -> (r: usize)
        ensures
            r == self.spec_in_flight(),
    {
        self.in_flight
    }

    /// The configured ceiling.
    pub fn capacity(&self) -> (r: usize)
        ensures
            r == self.spec_limit(),
    {
        self.limit
    }
}

/// One cache write owed after a successful download whose manifest entry
/// declared a hash.
#[derive(Debug, Clone)]
pub struct CacheUpdate {
    pub filename: String,
    pub sha256: String,
}

/// What the download phase reports: both counts, and the cache writes to
/// perform in the serialized pass after the join barrier.
#[derive(Debug, Clone)]
pub struct DownloadSummary {
    pub downloaded: usize,
    pub errors: usize,
    pub cache_updates: Vec<CacheUpdate>,
}

/// How many of the first `n` outcomes succeeded.
pub open spec fn spec_count_ok(ok: Seq<bool>, n: int) -> int
    decreases n,
{
    if n <= 0 {
        0
    } else {
        spec_count_ok(ok, n - 1) + if ok[n - 1] {
            1int
        } else {
            0int
        }
    }
}

/// The cache writes owed by the first `n` outcomes: one `(name, hash)` pair
/// per successful job whose manifest entry declared a hash.
pub open spec fn spec_cache_updates(jobs: Seq<DownloadJob>, ok: Seq<bool>, n: int) -> Seq<
    (Seq<char>, Seq<char>),
>
    decreases n,
{
    if n <= 0 {
        Seq::empty()
    } else {
        let rest = spec_cache_updates(jobs, ok, n - 1);
        if ok[n - 1] && jobs[n - 1].expected_sha is Some {
            rest.push((jobs[n - 1].rel_name@, jobs[n - 1].expected_sha->0@))
        } else {
            rest
        }
    }
}

/// Summarizes a finished batch: each success counts once, each failure
/// counts once and aborts nothing, and the successful jobs with a declared
/// hash become the cache writes of the post-join pass.
pub fn summarize_downloads(jobs: &Vec<DownloadJob>, ok: &Vec<bool>) -> (r: DownloadSummary)
    requires
        ok@.len() == jobs@.len(),
    ensures
        r.downloaded == spec_count_ok(ok@, jobs@.len() as int),
        r.downloaded + r.errors == jobs@.len(),
        r.cache_updates@.len() == spec_cache_updates(jobs@, ok@, jobs@.len() as int).len(),
        forall|k: int|
            0 <= k < r.cache_updates@.len() ==> (#[trigger] r.cache_updates@[k].filename@,
            r.cache_updates@[k].sha256@) == spec_cache_updates(jobs@, ok@, jobs@.len() as int)[k],
{
    let n = jobs.len();
    let mut downloaded: usize = 0;
    let mut errors: usize = 0;
    let mut cache_updates: Vec<CacheUpdate> = Vec::new();
    for i in 0..n
        invariant
            n == jobs@.len(),
            ok@.len() == jobs@.len(),
            downloaded == spec_count_ok(ok@, i as int),
            downloaded + errors == i,
            cache_updates@.len() == spec_cache_updates(jobs@, ok@, i as int).len(),
            forall|k: int|
                0 <= k < cache_updates@.len() ==> (#[trigger] cache_updates@[k].filename@,
                cache_updates@[k].sha256@) == spec_cache_updates(jobs@, ok@, i as int)[k],
    {
        if ok[i] {
            downloaded = downloaded + 1;
            match &jobs[i].expected_sha {
                Some(h) => {
                    cache_updates.push(
                        CacheUpdate { filename: jobs[i].rel_name.clone(), sha256: h.clone() },
                    );
                },
                None => {},
            }
        } else {
            errors = errors + 1;
        }
    }
    DownloadSummary { downloaded, errors, cache_updates }
}

} // verus!
