use aes_gcm::aead::Aead;
use aes_gcm::KeyInit;

use catalog_sync::cache::{needs_download, plan_downloads, resolve_url, LocalImageStatus};
use catalog_sync::cleanup::{cleanup_tally, count_manifest_files, decide_cleanup, CleanupAction,
    CleanupError};
use catalog_sync::container::{decrypt_image, parse_container, DecryptError, KDF_ITERS};
use catalog_sync::downloader::{effective_concurrency, summarize_downloads, BoundedDownloader};
use catalog_sync::manifest::{apply_db_install, plan_sync, record_manifest_hash, CatalogManifest,
    ManifestDb, ManifestImageItem, ManifestImages, SyncState};

fn manifest(version: i64, files: Vec<ManifestImageItem>) -> CatalogManifest {
    CatalogManifest {
        db: ManifestDb { version, url: "https://example.com/catalog.db".to_string(), sha256: None },
        images: Some(ManifestImages { base_url: "https://example.com/img/".to_string(), files }),
    }
}

fn item(file: &str, sha: Option<&str>) -> ManifestImageItem {
    ManifestImageItem { file: file.to_string(), sha256: sha.map(|s| s.to_string()) }
}

#[test]
fn sync_scenario_installs_then_settles() {
    // the manifest declares version 5 while version 3 is stored: the
    // database is replaced and the stored version becomes 5; a second cycle
    // against the same manifest replaces nothing
    let m = manifest(5, vec![]);
    let mut state = SyncState { db_version: 3, manifest_hash: None };
    let fp = "abc123";

    let plan = plan_sync(&m, &state, fp);
    assert!(plan.update_db);
    assert!(plan.manifest_changed);
    assert!(plan.clear_staging);

    // the freshly installed file reports version 5 itself
    apply_db_install(&mut state, 5, m.db.version);
    record_manifest_hash(&mut state, fp);
    assert_eq!(state.db_version, 5);

    let second = plan_sync(&m, &state, fp);
    assert!(!second.update_db);
    assert!(!second.manifest_changed);
    assert!(!second.clear_staging);
    assert_eq!(state.db_version, 5);
}

#[test]
fn version_never_decreases() {
    // an older manifest applied after a newer one leaves the version alone
    let mut state = SyncState { db_version: 5, manifest_hash: Some("h1".to_string()) };
    let older = manifest(4, vec![]);
    let plan = plan_sync(&older, &state, "h2");
    assert!(!plan.update_db);
    assert!(plan.manifest_changed);
    record_manifest_hash(&mut state, "h2");
    assert_eq!(state.db_version, 5);
}

#[test]
fn stale_downloaded_file_still_advances_version() {
    // the downloaded database reports an old version of its own: the stored
    // version is raised to the manifest's
    let mut state = SyncState { db_version: 3, manifest_hash: None };
    apply_db_install(&mut state, 2, 5);
    assert_eq!(state.db_version, 5);
}

#[test]
fn needs_download_rules() {
    let fresh = LocalImageStatus { exists: true, cached_sha: Some("aa".to_string()) };
    assert!(!needs_download(&item("a.png", Some("aa")), &fresh, false));
    assert!(!needs_download(&item("a.png", Some("aa")), &fresh, true));
    // missing file
    let missing = LocalImageStatus { exists: false, cached_sha: None };
    assert!(needs_download(&item("a.png", Some("aa")), &missing, false));
    // hash mismatch
    assert!(needs_download(&item("a.png", Some("bb")), &fresh, false));
    // no cached hash yet
    let uncached = LocalImageStatus { exists: true, cached_sha: None };
    assert!(needs_download(&item("a.png", Some("aa")), &uncached, false));
    // no declared hash: refetch only when the manifest changed
    assert!(!needs_download(&item("a.png", None), &uncached, false));
    assert!(needs_download(&item("a.png", None), &uncached, true));
}

#[test]
fn sync_twice_downloads_nothing() {
    // after a fully successful sync every file exists and every declared
    // hash is cached: the second pass plans zero downloads
    let imgs = ManifestImages {
        base_url: "https://example.com/img/".to_string(),
        files: vec![item("a.png", Some("aa")), item("b.png", None), item("c.png", Some("cc"))],
    };
    let statuses = vec![
        LocalImageStatus { exists: true, cached_sha: Some("aa".to_string()) },
        LocalImageStatus { exists: true, cached_sha: None },
        LocalImageStatus { exists: true, cached_sha: Some("cc".to_string()) },
    ];
    let jobs = plan_downloads(&imgs, &statuses, false);
    assert_eq!(jobs.len(), 0);
}

#[test]
fn plan_downloads_builds_jobs_in_manifest_order() {
    let imgs = ManifestImages {
        base_url: "https://example.com/img/".to_string(),
        files: vec![
            item("a.png", Some("aa")),
            item("sub/b.png", Some("bb")),
            item("http://cdn.example.com/c.png", None),
        ],
    };
    let statuses = vec![
        LocalImageStatus { exists: true, cached_sha: Some("aa".to_string()) },
        LocalImageStatus { exists: false, cached_sha: None },
        LocalImageStatus { exists: false, cached_sha: None },
    ];
    let jobs = plan_downloads(&imgs, &statuses, false);
    assert_eq!(jobs.len(), 2);
    assert_eq!(jobs[0].rel_name, "sub/b.png");
    assert_eq!(jobs[0].url, "https://example.com/img/sub/b.png");
    assert_eq!(jobs[0].expected_sha, Some("bb".to_string()));
    assert_eq!(jobs[1].rel_name, "http://cdn.example.com/c.png");
    assert_eq!(jobs[1].url, "http://cdn.example.com/c.png");
    assert_eq!(jobs[1].expected_sha, None);
}

#[test]
fn resolve_url_joins_against_base() {
    assert_eq!(
        resolve_url("https://h.example/base/", "img/a.png"),
        "https://h.example/base/img/a.png"
    );
    assert_eq!(resolve_url("https://h.example/", "https://other/x.png"), "https://other/x.png");
    // an unparsable base falls back to plain concatenation
    assert_eq!(resolve_url("not a url", "a.png"), "not a urla.png");
}

#[test]
fn partial_failures_are_counted_not_fatal() {
    // 3 of 10 downloads fail: the summary reports 7 downloaded, and the
    // batch yields a summary rather than an error
    let imgs = ManifestImages {
        base_url: "https://example.com/".to_string(),
        files: (0..10).map(|i| item(&format!("f{}.png", i), Some("aa"))).collect(),
    };
    let statuses: Vec<LocalImageStatus> =
        (0..10).map(|_| LocalImageStatus { exists: false, cached_sha: None }).collect();
    let jobs = plan_downloads(&imgs, &statuses, true);
    assert_eq!(jobs.len(), 10);
    let ok = vec![true, true, false, true, false, true, true, false, true, true];
    let summary = summarize_downloads(&jobs, &ok);
    assert_eq!(summary.downloaded, 7);
    assert_eq!(summary.errors, 3);
    assert_eq!(summary.cache_updates.len(), 7);
    assert_eq!(summary.cache_updates[0].filename, "f0.png");
    assert_eq!(summary.cache_updates[0].sha256, "aa");
}

#[test]
fn cache_updates_only_for_declared_hashes() {
    let imgs = ManifestImages {
        base_url: "https://example.com/".to_string(),
        files: vec![item("a.png", Some("aa")), item("b.png", None)],
    };
    let statuses: Vec<LocalImageStatus> =
        (0..2).map(|_| LocalImageStatus { exists: false, cached_sha: None }).collect();
    let jobs = plan_downloads(&imgs, &statuses, false);
    let summary = summarize_downloads(&jobs, &vec![true, true]);
    assert_eq!(summary.downloaded, 2);
    assert_eq!(summary.cache_updates.len(), 1);
    assert_eq!(summary.cache_updates[0].filename, "a.png");
}

#[test]
fn bounded_downloader_never_exceeds_limit() {
    // 10 pending downloads with a ceiling of 2: however the schedule
    // interleaves starts and finishes, at most 2 run at once
    let mut dl = BoundedDownloader::new(2);
    assert_eq!(dl.capacity(), 2);
    let mut pending: usize = 10;
    let mut running: usize = 0;
    let mut max_seen: usize = 0;
    while pending > 0 || running > 0 {
        while pending > 0 && dl.try_start() {
            pending -= 1;
            running += 1;
            assert!(dl.active() <= dl.capacity());
            if dl.active() > max_seen {
                max_seen = dl.active();
            }
        }
        if running > 0 {
            dl.finish();
            running -= 1;
        }
    }
    assert_eq!(max_seen, 2);
    assert_eq!(dl.active(), 0);
}

#[test]
fn concurrency_default_applies() {
    assert_eq!(effective_concurrency(None), 16);
    assert_eq!(effective_concurrency(Some(0)), 16);
    assert_eq!(effective_concurrency(Some(2)), 2);
}

#[test]
fn cleanup_refuses_empty_manifest() {
    // a manifest without image entries never deletes anything: the request
    // is refused before any action list exists
    let no_images = CatalogManifest {
        db: ManifestDb { version: 1, url: String::new(), sha256: None },
        images: None,
    };
    let walked = vec!["a.png".to_string()];
    assert_eq!(decide_cleanup(&no_images, &walked), Err(CleanupError::NoImages));

    let empty_list = manifest(1, vec![]);
    assert_eq!(decide_cleanup(&empty_list, &walked), Err(CleanupError::EmptyImageList));
    assert_eq!(CleanupError::EmptyImageList.message(), "manifest has no image files; aborting cleanup");
}

#[test]
fn cleanup_keeps_manifest_files_and_removes_orphans() {
    let m = manifest(1, vec![item("KEEP.png", None), item("./sub/Other.JPG", None)]);
    let walked = vec![
        "keep.png".to_string(),
        "orphan.png".to_string(),
        "Lancamentos/x.png".to_string(),
        "sub\\other.jpg".to_string(),
    ];
    let actions = decide_cleanup(&m, &walked).unwrap();
    assert_eq!(
        actions,
        vec![
            CleanupAction::Kept,
            CleanupAction::Removed,
            CleanupAction::SkippedStaging,
            CleanupAction::Kept,
        ]
    );
    let tally = cleanup_tally(&actions, &vec![true, true, true, true], 2);
    assert_eq!(tally.total_scanned, 4);
    assert_eq!(tally.kept_files, 2);
    assert_eq!(tally.removed_files, 1);
    assert_eq!(tally.skipped_launch_files, 1);
    assert_eq!(tally.manifest_files, 2);
}

#[test]
fn cleanup_counts_only_successful_removals() {
    let m = manifest(1, vec![item("k.png", None)]);
    let walked = vec!["o1.png".to_string(), "o2.png".to_string()];
    let actions = decide_cleanup(&m, &walked).unwrap();
    assert_eq!(actions, vec![CleanupAction::Removed, CleanupAction::Removed]);
    let tally = cleanup_tally(&actions, &vec![true, false], 1);
    assert_eq!(tally.removed_files, 1);
    assert_eq!(tally.total_scanned, 2);
}

#[test]
fn staging_files_never_removed_whatever_the_manifest() {
    let m = manifest(1, vec![item("x.png", None)]);
    let walked = vec!["lançamentos/new.png".to_string(), "a/LANCAMENTOS/b.png".to_string()];
    let actions = decide_cleanup(&m, &walked).unwrap();
    assert_eq!(actions, vec![CleanupAction::SkippedStaging, CleanupAction::SkippedStaging]);
}

#[test]
fn manifest_file_count_is_distinct_normalized() {
    let files = vec![item("a.png", None), item("A.PNG", None), item("b.png", None)];
    assert_eq!(count_manifest_files(&files), 2);
}

#[test]
fn container_rejects_short_or_foreign_data() {
    assert_eq!(decrypt_image(b"CIMG", "pw"), Err(DecryptError::TooShort));
    let foreign = [0u8; 40];
    assert_eq!(decrypt_image(&foreign, "pw"), Err(DecryptError::UnknownFormat));
    assert_eq!(DecryptError::TooShort.message(), "encrypted image too short");
}

#[test]
fn container_round_trip() {
    let password = "test password";
    let salt = [7u8; 16];
    let nonce_bytes = [9u8; 12];
    let plaintext = b"image bytes";

    let mut key = [0u8; 32];
    pbkdf2::pbkdf2_hmac::<sha2::Sha256>(password.as_bytes(), &salt, KDF_ITERS, &mut key);
    let cipher = aes_gcm::Aes256Gcm::new_from_slice(&key).unwrap();
    let nonce: &aes_gcm::Nonce<aes_gcm::aead::consts::U12> =
        (&nonce_bytes[..]).try_into().unwrap();
    let ciphertext = cipher.encrypt(nonce, plaintext.as_slice()).unwrap();

    let mut data = Vec::new();
    data.extend_from_slice(b"CIMG");
    data.push(1u8);
    data.extend_from_slice(&salt);
    data.extend_from_slice(&nonce_bytes);
    data.extend_from_slice(&ciphertext);

    let parts = parse_container(&data).unwrap();
    assert_eq!(parts.salt, salt.to_vec());
    assert_eq!(parts.nonce, nonce_bytes.to_vec());

    assert_eq!(decrypt_image(&data, password), Ok(plaintext.to_vec()));
    assert_eq!(decrypt_image(&data, "wrong"), Err(DecryptError::DecryptFailed));
}
