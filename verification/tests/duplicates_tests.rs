use cdrive_manager::engine::knowledge_base::{cache_key, u64_le_bytes};
use cdrive_manager::duplicates::{
    content_hash, duplicate_group_from_candidates, duplicate_groups_by_hash, duplicate_size_buckets,
    is_duplicate_candidate, CandidateFile, ContentHasher, DuplicateGroup, DuplicatePreviewAccumulator,
    DuplicatePreviewOptions, DuplicatePreviewPhase,
};

fn candidate(path: &str, size: u64) -> CandidateFile {
    CandidateFile { path: path.to_owned(), size, modified: None }
}

fn dated(path: &str, size: u64, modified: u64) -> CandidateFile {
    CandidateFile { path: path.to_owned(), size, modified: Some(modified) }
}

#[test]
fn same_content_forms_duplicate_group() {
    let first = "C:\\tmp\\same-content\\a.bin";
    let second = "C:\\tmp\\same-content\\b.bin";
    let hash = content_hash(b"same");
    assert_eq!(hash, content_hash(b"same"));

    let group = duplicate_group_from_candidates(hash, vec![candidate(first, 4), candidate(second, 4)]);

    assert_eq!(group.duplicate_count, 1);
    assert_eq!(group.reclaimable_size, 4);
    assert_eq!(group.files.iter().filter(|file| file.keep).count(), 1);
}

#[test]
fn different_content_hashes_differ() {
    assert_ne!(content_hash(b"left"), content_hash(b"rght"));
}

#[test]
fn protected_duplicates_are_not_reclaimable() {
    let files = vec![
        candidate("C:\\Awork\\keep.bin", 10),
        candidate("C:\\Users\\Alice\\Documents\\duplicate.bin", 10),
    ];
    let group = duplicate_group_from_candidates("hash".to_owned(), files);

    assert_eq!(group.duplicate_size, 10);
    assert_eq!(group.protected_size, 10);
    assert_eq!(group.reclaimable_size, 0);
}

#[test]
fn keep_selection_is_path_stable() {
    let group = duplicate_group_from_candidates(
        "hash".to_owned(),
        vec![candidate("C:\\work\\b.bin", 10), candidate("C:\\work\\a.bin", 10)],
    );

    assert!(group.keep_path.ends_with("a.bin"));
}

#[test]
fn content_hash_is_blake3_hex() {
    // BLAKE3 of the empty input, from the reference test vectors
    assert_eq!(
        content_hash(b""),
        "af1349b9f5f9a1a6a0404dea36dcc9499bcb25c9adc112b7cc9a93cae41f3262"
    );
    let hex = content_hash(b"abc");
    assert_eq!(hex.len(), 64);
    assert!(hex.chars().all(|c| c.is_ascii_digit() || ('a'..='f').contains(&c)));
}

#[test]
fn incremental_hash_equals_hash_of_whole_input() {
    let mut hasher = ContentHasher::new();
    hasher.update(b"foo");
    hasher.update(b"bar");
    hasher.update(b"");
    hasher.update(b"baz");
    assert_eq!(hasher.finalize_hex(), content_hash(b"foobarbaz"));
}

#[test]
fn older_copy_is_kept() {
    let group = duplicate_group_from_candidates(
        "h".to_owned(),
        vec![dated("C:\\a\\new.bin", 7, 200), dated("C:\\z\\old.bin", 7, 100), candidate("C:\\m\\unknown.bin", 7)],
    );
    // an unknown time sorts first, then older times
    assert_eq!(group.keep_path, "C:\\m\\unknown.bin");
    assert_eq!(group.files[1].path, "C:\\z\\old.bin");
    assert_eq!(group.files[2].path, "C:\\a\\new.bin");
    assert_eq!(group.duplicate_count, 2);
    assert_eq!(group.duplicate_size, 14);
    assert_eq!(group.size, 7);
    assert!(group.files[0].keep && !group.files[1].keep && !group.files[2].keep);
}

#[test]
fn duplicate_sizes_saturate() {
    let group = duplicate_group_from_candidates(
        "h".to_owned(),
        vec![candidate("C:\\a", u64::MAX), candidate("C:\\b", u64::MAX), candidate("C:\\c", u64::MAX)],
    );
    assert_eq!(group.duplicate_size, u64::MAX);
    assert_eq!(group.reclaimable_size, u64::MAX);
}

#[test]
fn candidates_need_a_positive_size_of_at_least_the_minimum() {
    assert!(is_duplicate_candidate(10, 1));
    assert!(!is_duplicate_candidate(0, 0));
    assert!(!is_duplicate_candidate(5, 6));
    assert!(is_duplicate_candidate(6, 6));
    assert_eq!(DuplicatePreviewOptions::default().min_size, 1);
    assert_eq!(DuplicatePreviewOptions::default().root, "");
}

#[test]
fn size_buckets_keep_shared_sizes_only() {
    let files = vec![
        candidate("C:\\a", 5),
        candidate("C:\\b", 7),
        candidate("C:\\c", 5),
        candidate("C:\\d", 9),
        candidate("C:\\e", 7),
        candidate("C:\\f", 5),
    ];
    let buckets = duplicate_size_buckets(&files);
    assert_eq!(buckets, vec![vec![0, 2, 5], vec![1, 4]]);
}

#[test]
fn hash_groups_need_two_equal_hashes() {
    let files = vec![candidate("C:\\a", 5), candidate("C:\\b", 5), candidate("C:\\c", 5), candidate("C:\\d", 5)];
    let hashes = vec!["x".to_owned(), "y".to_owned(), "x".to_owned(), "z".to_owned()];
    let groups = duplicate_groups_by_hash(&files, &hashes);
    assert_eq!(groups.len(), 1);
    assert_eq!(groups[0].hash, "x");
    assert_eq!(groups[0].files.len(), 2);
    assert_eq!(groups[0].keep_path, "C:\\a");
    assert_eq!(groups[0].duplicate_size, 5);
}

fn group(keep: &str, reclaimable: u64, duplicate: u64) -> DuplicateGroup {
    let mut g = duplicate_group_from_candidates("h".to_owned(), vec![candidate(keep, 1), candidate("C:\\other", 1)]);
    g.reclaimable_size = reclaimable;
    g.duplicate_size = duplicate;
    g
}

#[test]
fn accumulator_ranks_groups_by_reclaimable_size() {
    let mut acc = DuplicatePreviewAccumulator::new("C:\\", 1);
    acc.record_group(group("C:\\b", 10, 10));
    acc.record_group(group("C:\\a", 10, 10));
    acc.record_group(group("C:\\c", 30, 30));
    acc.record_group(group("C:\\d", 10, 20));
    let order: Vec<&str> = acc.groups.iter().map(|g| g.keep_path.as_str()).collect();
    assert_eq!(order, vec!["C:\\c", "C:\\d", "C:\\a", "C:\\b"]);
    assert_eq!(acc.duplicate_group_count, 4);
    assert_eq!(acc.reclaimable_size, 60);
    assert_eq!(acc.duplicate_size, 70);
    assert_eq!(acc.duplicate_file_count, 4);
    let preview = acc.snapshot();
    assert_eq!(preview.groups.len(), 4);
    assert_eq!(preview.root, "C:\\");
}

#[test]
fn accumulator_keeps_two_hundred_groups() {
    let mut acc = DuplicatePreviewAccumulator::new("C:\\", 1);
    for i in 0..205u64 {
        acc.record_group(group(&format!("C:\\g{i:03}"), i, i));
    }
    assert_eq!(acc.groups.len(), 200);
    assert_eq!(acc.duplicate_group_count, 205);
    assert_eq!(acc.groups[0].reclaimable_size, 204);
    assert_eq!(acc.groups[199].reclaimable_size, 5);
}

#[test]
fn accumulator_keeps_three_hundred_errors() {
    let mut acc = DuplicatePreviewAccumulator::new("C:\\", 1);
    for i in 0..310 {
        acc.record_error(format!("error {i}"));
    }
    assert_eq!(acc.error_count, 310);
    assert_eq!(acc.errors.len(), 300);
    assert_eq!(acc.errors[299], "error 299");
}

#[test]
fn duplicate_phase_labels() {
    assert_eq!(DuplicatePreviewPhase::CollectingSizes.label(), "收集同大小候选");
    assert_eq!(DuplicatePreviewPhase::HashingCandidates.label(), "计算候选哈希");
    assert_eq!(DuplicatePreviewPhase::Finished.label(), "完成");
}

#[test]
fn cache_keys_hash_path_and_time() {
    assert_eq!(u64_le_bytes(0x0102), vec![2, 1, 0, 0, 0, 0, 0, 0]);
    let key = cache_key("C:\\Windows\\Temp\\test_cache.tmp", 12345);
    let mut bytes = "C:\\Windows\\Temp\\test_cache.tmp".as_bytes().to_vec();
    bytes.extend_from_slice(&12345u64.to_le_bytes());
    assert_eq!(key, content_hash(&bytes));
    assert_eq!(key.len(), 64);
    assert_ne!(key, cache_key("C:\\Windows\\Temp\\test_cache.tmp", 99999));
}

#[test]
fn keep_copy_is_chosen_component_by_component() {
    let c = |p: &str| CandidateFile { path: p.to_string(), size: 10, modified: Some(5) };
    let group = duplicate_group_from_candidates("h".to_string(), vec![c("C:\\a-b\\x.bin"), c("C:\\a\\z.bin")]);
    assert_eq!(group.keep_path, "C:\\a\\z.bin");
    let group = duplicate_group_from_candidates("h".to_string(), vec![c("C:\\aB.bin"), c("C:\\a\\b.bin")]);
    assert_eq!(group.keep_path, "C:\\a\\b.bin");
}
