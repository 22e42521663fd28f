use procmem::summarize;

fn lines(v: &[&str]) -> Option<Vec<String>> {
    Some(v.iter().map(|s| s.to_string()).collect())
}

#[test]
fn size_line_contributes_its_value() {
    let s = summarize(1, lines(&["Size:     128 kB"])).unwrap();
    assert_eq!(s.size_kb, 128);
}

#[test]
fn size_line_without_space_before_unit_contributes_nothing() {
    let s = summarize(1, lines(&["size: 128kB"])).unwrap();
    assert_eq!(s.size_kb, 0);
}

#[test]
fn fields_sum_every_occurrence_case_insensitively() {
    let s = summarize(
        2,
        lines(&[
            "Rss: 10 kB",
            "some unrelated line",
            "RSS:        5 kB",
            "VmFlags: rd ex mr",
            "rSs: 7 kB",
            "Pss: 3 kB",
        ]),
    )
    .unwrap();
    assert_eq!(s.rss_kb, 22);
    assert_eq!(s.pss_kb, 3);
    assert_eq!(s.size_kb, 0);
}

#[test]
fn every_recognized_label_feeds_its_own_field() {
    let s = summarize(
        3,
        lines(&[
            "Size: 1 kB",
            "Rss: 2 kB",
            "Pss: 3 kB",
            "Shared_Clean: 4 kB",
            "Shared_Dirty: 5 kB",
            "Private_Clean: 6 kB",
            "Count: 7 kB",
            "Private_Dirty: 8 kB",
            "Referenced: 9 kB",
            "Swap: 10 kB",
        ]),
    )
    .unwrap();
    assert_eq!(s.pid, 3);
    assert_eq!(s.size_kb, 1);
    assert_eq!(s.rss_kb, 2);
    assert_eq!(s.pss_kb, 3);
    assert_eq!(s.shared_clean_kb, 4);
    assert_eq!(s.shared_dirty_kb, 5);
    assert_eq!(s.private_clean_kb, 6);
    assert_eq!(s.mapping_count, 7);
    assert_eq!(s.private_dirty_kb, 8);
    assert_eq!(s.referenced_kb, 9);
    assert_eq!(s.swap_kb, 10);
}

#[test]
fn unknown_labels_affect_no_field() {
    let s = summarize(
        4,
        lines(&[
            "Wss: 100 kB",
            "Sizes: 5 kB",
            "swapped: 3 kB",
            "Anonymous: 12 kB",
            "KernelPageSize: 4 kB",
        ]),
    )
    .unwrap();
    assert_eq!(s.size_kb, 0);
    assert_eq!(s.rss_kb, 0);
    assert_eq!(s.pss_kb, 0);
    assert_eq!(s.shared_clean_kb, 0);
    assert_eq!(s.shared_dirty_kb, 0);
    assert_eq!(s.private_clean_kb, 0);
    assert_eq!(s.mapping_count, 0);
    assert_eq!(s.private_dirty_kb, 0);
    assert_eq!(s.referenced_kb, 0);
    assert_eq!(s.swap_kb, 0);
}

#[test]
fn labels_match_only_at_the_start_of_the_line() {
    let s = summarize(5, lines(&[" Rss: 5 kB", "Rss : 5 kB", "xRss: 5 kB"])).unwrap();
    assert_eq!(s.rss_kb, 0);
}

#[test]
fn tabs_separate_tokens_like_spaces() {
    let s = summarize(6, lines(&["Swap:\t99 \tkB"])).unwrap();
    assert_eq!(s.swap_kb, 99);
}

#[test]
fn unreadable_stream_gives_no_summary() {
    assert!(summarize(7, None).is_none());
}

#[test]
fn empty_stream_gives_zeroed_summary() {
    let s = summarize(8, lines(&[])).unwrap();
    assert_eq!(s.pid, 8);
    assert_eq!(s.rss_kb, 0);
}

#[test]
fn a_field_saturates_at_its_width() {
    let s = summarize(9, lines(&["Pss: 4294967295 kB", "Pss: 4294967295 kB"])).unwrap();
    assert_eq!(s.pss_kb, u32::MAX);
}

#[test]
fn uss_is_private_clean_plus_private_dirty() {
    let s = summarize(10, lines(&["Private_Clean: 3 kB", "Private_Dirty: 5 kB"])).unwrap();
    assert_eq!(s.uss_kb(), 8);
    let t = summarize(
        11,
        lines(&["Private_Clean: 4294967295 kB", "Private_Dirty: 4294967295 kB"]),
    )
    .unwrap();
    assert_eq!(t.uss_kb(), 2 * (u32::MAX as u64));
}
