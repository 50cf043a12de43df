use glomeris::evidence::time::TimeSpan;
use glomeris::scanner::budget::{ScanBudget, StopReason};
use glomeris::scanner::candidate::{CandidateKind, EntryStatus, ScanCandidate};
use glomeris::scanner::topk::TopKCandidates;
use glomeris::scanner::walker::{
    EntryProbe, IncompleteLog, ScanOptions, ScanWalk, MAX_INCOMPLETE_SAMPLES,
};

fn c(path: &str, size: u64) -> ScanCandidate {
    ScanCandidate::new(path.to_string(), size, 1)
}

#[test]
fn top_k_keeps_the_largest_and_sorts_them_descending() {
    let mut topk = TopKCandidates::new(3);
    for (i, size) in [5u64, 1, 9, 7, 3, 8, 2].iter().enumerate() {
        topk.offer(c(&format!("/f{i}"), *size));
    }
    assert_eq!(topk.len(), 3);
    let sizes: Vec<u64> = topk.into_sorted_vec().iter().map(|c| c.logical_size_bytes).collect();
    assert_eq!(sizes, vec![9, 8, 7]);
}

#[test]
fn top_k_of_zero_retains_nothing() {
    let mut topk = TopKCandidates::new(0);
    topk.offer(c("/a", 100));
    assert!(topk.is_empty());
    assert!(topk.into_sorted_vec().is_empty());
}

#[test]
fn top_k_with_fewer_offers_keeps_them_all() {
    let mut topk = TopKCandidates::new(10);
    topk.offer(c("/a", 1));
    topk.offer(c("/b", 3));
    let v = topk.into_sorted_vec();
    assert_eq!(v.len(), 2);
    assert_eq!(v[0].path, "/b");
}

#[test]
fn an_equal_size_does_not_displace_a_held_candidate() {
    let mut topk = TopKCandidates::new(1);
    topk.offer(c("/first", 5));
    topk.offer(c("/second", 5));
    assert_eq!(topk.into_sorted_vec()[0].path, "/first");
}

#[test]
fn candidates_carry_their_status() {
    let full = ScanCandidate::new("/x".to_string(), 10, 2);
    assert_eq!(full.status, EntryStatus::Complete);
    assert_eq!(full.kind, CandidateKind::Unknown);
    let missing = ScanCandidate::incomplete("/y".to_string(), 3);
    assert_eq!(missing.status, EntryStatus::Incomplete);
    assert_eq!(missing.logical_size_bytes, 0);
    assert_eq!(missing.depth, 3);
}

#[test]
fn budgets_stop_on_file_count_before_time() {
    let budget = ScanBudget::unlimited()
        .with_max_files_visited(2)
        .with_max_duration(TimeSpan::from_secs(10));
    let mut tracker = budget.tracker();
    assert_eq!(tracker.record_visit(TimeSpan::from_secs(0)), None);
    assert_eq!(tracker.record_visit(TimeSpan::from_secs(20)), Some(StopReason::FileCountBudget));
    assert_eq!(tracker.files_visited(), 2);
    let timed = ScanBudget::default().with_max_duration(TimeSpan::from_secs(10)).tracker();
    assert_eq!(timed.check(TimeSpan::from_secs(9)), None);
    assert_eq!(timed.check(TimeSpan::from_secs(10)), Some(StopReason::TimeBudget));
    assert_eq!(ScanBudget::unlimited().tracker().check(TimeSpan::from_secs(u64::MAX)), None);
}

#[test]
fn scan_options_and_incomplete_log() {
    let options = ScanOptions::new(".".to_string(), 20).with_budget(ScanBudget::unlimited());
    assert_eq!(options.root, ".");
    assert_eq!(options.top_k, 20);
    let mut log = IncompleteLog::new();
    for i in 0..(MAX_INCOMPLETE_SAMPLES + 5) {
        log.record(format!("/denied/{i}"), 1);
    }
    assert_eq!(log.count(), (MAX_INCOMPLETE_SAMPLES + 5) as u64);
    assert_eq!(log.samples().len(), MAX_INCOMPLETE_SAMPLES);
    assert_eq!(log.samples()[0].path, "/denied/0");
}

fn zero() -> TimeSpan {
    TimeSpan::from_secs(0)
}

#[test]
fn walk_visits_a_small_tree_and_keeps_the_largest() {
    let options = ScanOptions::new("/root".to_string(), 2);
    let mut walk = ScanWalk::start(&options);
    let (dir, depth) = walk.next_dir(zero()).expect("the root comes first");
    assert_eq!((dir.as_str(), depth), ("/root", 0));
    assert!(walk.entry(&dir, depth, EntryProbe::File { path: "/root/a".to_string(), size: 10 }, zero()));
    assert!(walk.entry(&dir, depth, EntryProbe::Dir("/root/sub".to_string()), zero()));
    assert!(walk.entry(
        &dir,
        depth,
        EntryProbe::Symlink { path: "/root/link".to_string(), size: 1 },
        zero()
    ));
    let (sub, sub_depth) = walk.next_dir(zero()).expect("the queued directory");
    assert_eq!((sub.as_str(), sub_depth), ("/root/sub", 1));
    assert!(walk.entry(&sub, sub_depth, EntryProbe::File { path: "/root/sub/big".to_string(), size: 500 }, zero()));
    assert!(walk.entry(&sub, sub_depth, EntryProbe::MetadataFailed("/root/sub/x".to_string()), zero()));
    assert!(walk.next_dir(zero()).is_none());

    let report = walk.finish();
    assert_eq!(report.stop_reason, StopReason::Exhausted);
    assert_eq!(report.files_visited, 5);
    assert_eq!(report.candidates.len(), 2);
    assert_eq!(report.candidates[0].path, "/root/sub/big");
    assert_eq!(report.candidates[0].depth, 2);
    assert_eq!(report.candidates[1].path, "/root/a");
    assert_eq!(report.incomplete_entries, 1);
    assert_eq!(report.incomplete_samples[0].path, "/root/sub/x");
    assert_eq!(report.incomplete_samples[0].depth, 2);
}

#[test]
fn walk_stops_at_the_file_count_budget() {
    let options =
        ScanOptions::new("/r".to_string(), 10).with_budget(ScanBudget::unlimited().with_max_files_visited(2));
    let mut walk = ScanWalk::start(&options);
    let (dir, depth) = walk.next_dir(zero()).unwrap();
    assert!(walk.entry(&dir, depth, EntryProbe::Dir("/r/d".to_string()), zero()));
    assert!(!walk.entry(&dir, depth, EntryProbe::File { path: "/r/f".to_string(), size: 3 }, zero()));
    assert!(!walk.entry(&dir, depth, EntryProbe::File { path: "/r/g".to_string(), size: 3 }, zero()));
    assert!(walk.next_dir(zero()).is_none());
    let report = walk.finish();
    assert_eq!(report.stop_reason, StopReason::FileCountBudget);
    assert_eq!(report.files_visited, 2);
    assert!(report.candidates.is_empty());
}

#[test]
fn walk_stops_at_the_time_budget_before_reading_a_directory() {
    let options = ScanOptions::new("/r".to_string(), 10)
        .with_budget(ScanBudget::unlimited().with_max_duration(TimeSpan::from_secs(1)));
    let mut walk = ScanWalk::start(&options);
    assert!(walk.next_dir(TimeSpan::from_secs(1)).is_none());
    let report = walk.finish();
    assert_eq!(report.stop_reason, StopReason::TimeBudget);
    assert_eq!(report.files_visited, 0);
}

#[test]
fn unreadable_directories_and_entries_are_counted() {
    let options = ScanOptions::new("/r".to_string(), 10);
    let mut walk = ScanWalk::start(&options);
    let (dir, depth) = walk.next_dir(zero()).unwrap();
    walk.dir_unreadable(dir.clone(), depth);
    let mut walk2 = ScanWalk::start(&options);
    let (d2, dep2) = walk2.next_dir(zero()).unwrap();
    assert!(walk2.entry(&d2, dep2, EntryProbe::Unreadable, zero()));
    let r1 = walk.finish();
    let r2 = walk2.finish();
    assert_eq!(r1.incomplete_entries, 1);
    assert_eq!(r1.incomplete_samples[0].path, "/r");
    assert_eq!(r2.incomplete_entries, 1);
    assert_eq!(r2.incomplete_samples[0].path, "/r");
    assert_eq!(r2.incomplete_samples[0].depth, 0);
}

#[test]
fn walk_report_keeps_exact_count_and_bounded_samples() {
    let options = ScanOptions::new("/r".to_string(), 3);
    let mut walk = ScanWalk::start(&options);
    let (dir, depth) = walk.next_dir(zero()).expect("the root comes first");
    for _ in 0..(MAX_INCOMPLETE_SAMPLES + 44) {
        assert!(walk.entry(&dir, depth, EntryProbe::Unreadable, zero()));
    }
    let report = walk.finish();
    assert_eq!(report.incomplete_entries, (MAX_INCOMPLETE_SAMPLES + 44) as u64);
    assert_eq!(report.incomplete_samples.len(), MAX_INCOMPLETE_SAMPLES);
    assert_eq!(report.files_visited, (MAX_INCOMPLETE_SAMPLES + 44) as u64);
}

#[test]
fn file_budget_is_never_exceeded_over_a_walk() {
    let budget = ScanBudget::unlimited().with_max_files_visited(2);
    let options = ScanOptions::new("/r".to_string(), 10).with_budget(budget);
    let mut walk = ScanWalk::start(&options);
    let (dir, depth) = walk.next_dir(zero()).expect("the root comes first");
    assert!(walk.entry(&dir, depth, EntryProbe::File { path: "/r/a".to_string(), size: 1 }, zero()));
    assert!(!walk.entry(&dir, depth, EntryProbe::File { path: "/r/b".to_string(), size: 2 }, zero()));
    assert!(!walk.entry(&dir, depth, EntryProbe::File { path: "/r/c".to_string(), size: 3 }, zero()));
    let report = walk.finish();
    assert_eq!(report.files_visited, 2);
    assert_eq!(report.stop_reason, StopReason::FileCountBudget);
    assert_eq!(report.candidates.len(), 1);

    let zero_budget = ScanOptions::new("/r".to_string(), 10)
        .with_budget(ScanBudget::unlimited().with_max_files_visited(0));
    let mut untouched = ScanWalk::start(&zero_budget);
    assert!(!untouched.entry("/r", 0, EntryProbe::File { path: "/r/a".to_string(), size: 1 }, zero()));
    assert_eq!(untouched.finish().files_visited, 0);
}
