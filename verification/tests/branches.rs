use branch_cleanup::BranchEntry;
use branch_cleanup::BranchType;
use branch_cleanup::GitBranch;
use branch_cleanup::RefKind;
use branch_cleanup::get_branches;

fn entry(name: &str, seconds: i64, kind: RefKind) -> BranchEntry {
    BranchEntry {
        name: Some(String::from(name)),
        seconds,
        offset_minutes: 0,
        message: String::from("msg"),
        kind,
    }
}

#[test]
fn branch_type_from_strings() {
    assert_eq!(BranchType::from("remote"), BranchType::Remote);
    assert_eq!(BranchType::from("local"), BranchType::Local);
    assert_eq!(BranchType::from("both"), BranchType::Both);
    assert_eq!(BranchType::from("anything-else"), BranchType::Invalid);
    assert_eq!(BranchType::from(""), BranchType::Invalid);
    assert_eq!(BranchType::from("Remote"), BranchType::Invalid);
}

#[test]
fn branch_type_filter_mapping() {
    assert_eq!(BranchType::Remote.to_filter(), Some(RefKind::Remote));
    assert_eq!(BranchType::Local.to_filter(), Some(RefKind::Local));
    assert_eq!(BranchType::Both.to_filter(), None);
    assert_eq!(BranchType::Invalid.to_filter(), None);
}

#[test]
fn ref_kind_into_branch_type() {
    assert_eq!(BranchType::from(RefKind::Remote), BranchType::Remote);
    assert_eq!(BranchType::from(RefKind::Local), BranchType::Local);
}

#[test]
fn branches_sorted_by_commit_time() {
    let entries = vec![
        entry("c", 300, RefKind::Local),
        entry("a", 100, RefKind::Local),
        entry("b", 200, RefKind::Remote),
    ];
    let skip: Vec<&str> = Vec::new();
    let r = get_branches(entries, &skip);
    let names: Vec<&str> = r.iter().map(|b| b.get_name()).collect();
    assert_eq!(names, vec!["a", "b", "c"]);
    let times: Vec<i64> = r.iter().map(|b| b.get_commit_time()).collect();
    assert_eq!(times, vec![100, 200, 300]);
}

#[test]
fn skipped_names_never_listed() {
    let entries = vec![
        entry("keep-me", 1, RefKind::Local),
        entry("master", 2, RefKind::Local),
        entry("origin/master", 3, RefKind::Remote),
        entry("develop", 4, RefKind::Remote),
    ];
    let skip = vec!["master", "origin/master"];
    let r = get_branches(entries, &skip);
    let names: Vec<&str> = r.iter().map(|b| b.get_name()).collect();
    assert_eq!(names, vec!["keep-me", "develop"]);
}

#[test]
fn unreadable_names_dropped() {
    let unreadable = BranchEntry {
        name: None,
        seconds: 1,
        offset_minutes: 0,
        message: String::from("msg"),
        kind: RefKind::Local,
    };
    let entries = vec![unreadable, entry("readable", 2, RefKind::Local)];
    let skip: Vec<&str> = Vec::new();
    let r = get_branches(entries, &skip);
    assert_eq!(r.len(), 1);
    assert_eq!(r[0].get_name(), "readable");
}

#[test]
fn commit_time_normalized_by_offset() {
    // 100 seconds UTC with a +2 minute recorded offset: 100 + 120.
    let t = branch_cleanup::branch::commit_timestamp(100, 2);
    assert_eq!(t, 220);
    // A negative offset subtracts.
    assert_eq!(branch_cleanup::branch::commit_timestamp(1000, -3), 820);
}

#[test]
fn listed_branch_carries_entry_data() {
    let mut e = entry("feature", 50, RefKind::Remote);
    e.offset_minutes = 1;
    e.message = String::from("last commit");
    let skip: Vec<&str> = Vec::new();
    let r = get_branches(vec![e], &skip);
    assert_eq!(r.len(), 1);
    assert_eq!(r[0].get_name(), "feature");
    assert_eq!(r[0].get_commit_message(), "last commit");
    assert_eq!(r[0].get_commit_time(), 110);
    assert_eq!(r[0].get_branch_type(), BranchType::Remote);
}

#[test]
fn empty_input_lists_nothing() {
    let skip: Vec<&str> = Vec::new();
    let r = get_branches(Vec::new(), &skip);
    assert!(r.is_empty());
}

#[test]
fn equal_commit_times_keep_both_branches() {
    let entries = vec![entry("one", 7, RefKind::Local), entry("two", 7, RefKind::Local)];
    let skip: Vec<&str> = Vec::new();
    let r = get_branches(entries, &skip);
    assert_eq!(r.len(), 2);
    assert_eq!(r[0].get_commit_time(), 7);
    assert_eq!(r[1].get_commit_time(), 7);
}

#[test]
fn equality_ignores_commit_time() {
    let a = GitBranch::new(String::from("same"), String::from("m1"), 1, BranchType::Local);
    let b = GitBranch::new(String::from("same"), String::from("m2"), 2, BranchType::Remote);
    assert_eq!(a, b);
    assert_ne!(a.partial_cmp(&b), Some(std::cmp::Ordering::Equal));
    assert_eq!(a.partial_cmp(&b), Some(std::cmp::Ordering::Less));
}

#[test]
fn ordering_ignores_name() {
    let a = GitBranch::new(String::from("zzz"), String::from("m"), 1, BranchType::Local);
    let b = GitBranch::new(String::from("aaa"), String::from("m"), 1, BranchType::Local);
    assert_eq!(a.partial_cmp(&b), Some(std::cmp::Ordering::Equal));
    assert!(a != b);
}
