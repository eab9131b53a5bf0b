use branch_cleanup::BranchType;
use branch_cleanup::DeletionError;
use branch_cleanup::GitBranch;

fn branch(name: &str, t: BranchType) -> GitBranch {
    GitBranch::new(String::from(name), String::from("msg"), 0, t)
}

#[test]
fn local_branch_plans_no_remote_action() {
    let b = branch("feature-x", BranchType::Local);
    let plan = b.deletion_plan().unwrap();
    assert!(plan.is_none());
}

#[test]
fn local_branch_with_slash_still_plans_no_remote_action() {
    let b = branch("user/feature", BranchType::Local);
    let plan = b.deletion_plan().unwrap();
    assert!(plan.is_none());
}

#[test]
fn remote_branch_plans_deletion_push() {
    let b = branch("origin/feature-x", BranchType::Remote);
    let plan = b.deletion_plan().unwrap().unwrap();
    assert_eq!(plan.remote_name, "origin");
    assert_eq!(plan.refspec, "+:refs/heads/feature-x");
}

#[test]
fn remote_branch_splits_on_first_slash_only() {
    let b = branch("origin/feature/nested", BranchType::Remote);
    let plan = b.deletion_plan().unwrap().unwrap();
    assert_eq!(plan.remote_name, "origin");
    assert_eq!(plan.refspec, "+:refs/heads/feature/nested");
}

#[test]
fn remote_branch_without_slash_is_rejected() {
    let b = branch("feature-x", BranchType::Remote);
    let r = b.deletion_plan();
    assert_eq!(r.unwrap_err(), DeletionError::MissingRemoteSeparator);
}

#[test]
fn remote_branch_with_trailing_slash_keeps_empty_suffix() {
    let b = branch("origin/", BranchType::Remote);
    let plan = b.deletion_plan().unwrap().unwrap();
    assert_eq!(plan.remote_name, "origin");
    assert_eq!(plan.refspec, "+:refs/heads/");
}
