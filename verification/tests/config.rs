use privdrop::ErrorKind;
use privdrop::PrivDrop;
use privdrop::PrivDropError;
use privdrop::ResolvedIds;
use privdrop::Step;
use privdrop::build_plan;
use privdrop::check_name;
use privdrop::merged_group_list;
use privdrop::parse_numeric_id;
use privdrop::uidcheck;

#[test]
fn parse_simple_number() {
    assert_eq!(parse_numeric_id("0"), Some(0));
    assert_eq!(parse_numeric_id("1"), Some(1));
    assert_eq!(parse_numeric_id("65534"), Some(65534));
}

#[test]
fn parse_plus_sign() {
    assert_eq!(parse_numeric_id("+42"), Some(42));
    assert_eq!(parse_numeric_id("+"), None);
}

#[test]
fn parse_limits() {
    assert_eq!(parse_numeric_id("4294967295"), Some(u32::MAX));
    assert_eq!(parse_numeric_id("4294967296"), None);
    assert_eq!(parse_numeric_id("99999999999999999999"), None);
}

#[test]
fn parse_rejects_garbage() {
    assert_eq!(parse_numeric_id(""), None);
    assert_eq!(parse_numeric_id("12a"), None);
    assert_eq!(parse_numeric_id("-1"), None);
    assert_eq!(parse_numeric_id(" 1"), None);
    assert_eq!(parse_numeric_id("1 "), None);
}

#[test]
fn name_validity() {
    assert!(check_name("nobody"));
    assert!(check_name(""));
    assert!(!check_name("no\0body"));
}

#[test]
fn uidcheck_root_passes() {
    assert!(uidcheck(0).is_ok());
}

#[test]
fn uidcheck_non_root_is_insufficient_privilege() {
    let r = uidcheck(1000);
    assert!(matches!(r, Err(e) if e.kind == ErrorKind::InsufficientPrivilege));
}

#[test]
fn merged_group_list_deduplicates() {
    let defaults = vec![5u32, 7, 5];
    let explicit = vec![7u32, 7, 9];
    let mut merged = merged_group_list(&defaults, &explicit, 9);
    merged.sort();
    assert_eq!(merged, vec![5, 7, 9]);
}

#[test]
fn merged_group_list_always_holds_primary() {
    let merged = merged_group_list(&Vec::new(), &Vec::new(), 123);
    assert_eq!(merged, vec![123]);
}

#[test]
fn merged_group_list_scenario() {
    // Explicit groups {11, 12}, the user's default groups {12, 13}, and
    // primary group 20: the final set is exactly {11, 12, 13, 20}.
    let defaults = vec![12u32, 13];
    let explicit = vec![11u32, 12];
    let mut merged = merged_group_list(&defaults, &explicit, 20);
    merged.sort();
    assert_eq!(merged, vec![11, 12, 13, 20]);
}

#[test]
fn plan_is_empty_for_empty_config() {
    let ids = ResolvedIds { uid: None, gid: None, supplementary: None };
    let steps = build_plan(&None, false, &ids);
    assert_eq!(steps.len(), 0);
}

#[test]
fn plan_sets_user_id_last() {
    let ids = ResolvedIds { uid: Some(1), gid: Some(2), supplementary: Some(vec![2, 3]) };
    let steps = build_plan(&Some("/x".to_string()), true, &ids);
    assert_eq!(steps.len(), 8);
    assert!(matches!(&steps[0], Step::CheckPrivilege));
    assert!(matches!(&steps[1], Step::ChangeDirectory(p) if p == "/x"));
    assert!(matches!(&steps[2], Step::ChangeRoot(p) if p == "/x"));
    assert!(matches!(&steps[3], Step::ChangeDirectory(p) if p == "/"));
    assert!(matches!(&steps[4], Step::CheckPrivilege));
    assert!(matches!(&steps[5], Step::SetSupplementaryGroups(gs) if *gs == vec![2u32, 3]));
    assert!(matches!(&steps[6], Step::SetPrimaryGroup(g) if *g == 2));
    assert!(matches!(&steps[7], Step::SetUserId(u) if *u == 1));
}

#[test]
fn plan_group_changes_precede_user_change() {
    let ids = ResolvedIds { uid: Some(10), gid: Some(20), supplementary: Some(vec![20]) };
    let steps = build_plan(&None, true, &ids);
    assert_eq!(steps.len(), 4);
    assert!(matches!(&steps[0], Step::CheckPrivilege));
    assert!(matches!(&steps[1], Step::SetSupplementaryGroups(gs) if *gs == vec![20u32]));
    assert!(matches!(&steps[2], Step::SetPrimaryGroup(g) if *g == 20));
    assert!(matches!(&steps[3], Step::SetUserId(u) if *u == 10));
}

#[test]
fn error_descriptions() {
    assert_eq!(PrivDropError::new(ErrorKind::UserNotFound).description(), "user not found");
    assert_eq!(PrivDropError::new(ErrorKind::GroupNotFound).description(), "group not found");
    assert_eq!(
        PrivDropError::new(ErrorKind::InsufficientPrivilege).description(),
        "insufficient privilege: effective root is required"
    );
    let e = PrivDropError::with_errno(ErrorKind::SystemCallFailure, 13);
    assert_eq!(e.description(), "system call failed");
    assert_eq!(e.errno, Some(13));
}

#[test]
fn apply_empty_config_is_noop() {
    let uid_before = nix::unistd::getuid().as_raw();
    let euid_before = nix::unistd::geteuid().as_raw();
    let gid_before = nix::unistd::getgid().as_raw();
    let egid_before = nix::unistd::getegid().as_raw();
    let r = PrivDrop::default().apply();
    assert!(r.is_ok());
    assert_eq!(nix::unistd::getuid().as_raw(), uid_before);
    assert_eq!(nix::unistd::geteuid().as_raw(), euid_before);
    assert_eq!(nix::unistd::getgid().as_raw(), gid_before);
    assert_eq!(nix::unistd::getegid().as_raw(), egid_before);
}

#[test]
fn apply_rejects_invalid_user_name() {
    let r = PrivDrop::default().user("no\0body").apply();
    assert!(matches!(r, Err(e) if e.kind == ErrorKind::InvalidName));
}

#[test]
fn apply_rejects_default_groups_without_user() {
    let r = PrivDrop::default().include_default_supplementary_groups().apply();
    assert!(matches!(r, Err(e) if e.kind == ErrorKind::DefaultGroupLookupUnavailable));
}

#[test]
fn apply_missing_chroot_directory_fails() {
    let r = PrivDrop::default().chroot("/this-directory-does-not-exist-anywhere").apply();
    if nix::unistd::geteuid().is_root() {
        assert!(matches!(r, Err(e) if e.kind == ErrorKind::SystemCallFailure));
    } else {
        assert!(matches!(r, Err(e) if e.kind == ErrorKind::InsufficientPrivilege));
    }
}
