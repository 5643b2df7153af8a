use privdrop::ErrorKind;
use privdrop::default_supplementary_groups;
use privdrop::resolve_group;
use privdrop::resolve_user;

#[test]
fn resolve_user_root_exact() {
    let r = resolve_user("root", false).unwrap();
    assert_eq!(r.0, 0);
    assert_eq!(r.1, Some(0));
}

#[test]
fn resolve_user_matches_database() {
    let expected = nix::unistd::User::from_name("nobody").unwrap().unwrap();
    let r = resolve_user("nobody", false).unwrap();
    assert_eq!(r.0, expected.uid.as_raw());
    assert_eq!(r.1, Some(expected.gid.as_raw()));
}

#[test]
fn resolve_user_absent_without_fallback() {
    let r = resolve_user("no-such-user-privdrop-test", false);
    assert!(matches!(r, Err(e) if e.kind == ErrorKind::UserNotFound));
}

#[test]
fn resolve_user_numeric_fallback() {
    let r = resolve_user("4294000000", true).unwrap();
    assert_eq!(r.0, 4294000000);
    assert_eq!(r.1, None);
}

#[test]
fn resolve_user_numeric_without_fallback() {
    let r = resolve_user("4294000000", false);
    assert!(matches!(r, Err(e) if e.kind == ErrorKind::UserNotFound));
}

#[test]
fn resolve_user_fallback_needs_numeric_name() {
    let r = resolve_user("no-such-user-privdrop-test", true);
    assert!(matches!(r, Err(e) if e.kind == ErrorKind::UserNotFound));
}

#[test]
fn resolve_user_embedded_terminator() {
    let r = resolve_user("no\0body", false);
    assert!(matches!(r, Err(e) if e.kind == ErrorKind::InvalidName));
    let with_fallback = resolve_user("no\0body", true);
    assert!(matches!(with_fallback, Err(e) if e.kind == ErrorKind::InvalidName));
}

#[test]
fn resolve_group_root_exact() {
    let r = resolve_group("root", false).unwrap();
    assert_eq!(r, 0);
}

#[test]
fn resolve_group_matches_database() {
    let expected = nix::unistd::Group::from_name("daemon").unwrap().unwrap();
    let r = resolve_group("daemon", false).unwrap();
    assert_eq!(r, expected.gid.as_raw());
}

#[test]
fn resolve_group_absent_without_fallback() {
    let r = resolve_group("no-such-group-privdrop-test", false);
    assert!(matches!(r, Err(e) if e.kind == ErrorKind::GroupNotFound));
}

#[test]
fn resolve_group_numeric_fallback() {
    let r = resolve_group("4294000001", true).unwrap();
    assert_eq!(r, 4294000001);
}

#[test]
fn resolve_group_fallback_needs_numeric_name() {
    let r = resolve_group("no-such-group-privdrop-test", true);
    assert!(matches!(r, Err(e) if e.kind == ErrorKind::GroupNotFound));
}

#[test]
fn resolve_group_embedded_terminator() {
    let r = resolve_group("ad\0m", false);
    assert!(matches!(r, Err(e) if e.kind == ErrorKind::InvalidName));
}

#[test]
fn default_groups_hold_primary_gid() {
    let groups = default_supplementary_groups("root", 0).unwrap();
    assert!(groups.contains(&0));
}

#[test]
fn default_groups_match_database() {
    let svc = nix::unistd::User::from_name("svc");
    let svc = match svc {
        Ok(Some(user)) => user,
        _ => {
            println!("skipped: no svc user in the identity database");
            return;
        },
    };
    let g2 = match nix::unistd::Group::from_name("g2") {
        Ok(Some(group)) => group,
        _ => {
            println!("skipped: no g2 group in the identity database");
            return;
        },
    };
    let g3 = match nix::unistd::Group::from_name("g3") {
        Ok(Some(group)) => group,
        _ => {
            println!("skipped: no g3 group in the identity database");
            return;
        },
    };
    let groups = default_supplementary_groups("svc", svc.gid.as_raw()).unwrap();
    assert!(groups.contains(&svc.gid.as_raw()));
    assert!(groups.contains(&g2.gid.as_raw()));
    assert!(groups.contains(&g3.gid.as_raw()));
}

#[test]
fn default_groups_invalid_name_absent() {
    assert!(default_supplementary_groups("sv\0c", 0).is_none());
}
