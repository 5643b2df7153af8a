use nix::unistd;
use privdrop::PrivDrop;

#[test]
fn apply_user_with_merged_groups_end_to_end() {
    if !unistd::geteuid().is_root() {
        println!("skipped: requires root");
        return;
    }
    let svc = match unistd::User::from_name("svc") {
        Ok(Some(user)) => user,
        _ => {
            println!("skipped: no svc user in the identity database");
            return;
        },
    };
    let g1 = match unistd::Group::from_name("g1") {
        Ok(Some(group)) => group,
        _ => {
            println!("skipped: no g1 group in the identity database");
            return;
        },
    };
    let g2 = match unistd::Group::from_name("g2") {
        Ok(Some(group)) => group,
        _ => {
            println!("skipped: no g2 group in the identity database");
            return;
        },
    };
    let g3 = match unistd::Group::from_name("g3") {
        Ok(Some(group)) => group,
        _ => {
            println!("skipped: no g3 group in the identity database");
            return;
        },
    };
    let primary = svc.gid.as_raw();
    let r = PrivDrop::default()
        .user("svc")
        .group_list(vec!["g1".to_string(), "g2".to_string()])
        .include_default_supplementary_groups()
        .apply();
    assert!(r.is_ok());
    assert_eq!(unistd::geteuid().as_raw(), svc.uid.as_raw());
    assert_eq!(unistd::getegid().as_raw(), primary);
    // The final supplementary set is exactly the union of the explicit
    // groups, the user's default groups and the primary group, each
    // distinct group id exactly once.
    let mut have: Vec<u32> = unistd::getgroups().unwrap().iter().map(|g| g.as_raw()).collect();
    have.sort();
    let mut want = vec![primary, g1.gid.as_raw(), g2.gid.as_raw(), g3.gid.as_raw()];
    want.sort();
    assert_eq!(have, want);
}
