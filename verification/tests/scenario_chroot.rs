use nix::unistd;
use privdrop::ErrorKind;
use privdrop::PrivDrop;

#[test]
fn apply_chroot_and_user_end_to_end() {
    if !unistd::geteuid().is_root() {
        println!("skipped: requires root");
        return;
    }
    let nobody = match unistd::User::from_name("nobody") {
        Ok(Some(user)) => user,
        _ => {
            println!("skipped: no nobody user in the identity database");
            return;
        },
    };
    let r = PrivDrop::default().chroot("/var/empty").user("nobody").apply();
    assert!(r.is_ok());
    assert_eq!(unistd::geteuid().as_raw(), nobody.uid.as_raw());
    assert_eq!(unistd::getegid().as_raw(), nobody.gid.as_raw());
    let cwd = unistd::getcwd().unwrap();
    assert_eq!(cwd.to_str().unwrap(), "/");
    let again = PrivDrop::default().chroot("/").apply();
    assert!(matches!(again, Err(e) if e.kind == ErrorKind::InsufficientPrivilege));
}
