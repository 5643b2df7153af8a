use nix::unistd;
use privdrop::PrivDrop;

#[test]
fn test_privdrop() {
    if unistd::geteuid().is_root() {
        PrivDrop::default()
            .chroot("/var/empty")
            .user("nobody")
            .apply()
            .unwrap_or_else(|e| panic!("Failed to drop privileges: {}", e.description()));
    } else {
        println!("Test was skipped because it needs to be run as root.");
    }
}
