use arch_upgrade::pacnew::{is_pacnew, pacnew_report, PACNEW_HEADER};

fn strings(v: &[&str]) -> Vec<String> {
    v.iter().map(|s| s.to_string()).collect()
}

#[test]
fn no_leftovers_no_output() {
    let paths = strings(&["/etc/pacman.conf", "/etc/fstab", "/etc/x.pacnew.bak"]);
    assert!(pacnew_report(&paths).is_empty());
    assert!(pacnew_report(&vec![]).is_empty());
}

#[test]
fn one_leftover_reported() {
    let paths = strings(&["/etc/pacman.conf", "/etc/pacman.conf.pacnew", "/etc/hosts"]);
    assert_eq!(pacnew_report(&paths), strings(&[PACNEW_HEADER, "/etc/pacman.conf.pacnew"]));
    assert_eq!(PACNEW_HEADER, "Pacman backup configuration files found:");
}

#[test]
fn backup_extensions() {
    assert!(is_pacnew("/etc/a.pacsave"));
    assert!(is_pacnew("/etc/a.b.pacnew"));
    assert!(!is_pacnew("/etc/.pacnew"));
    assert!(!is_pacnew("/etc/pacnew"));
    assert!(!is_pacnew("/etc/a.pacnew/b"));
}
