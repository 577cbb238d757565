use arch_upgrade::emacs::Emacs;
use arch_upgrade::plan::{Stage, UpgradeError};

#[test]
fn new_with_doom() {
    let e = Emacs::new(Some("/home/u/.emacs.d".to_string()), true);
    assert!(e.is_doom());
    assert_eq!(e.directory(), Some(&"/home/u/.emacs.d".to_string()));
    assert_eq!(e.doom, Some("/home/u/.emacs.d/bin/doom".to_string()));
    let plain = Emacs::new(Some("/home/u/.emacs.d/".to_string()), false);
    assert!(!plain.is_doom());
    assert_eq!(plain.init_file(), Some("/home/u/.emacs.d/init.el".to_string()));
    let none = Emacs::new(None, true);
    assert!(!none.is_doom());
    assert!(none.directory().is_none());
}

#[test]
fn directory_choice() {
    assert_eq!(
        Emacs::directory_path(Some("/h/.emacs.d".to_string()), Some("/h/.config/emacs".to_string())),
        Some("/h/.emacs.d".to_string())
    );
    assert_eq!(Emacs::directory_path(None, Some("/h/.config/emacs".to_string())), Some("/h/.config/emacs".to_string()));
    assert_eq!(Emacs::home_candidate("/h"), "/h/.emacs.d");
    assert_eq!(Emacs::config_candidate("/h/.config/"), "/h/.config/emacs");
}

#[test]
fn emacs_upgrade_plan() {
    let e = Emacs::new(Some("/h/.emacs.d".to_string()), true);
    let p = e.upgrade_plan(&Some("/usr/bin/emacs".to_string()), true, true, "(a b)\n(c)");
    assert_eq!(p.steps.len(), 2);
    assert_eq!(p.steps[0].stage, Stage::DoomUpgrade);
    assert_eq!(p.steps[0].args, vec!["--force".to_string(), "upgrade".to_string()]);
    assert_eq!(p.steps[1].program, "/usr/bin/emacs");
    let a: Vec<&str> = p.steps[1].args.iter().map(|s| s.as_str()).collect();
    assert_eq!(a, vec!["--batch", "--debug-init", "-l", "/h/.emacs.d/init.el", "--eval", "(a\u{a0}b)\u{a0}(c)"]);
    assert!(p.failure.is_none());
}

#[test]
fn emacs_upgrade_failures() {
    let e = Emacs::new(Some("/h/.emacs.d".to_string()), false);
    let p = e.upgrade_plan(&None, true, false, "x");
    assert_eq!(p.failure, Some(UpgradeError::EmacsNotFound));
    assert!(p.steps.is_empty());
    let p = e.upgrade_plan(&Some("emacs".to_string()), false, false, "x");
    assert_eq!(p.failure, Some(UpgradeError::InitFileMissing));
    let none = Emacs::new(None, false);
    let p = none.upgrade_plan(&Some("emacs".to_string()), true, false, "x");
    assert_eq!(p.failure, Some(UpgradeError::EmacsDirectoryMissing));
    let doom = Emacs::new(Some("/h/.emacs.d".to_string()), true);
    let p = doom.upgrade_plan(&Some("emacs".to_string()), false, false, "x");
    assert_eq!(p.steps.len(), 1);
    assert_eq!(p.steps[0].args, vec!["upgrade".to_string()]);
}
