use arch_upgrade::archlinux::{
    arch_version_query, get_arch_package_manager, upgrade_arch_linux, ArchBackend, ArchPackageManagerChoice, Aura,
    AuraVersion, BackendId, Executables, GarudaUpdate, Pacman, Pamac, Pikaur, Trizen,
    UpgradeContext, YayParu,
};
use arch_upgrade::plan::{next_action, Action, Plan, Stage, UpgradeError};

fn context(yes: bool, cleanup: bool) -> UpgradeContext {
    UpgradeContext {
        assume_yes: yes,
        cleanup,
        show_arch_news: false,
        yay_arguments: String::new(),
        garuda_update_arguments: String::new(),
        trizen_arguments: String::new(),
        pikaur_arguments: String::new(),
        pamac_arguments: String::new(),
        aura_aur_arguments: String::new(),
        aura_pacman_arguments: String::new(),
        sudo: Some("/usr/bin/sudo".to_string()),
        search_path: "/home/u/bin".to_string(),
    }
}

fn nothing_found() -> Executables {
    Executables {
        garuda_update: None,
        paru: None,
        yay: None,
        trizen: None,
        pikaur: None,
        pamac: None,
        powerpill: None,
        pacman: None,
        aura: None,
    }
}

fn everything_found() -> Executables {
    Executables {
        garuda_update: Some("/usr/bin/garuda-update".to_string()),
        paru: Some("/usr/bin/paru".to_string()),
        yay: Some("/usr/bin/yay".to_string()),
        trizen: Some("/usr/bin/trizen".to_string()),
        pikaur: Some("/usr/bin/pikaur".to_string()),
        pamac: Some("/usr/bin/pamac".to_string()),
        powerpill: Some("/usr/bin/powerpill".to_string()),
        pacman: Some("/usr/bin/pacman".to_string()),
        aura: Some("/usr/bin/aura".to_string()),
    }
}

fn args(p: &Plan, i: usize) -> Vec<&str> {
    p.steps[i].args.iter().map(|s| s.as_str()).collect()
}

fn id_of(b: &ArchBackend) -> BackendId {
    match b {
        ArchBackend::GarudaUpdate(_) => BackendId::GarudaUpdate,
        ArchBackend::YayParu(id, _) => *id,
        ArchBackend::Trizen(_) => BackendId::Trizen,
        ArchBackend::Pikaur(_) => BackendId::Pikaur,
        ArchBackend::Pamac(_) => BackendId::Pamac,
        ArchBackend::Pacman(_) => BackendId::Pacman,
        ArchBackend::Aura(_) => BackendId::Aura,
    }
}

#[test]
fn forced_choice_yields_that_backend() {
    let found = everything_found();
    let cases = [
        (ArchPackageManagerChoice::GarudaUpdate, BackendId::GarudaUpdate),
        (ArchPackageManagerChoice::Paru, BackendId::Paru),
        (ArchPackageManagerChoice::Yay, BackendId::Yay),
        (ArchPackageManagerChoice::Trizen, BackendId::Trizen),
        (ArchPackageManagerChoice::Pikaur, BackendId::Pikaur),
        (ArchPackageManagerChoice::Pamac, BackendId::Pamac),
        (ArchPackageManagerChoice::Pacman, BackendId::Pacman),
        (ArchPackageManagerChoice::Aura, BackendId::Aura),
    ];
    for (choice, id) in cases {
        let b = get_arch_package_manager(choice, &found).expect("detected");
        assert_eq!(id_of(&b), id);
    }
}

#[test]
fn autodetect_follows_priority() {
    let mut found = everything_found();
    let b = get_arch_package_manager(ArchPackageManagerChoice::Autodetect, &found).unwrap();
    assert_eq!(id_of(&b), BackendId::GarudaUpdate);
    found.garuda_update = None;
    let b = get_arch_package_manager(ArchPackageManagerChoice::Autodetect, &found).unwrap();
    assert_eq!(id_of(&b), BackendId::Paru);
    match b {
        ArchBackend::YayParu(_, y) => {
            assert_eq!(y.executable, "/usr/bin/paru");
            assert_eq!(y.pacman, "/usr/bin/powerpill");
        }
        _ => panic!("expected paru"),
    }
}

#[test]
fn autodetect_finds_pacman_last_but_one() {
    let mut found = nothing_found();
    found.pacman = Some("/usr/bin/pacman".to_string());
    found.aura = Some("/usr/bin/aura".to_string());
    let b = get_arch_package_manager(ArchPackageManagerChoice::Autodetect, &found).unwrap();
    match b {
        ArchBackend::Pacman(p) => assert_eq!(p.executable, "pacman"),
        _ => panic!("expected pacman"),
    }
}

#[test]
fn autodetect_with_nothing_found_is_unavailable() {
    let found = nothing_found();
    assert!(get_arch_package_manager(ArchPackageManagerChoice::Autodetect, &found).is_none());
    let p = upgrade_arch_linux(ArchPackageManagerChoice::Autodetect, &found, &context(true, true), "");
    assert!(p.steps.is_empty());
    assert_eq!(p.failure, Some(UpgradeError::BackendUnavailable));
    assert!(matches!(next_action(&p, &vec![]), Action::Finished(Err(UpgradeError::BackendUnavailable))));
    assert!(arch_version_query(ArchPackageManagerChoice::Autodetect, &found).is_none());
}

#[test]
fn forced_aura_with_everything_found() {
    let b = get_arch_package_manager(ArchPackageManagerChoice::Aura, &everything_found()).unwrap();
    match b {
        ArchBackend::Aura(a) => assert_eq!(a.executable, "/usr/bin/aura"),
        _ => panic!("expected aura"),
    }
    let q = arch_version_query(ArchPackageManagerChoice::Aura, &everything_found()).unwrap();
    assert_eq!(q.program, "/usr/bin/aura");
}

#[test]
fn dispatch_returns_backend_plan() {
    let ctx = context(true, true);
    let found = everything_found();
    let p = upgrade_arch_linux(ArchPackageManagerChoice::Trizen, &found, &ctx, "");
    let direct = Trizen::get(&Some("/usr/bin/trizen".to_string())).unwrap().upgrade_plan(&ctx);
    assert_eq!(p.steps.len(), direct.steps.len());
    for i in 0..p.steps.len() {
        assert_eq!(p.steps[i].program, direct.steps[i].program);
        assert_eq!(p.steps[i].args, direct.steps[i].args);
        assert_eq!(p.steps[i].env, direct.steps[i].env);
    }
    let a = upgrade_arch_linux(ArchPackageManagerChoice::Aura, &found, &ctx, "aura 4.0.5\n");
    assert_eq!(a.steps[0].program, "/usr/bin/sudo");
}

#[test]
fn forced_choice_without_detection_is_unavailable() {
    let found = nothing_found();
    for choice in [
        ArchPackageManagerChoice::GarudaUpdate,
        ArchPackageManagerChoice::Paru,
        ArchPackageManagerChoice::Yay,
        ArchPackageManagerChoice::Trizen,
        ArchPackageManagerChoice::Pikaur,
        ArchPackageManagerChoice::Pamac,
        ArchPackageManagerChoice::Pacman,
        ArchPackageManagerChoice::Aura,
    ] {
        assert!(get_arch_package_manager(choice, &found).is_none());
        let p = upgrade_arch_linux(choice, &found, &context(false, false), "");
        assert_eq!(p.failure, Some(UpgradeError::BackendUnavailable));
        assert!(p.steps.is_empty());
    }
}

#[test]
fn pacman_get_prefers_powerpill() {
    let pacman = Some("/usr/bin/pacman".to_string());
    let powerpill = Some("/usr/bin/powerpill".to_string());
    assert!(Pacman::get(&None, &None).is_none());
    assert_eq!(Pacman::get(&None, &pacman).unwrap().executable, "pacman");
    assert_eq!(Pacman::get(&powerpill, &pacman).unwrap().executable, "/usr/bin/powerpill");
}

#[test]
fn yay_plan_with_extra_arguments() {
    let mut ctx = context(false, false);
    ctx.yay_arguments = "  --devel   --timeupdate ".to_string();
    let y = YayParu::get(&Some("/usr/bin/yay".to_string()), "pacman").unwrap();
    let p = y.upgrade_plan(&ctx);
    assert_eq!(p.steps.len(), 1);
    assert_eq!(p.steps[0].program, "/usr/bin/yay");
    assert_eq!(args(&p, 0), vec!["--pacman", "pacman", "-Syu", "--devel", "--timeupdate"]);
    assert_eq!(p.steps[0].env, vec![("PATH".to_string(), "/usr/bin:/home/u/bin".to_string())]);
    assert!(p.failure.is_none());
}

#[test]
fn confirmation_flag_per_backend() {
    let on = context(true, true);
    let off = context(false, true);
    let y = YayParu::get(&Some("yay".to_string()), "pacman").unwrap();
    assert_eq!(args(&y.upgrade_plan(&on), 0), vec!["--pacman", "pacman", "-Syu", "--noconfirm"]);
    assert_eq!(args(&y.upgrade_plan(&off), 0), vec!["--pacman", "pacman", "-Syu"]);
    assert_eq!(args(&y.upgrade_plan(&on), 1), vec!["--pacman", "pacman", "-Scc", "--noconfirm"]);
    let t = Trizen::get(&Some("trizen".to_string())).unwrap();
    assert_eq!(args(&t.upgrade_plan(&on), 0), vec!["-Syu", "--noconfirm"]);
    assert_eq!(args(&t.upgrade_plan(&off), 1), vec!["-Sc"]);
    let k = Pikaur::get(&Some("pikaur".to_string())).unwrap();
    assert_eq!(args(&k.upgrade_plan(&on), 1), vec!["-Sc", "--noconfirm"]);
    let m = Pamac::get(&Some("pamac".to_string())).unwrap();
    assert_eq!(args(&m.upgrade_plan(&on), 0), vec!["upgrade", "--no-confirm"]);
    assert_eq!(args(&m.upgrade_plan(&on), 1), vec!["clean", "--no-confirm"]);
    assert_eq!(args(&m.upgrade_plan(&off), 0), vec!["upgrade"]);
    let g = GarudaUpdate::get(&Some("garuda-update".to_string())).unwrap();
    let gp = g.upgrade_plan(&on);
    assert!(gp.steps[0].args.is_empty());
    assert_eq!(gp.steps[0].env.len(), 4);
    assert_eq!(gp.steps[0].env[3], ("PACMAN_NOCONFIRM".to_string(), "1".to_string()));
    let gq = g.upgrade_plan(&off);
    assert_eq!(gq.steps[0].env.len(), 3);
    assert_eq!(gq.steps[0].env[1], ("UPDATE_AUR".to_string(), "1".to_string()));
    assert_eq!(gq.steps[0].env[2], ("SKIP_MIRRORLIST".to_string(), "1".to_string()));
}

#[test]
fn pacman_runs_through_sudo() {
    let ctx = context(true, true);
    let p = Pacman::get(&None, &Some("pacman".to_string())).unwrap().upgrade_plan(&ctx);
    assert_eq!(p.steps.len(), 2);
    assert_eq!(p.steps[0].program, "/usr/bin/sudo");
    assert_eq!(args(&p, 0), vec!["pacman", "-Syu", "--noconfirm"]);
    assert_eq!(args(&p, 1), vec!["pacman", "-Scc", "--noconfirm"]);
    assert_eq!(p.steps[1].stage, Stage::Cleanup);
}

#[test]
fn pacman_without_sudo_fails() {
    let mut ctx = context(false, false);
    ctx.sudo = None;
    let p = Pacman::get(&None, &Some("pacman".to_string())).unwrap().upgrade_plan(&ctx);
    assert!(p.steps.is_empty());
    assert_eq!(p.failure, Some(UpgradeError::PrivilegeUnavailable));
}

fn aura_plan(output: &str, sudo: bool) -> Plan {
    let mut ctx = context(false, false);
    if !sudo {
        ctx.sudo = None;
    }
    Aura::get(&Some("/usr/bin/aura".to_string())).unwrap().upgrade_plan(&ctx, output)
}

#[test]
fn aura_version_threshold() {
    for (out, direct) in [
        ("aura 4.0.5\n", false),
        ("aura 4.0.6\n", true),
        ("aura 4.0.7\n", true),
        ("aura 5.0.0\n", true),
    ] {
        let v = AuraVersion::from_output(out).unwrap();
        assert_eq!(v.is_unprivileged(), direct);
        let p = aura_plan(out, true);
        assert_eq!(p.steps.len(), 2);
        let program = if direct { "/usr/bin/aura" } else { "/usr/bin/sudo" };
        assert_eq!(p.steps[0].program, program);
        assert_eq!(p.steps[1].program, program);
        assert_eq!(p.steps[0].stage, Stage::AurUpgrade);
        assert_eq!(p.steps[1].stage, Stage::RepoUpgrade);
    }
    assert_eq!(args(&aura_plan("aura 4.0.5", true), 0), vec!["/usr/bin/aura", "-Au"]);
    assert_eq!(args(&aura_plan("aura 4.0.6", true), 1), vec!["-Syu"]);
}

#[test]
fn aura_parses_version_fields() {
    let v = AuraVersion::from_output("aura 4.1.12\n").unwrap();
    assert_eq!(v, AuraVersion { major: 4, minor: 1, patch: 12, prerelease: false });
    let pre = AuraVersion::from_output("aura 4.0.6-rc1").unwrap();
    assert!(pre.prerelease);
    assert!(!pre.is_unprivileged());
}

#[test]
fn aura_malformed_version() {
    let p = aura_plan("aura ", true);
    assert!(p.steps.is_empty());
    assert_eq!(p.failure, Some(UpgradeError::VersionQueryMalformed));
    assert_eq!(aura_plan("aura four", true).failure, Some(UpgradeError::VersionQueryMalformed));
    assert!(AuraVersion::from_output("aura ").is_none());
}

#[test]
fn old_aura_without_sudo_fails() {
    let p = aura_plan("aura 3.2.1\n", false);
    assert!(p.steps.is_empty());
    assert_eq!(p.failure, Some(UpgradeError::PrivilegeUnavailable));
    assert_eq!(aura_plan("aura 4.0.6\n", false).steps.len(), 2);
}

#[test]
fn aura_version_query() {
    let b = ArchBackend::Aura(Aura::get(&Some("aura".to_string())).unwrap());
    let q = b.version_query().unwrap();
    assert_eq!(q.args, vec!["--version".to_string()]);
    assert_eq!(q.stage, Stage::VersionQuery);
    let t = ArchBackend::Trizen(Trizen::get(&Some("trizen".to_string())).unwrap());
    assert!(t.version_query().is_none());
}

#[test]
fn cleanup_failure_is_reported_alone() {
    let ctx = context(true, true);
    let p = Trizen::get(&Some("trizen".to_string())).unwrap().upgrade_plan(&ctx);
    assert!(matches!(next_action(&p, &vec![]), Action::Run(0)));
    assert!(matches!(next_action(&p, &vec![Some(0)]), Action::Run(1)));
    match next_action(&p, &vec![Some(0), Some(1)]) {
        Action::Finished(Err(e)) => {
            assert_eq!(e, UpgradeError::SubprocessFailed { stage: Stage::Cleanup, code: Some(1) })
        }
        other => panic!("unexpected {:?}", other),
    }
    assert!(matches!(next_action(&p, &vec![Some(0), Some(0)]), Action::Finished(Ok(()))));
    assert!(matches!(
        next_action(&p, &vec![Some(2)]),
        Action::Finished(Err(UpgradeError::SubprocessFailed { stage: Stage::Upgrade, code: Some(2) }))
    ));
    assert!(matches!(
        next_action(&p, &vec![None]),
        Action::Finished(Err(UpgradeError::SubprocessFailed { stage: Stage::Upgrade, code: None }))
    ));
}

#[test]
fn news_exit_codes() {
    let mut ctx = context(false, false);
    ctx.show_arch_news = true;
    let y = YayParu::get(&Some("paru".to_string()), "pacman").unwrap();
    let p = y.upgrade_plan(&ctx);
    assert_eq!(p.steps.len(), 2);
    assert_eq!(p.steps[0].stage, Stage::News);
    assert_eq!(args(&p, 0), vec!["-Pw"]);
    assert!(matches!(next_action(&p, &vec![Some(1)]), Action::Run(1)));
    assert!(matches!(next_action(&p, &vec![Some(0)]), Action::Run(1)));
    assert!(matches!(
        next_action(&p, &vec![Some(2)]),
        Action::Finished(Err(UpgradeError::SubprocessFailed { stage: Stage::News, code: Some(2) }))
    ));
}

#[test]
fn plan_failure_after_steps() {
    let p = Plan { steps: vec![], failure: Some(UpgradeError::PrivilegeUnavailable) };
    assert!(matches!(next_action(&p, &vec![]), Action::Finished(Err(UpgradeError::PrivilegeUnavailable))));
}

#[test]
fn runs_reaching_the_low_level_tool_use_system_path() {
    let ctx = context(true, true);
    let path = vec![("PATH".to_string(), "/usr/bin:/home/u/bin".to_string())];
    let y = YayParu::get(&Some("yay".to_string()), "pacman").unwrap().upgrade_plan(&ctx);
    assert_eq!(y.steps[1].stage, Stage::Cleanup);
    assert_eq!(y.steps[1].env, path);
    let t = Trizen::get(&Some("trizen".to_string())).unwrap().upgrade_plan(&ctx);
    assert_eq!(t.steps[1].env, path);
    let p = Pacman::get(&None, &Some("/usr/bin/pacman".to_string())).unwrap().upgrade_plan(&ctx);
    assert_eq!(p.steps[1].env, path);
    for out in ["aura 4.0.5", "aura 4.0.6"] {
        let a = aura_plan(out, true);
        assert_eq!(a.steps[0].env, path);
        assert_eq!(a.steps[1].env, path);
    }
    let mut news_ctx = context(false, false);
    news_ctx.show_arch_news = true;
    let n = YayParu::get(&Some("yay".to_string()), "pacman").unwrap().upgrade_plan(&news_ctx);
    assert!(n.steps[0].env.is_empty());
}
