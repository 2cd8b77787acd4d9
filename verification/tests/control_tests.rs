use clash_tiny::helper::HelperResponse;
use clash_tiny::menu::{menu_action, mode_item_id, profile_item_id, profile_items, tray_icon, MenuAction, TrayIcon};
use clash_tiny::modes::{
    begin_mode_switch, finish_auto_start_toggle, finish_mode_switch, helper_probe_step, quit_cleanup,
    startup_restore, sync_auto_start, teardown_for, tun_start_outcome, ProbeStep, QuitCleanup, StartupRestore,
    SwitchFinish, SwitchStart, Teardown, TunStart,
};
use clash_tiny::state::{AppState, ProxyMode};
use clash_tiny::watchdog::{
    helper_started, recovery_plan, wake_error_flag, wake_plan, woke_from_sleep, HealthAction, RecoveryPlan,
    WakePlan, Watchdog,
};

#[test]
fn defaults() {
    let s = AppState::default();
    assert_eq!(s.proxy_mode, ProxyMode::Off);
    assert!(s.active_profile.is_none());
    assert!(!s.auto_start);
    assert_eq!(ProxyMode::default(), ProxyMode::Off);
}

#[test]
fn watchdog_restarts_on_third_failure() {
    let mut w = Watchdog::new();
    let mut error = false;
    assert_eq!(w.observe_health(false, error), HealthAction::Nothing);
    assert_eq!(w.consecutive_failures(), 1);
    assert_eq!(w.observe_health(false, error), HealthAction::RaiseError);
    error = true;
    assert_eq!(w.consecutive_failures(), 2);
    assert_eq!(w.observe_health(false, error), HealthAction::Recover);
    assert_eq!(w.consecutive_failures(), 0);
}

#[test]
fn watchdog_healthy_check_resets() {
    let mut w = Watchdog::new();
    assert_eq!(w.observe_health(true, false), HealthAction::Nothing);
    w.observe_health(false, false);
    assert_eq!(w.observe_health(true, false), HealthAction::ClearError);
    assert_eq!(w.consecutive_failures(), 0);
    assert_eq!(w.observe_health(true, true), HealthAction::ClearError);
    w.observe_health(false, false);
    w.observe_health(false, true);
    w.observe_wake();
    assert_eq!(w.consecutive_failures(), 0);
}

#[test]
fn watchdog_raises_and_recovers_when_flag_was_cleared() {
    let mut w = Watchdog::new();
    w.observe_health(false, false);
    w.observe_health(false, true);
    assert_eq!(w.observe_health(false, false), HealthAction::RaiseErrorAndRecover);
}

#[test]
fn watchdog_counts_trailing_failures_mod_three() {
    let checks = [false, false, true, false, false, false, false, false, true, false];
    let mut w = Watchdog::new();
    let mut run = 0u32;
    for h in checks {
        let action = w.observe_health(h, false);
        run = if h { 0 } else { run + 1 };
        assert_eq!(w.consecutive_failures(), run % 3);
        let recovered = matches!(action, HealthAction::Recover | HealthAction::RaiseErrorAndRecover);
        assert_eq!(recovered, !h && run % 3 == 0);
    }
}

#[test]
fn wake_detection() {
    assert!(!woke_from_sleep(35_000_000_000));
    assert!(woke_from_sleep(35_000_000_001));
    assert!(!woke_from_sleep(15_000_000_000));
}

#[test]
fn recovery_and_wake_plans() {
    assert_eq!(recovery_plan(ProxyMode::Tun, true), RecoveryPlan::RestartViaHelper);
    assert_eq!(recovery_plan(ProxyMode::Tun, false), RecoveryPlan::Skip);
    assert_eq!(recovery_plan(ProxyMode::SystemProxy, false), RecoveryPlan::RestartSidecar);
    assert_eq!(recovery_plan(ProxyMode::Off, true), RecoveryPlan::RestartSidecar);
    assert_eq!(wake_plan(ProxyMode::Tun, true), WakePlan::RestartViaHelper);
    assert_eq!(wake_plan(ProxyMode::Tun, false), WakePlan::HelperMissing);
    assert_eq!(wake_plan(ProxyMode::SystemProxy, false), WakePlan::ReapplyProxyAndRestartSidecar);
    assert_eq!(wake_plan(ProxyMode::Off, false), WakePlan::RestartSidecar);
}

#[test]
fn helper_start_outcome() {
    assert!(helper_started(&Ok(HelperResponse { code: 0, message: "Started pid=1".into() })));
    assert!(!helper_started(&Ok(HelperResponse { code: 1, message: "no".into() })));
    assert!(!helper_started(&Err("down".into())));
}

#[test]
fn menu_ids_route_to_actions() {
    assert!(matches!(menu_action("open_runtime_config"), MenuAction::OpenRuntimeConfig));
    assert!(matches!(menu_action("add_subscription"), MenuAction::AddSubscription));
    assert!(matches!(menu_action("mode_system_proxy"), MenuAction::SetMode(ProxyMode::SystemProxy)));
    assert!(matches!(menu_action("mode_tun"), MenuAction::SetMode(ProxyMode::Tun)));
    assert!(matches!(menu_action("mode_none"), MenuAction::SetMode(ProxyMode::Off)));
    assert!(matches!(menu_action("open_dashboard"), MenuAction::OpenDashboard));
    assert!(matches!(menu_action("auto_start"), MenuAction::ToggleAutoStart));
    assert!(matches!(menu_action("open_config_dir"), MenuAction::OpenConfigDir));
    assert!(matches!(menu_action("uninstall"), MenuAction::Uninstall));
    assert!(matches!(menu_action("about"), MenuAction::About));
    assert!(matches!(menu_action("quit"), MenuAction::Quit));
    assert!(matches!(menu_action("no_profiles"), MenuAction::Ignore));
    assert!(matches!(menu_action("global_override"), MenuAction::Ignore));
    match menu_action("profile_work") {
        MenuAction::SwitchProfile(p) => assert_eq!(p, "work"),
        _ => panic!(),
    }
    match menu_action("profile_") {
        MenuAction::SwitchProfile(p) => assert_eq!(p, ""),
        _ => panic!(),
    }
}

#[test]
fn menu_items_route_back() {
    for stem in ["a", "名字", "profile_x", ""] {
        match menu_action(&profile_item_id(stem)) {
            MenuAction::SwitchProfile(p) => assert_eq!(p, stem),
            _ => panic!(),
        }
    }
    for m in [ProxyMode::SystemProxy, ProxyMode::Tun, ProxyMode::Off] {
        match menu_action(mode_item_id(m)) {
            MenuAction::SetMode(x) => assert_eq!(x, m),
            _ => panic!(),
        }
    }
}

#[test]
fn profile_items_check_the_active_profile() {
    let profiles = vec![("a".to_string(), "a".to_string()), ("b".to_string(), "b".to_string())];
    let items = profile_items(&profiles, &Some("b".to_string()));
    assert_eq!(items.len(), 2);
    assert_eq!(items[0].id, "profile_a");
    assert_eq!(items[0].label, "a");
    assert!(!items[0].checked);
    assert!(items[1].checked);
    assert!(profile_items(&profiles, &None).iter().all(|i| !i.checked));
}

#[test]
fn tray_icons() {
    assert_eq!(tray_icon(ProxyMode::Tun, true), TrayIcon::Error);
    assert_eq!(tray_icon(ProxyMode::Tun, false), TrayIcon::Tun);
    assert_eq!(tray_icon(ProxyMode::SystemProxy, false), TrayIcon::SystemProxy);
    assert_eq!(tray_icon(ProxyMode::Off, false), TrayIcon::Off);
}

#[test]
fn mode_switch_decisions() {
    assert_eq!(begin_mode_switch(true, ProxyMode::Off, ProxyMode::Tun), SwitchStart::Busy);
    assert_eq!(begin_mode_switch(false, ProxyMode::Tun, ProxyMode::Tun), SwitchStart::AlreadyActive);
    assert_eq!(begin_mode_switch(false, ProxyMode::Tun, ProxyMode::Off), SwitchStart::TurnOff);
    assert_eq!(begin_mode_switch(false, ProxyMode::Off, ProxyMode::SystemProxy), SwitchStart::EnableSystemProxy);
    assert_eq!(begin_mode_switch(false, ProxyMode::SystemProxy, ProxyMode::Tun), SwitchStart::SetUpTun);
    assert_eq!(teardown_for(ProxyMode::SystemProxy), Teardown::DisableSystemProxy);
    assert_eq!(teardown_for(ProxyMode::Tun), Teardown::StopTunAndRestartSidecar);
    assert_eq!(teardown_for(ProxyMode::Off), Teardown::Nothing);
    assert_eq!(quit_cleanup(ProxyMode::Tun), QuitCleanup::StopTun);
    assert_eq!(quit_cleanup(ProxyMode::SystemProxy), QuitCleanup::DisableSystemProxy);
    assert_eq!(quit_cleanup(ProxyMode::Off), QuitCleanup::Nothing);
}

#[test]
fn startup_decisions() {
    assert_eq!(startup_restore(ProxyMode::Tun, true, true), StartupRestore::StartViaHelper);
    assert_eq!(startup_restore(ProxyMode::Tun, true, false), StartupRestore::FallBackToOff);
    assert_eq!(startup_restore(ProxyMode::Tun, false, true), StartupRestore::FallBackToOff);
    assert_eq!(startup_restore(ProxyMode::SystemProxy, false, false), StartupRestore::EnableSystemProxy);
    assert_eq!(startup_restore(ProxyMode::Off, true, true), StartupRestore::Nothing);
    assert_eq!(sync_auto_start(true, false), (false, true));
    assert_eq!(sync_auto_start(false, false), (false, false));
    assert_eq!(sync_auto_start(false, true), (true, true));
}

#[test]
fn finish_mode_switch_applies_or_aborts() {
    match finish_mode_switch(ProxyMode::SystemProxy, ProxyMode::Tun, Ok(())) {
        SwitchFinish::Apply { teardown, save } => {
            assert_eq!(teardown, Teardown::DisableSystemProxy);
            assert_eq!(save, ProxyMode::Tun);
        }
        SwitchFinish::Abort { .. } => panic!("a successful setup applies"),
    }
    match finish_mode_switch(ProxyMode::Tun, ProxyMode::Off, Ok(())) {
        SwitchFinish::Apply { teardown, save } => {
            assert_eq!(teardown, Teardown::StopTunAndRestartSidecar);
            assert_eq!(save, ProxyMode::Off);
        }
        SwitchFinish::Abort { .. } => panic!("turning off applies"),
    }
    match finish_mode_switch(ProxyMode::Off, ProxyMode::Tun, Err("no helper".to_string())) {
        SwitchFinish::Abort { error } => assert_eq!(error, "开启透明代理失败：no helper"),
        SwitchFinish::Apply { .. } => panic!("a failed setup aborts"),
    }
    match finish_mode_switch(ProxyMode::Off, ProxyMode::SystemProxy, Err("x".to_string())) {
        SwitchFinish::Abort { error } => assert_eq!(error, "开启系统代理失败：x"),
        SwitchFinish::Apply { .. } => panic!("a failed setup aborts"),
    }
}

#[test]
fn auto_start_toggle_outcomes() {
    assert_eq!(finish_auto_start_toggle(false, Ok(())), Ok(true));
    assert_eq!(finish_auto_start_toggle(true, Ok(())), Ok(false));
    assert_eq!(finish_auto_start_toggle(true, Err("denied".to_string())), Err("设置开机自启失败：denied".to_string()));
}

#[test]
fn helper_probe_steps() {
    assert!(matches!(helper_probe_step(0, true), ProbeStep::Ready));
    assert!(matches!(helper_probe_step(9, true), ProbeStep::Ready));
    assert!(matches!(helper_probe_step(0, false), ProbeStep::Retry));
    assert!(matches!(helper_probe_step(8, false), ProbeStep::Retry));
    match helper_probe_step(9, false) {
        ProbeStep::GiveUp(e) => assert_eq!(e, "Helper 服务未能启动，请检查 /tmp/clash-tiny-helper.log"),
        _ => panic!("the tenth failed probe gives up"),
    }
}

#[test]
fn tun_start_outcomes() {
    let ok: Result<HelperResponse, String> = Ok(HelperResponse { code: 0, message: "started".to_string() });
    assert!(matches!(tun_start_outcome(&ok), TunStart::Started));
    let refused: Result<HelperResponse, String> = Ok(HelperResponse { code: 1, message: "bad".to_string() });
    match tun_start_outcome(&refused) {
        TunStart::RollBack(e) => assert_eq!(e, "Helper 启动 Mihomo 失败: bad"),
        _ => panic!("a refusal rolls back"),
    }
    let lost: Result<HelperResponse, String> = Err("no socket".to_string());
    match tun_start_outcome(&lost) {
        TunStart::Failed(e) => assert_eq!(e, "no socket"),
        _ => panic!("no answer fails"),
    }
}

#[test]
fn wake_error_flags() {
    assert!(!wake_error_flag(WakePlan::RestartViaHelper, true, true));
    assert!(wake_error_flag(WakePlan::RestartViaHelper, false, false));
    assert!(wake_error_flag(WakePlan::HelperMissing, true, false));
    assert!(!wake_error_flag(WakePlan::ReapplyProxyAndRestartSidecar, true, true));
    assert!(wake_error_flag(WakePlan::ReapplyProxyAndRestartSidecar, false, false));
    assert!(wake_error_flag(WakePlan::RestartSidecar, false, true));
    assert!(!wake_error_flag(WakePlan::RestartSidecar, true, false));
}

#[test]
fn menu_model_follows_the_state() {
    let profiles = vec![("a".to_string(), "A".to_string()), ("b".to_string(), "B".to_string())];
    let state = AppState { proxy_mode: ProxyMode::Tun, active_profile: Some("b".to_string()), auto_start: true };
    let m = clash_tiny::menu::menu_model(&state, &profiles);
    assert!(!m.mode_system_checked && m.mode_tun_checked && !m.mode_off_checked);
    assert!(m.auto_start_checked);
    assert!(!m.global_override_enabled);
    assert_eq!(m.profiles.len(), 2);
    assert_eq!(m.profiles[0].id, "profile_a");
    assert_eq!(m.profiles[1].label, "B");
    assert!(!m.profiles[0].checked && m.profiles[1].checked);

    let off = AppState::default();
    let m = clash_tiny::menu::menu_model(&off, &vec![]);
    assert!(!m.mode_system_checked && !m.mode_tun_checked && m.mode_off_checked);
    assert!(!m.auto_start_checked);
    assert!(m.profiles.is_empty());
}
