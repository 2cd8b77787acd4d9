use clash_tiny::core_process::{
    describe_version, is_api_healthy, rebuild_source, reload_plan, start_decision, ChildCheck,
    RebuildSource, ReloadPlan, StartDecision,
};
use clash_tiny::dialogs::{
    about_script, admin_cleanup_error, build_plist, confirm_uninstall, detect_app_bundle,
    error_dialog_script, install_helper_error, install_script, result_dialog_script,
    uninstall_helper_error, uninstall_script, uninstall_summary,
};
use clash_tiny::locate::{
    helper_binary_search, helper_plist_search, install_script_search, mihomo_bin_path_search,
    mihomo_bin_search, uninstall_script_search,
};
use clash_tiny::netproxy::{
    active_services, command_error, disable_proxy_commands, enable_proxy_commands, enable_result,
    join_strings, parse_network_services, CommandOutcome,
};
use clash_tiny::subscription::{
    check_profile_slot, finish_save, parse_subscription_input, validation_summary, SaveFinish,
};

#[test]
fn subscription_input_is_parsed() {
    let i = parse_subscription_input("  https://x.io/sub \u{1f} My Sub \u{1f}1\n").unwrap();
    assert_eq!(i.url, "https://x.io/sub");
    assert_eq!(i.name, "My_Sub");
    assert!(i.overwrite);
    let j = parse_subscription_input("http://a\u{1f}b\u{1f}0").unwrap();
    assert!(!j.overwrite);
}

#[test]
fn unusable_subscription_input_is_dropped() {
    assert!(parse_subscription_input("").is_none());
    assert!(parse_subscription_input("undefined\n").is_none());
    assert!(parse_subscription_input("https://a\u{1f}b").is_none());
    assert!(parse_subscription_input("ftp://a\u{1f}b\u{1f}1").is_none());
    assert!(parse_subscription_input("https://a\u{1f}#!\u{1f}1").is_none());
    assert!(parse_subscription_input(" \u{1f}b\u{1f}1").is_none());
    assert!(parse_subscription_input("https://a\u{1f}b\u{1f}1\u{1f}x").is_none());
}

#[test]
fn profile_slot() {
    assert!(check_profile_slot("a", false, false).is_ok());
    assert!(check_profile_slot("a", true, true).is_ok());
    assert_eq!(
        check_profile_slot("a", false, true).unwrap_err(),
        "订阅「a」已存在，请勾选覆盖选项或使用其他名称"
    );
}

#[test]
fn validation_summary_takes_last_nonblank_line() {
    assert_eq!(validation_summary("line1\nfatal: bad proxy\n  \n", "ok"), "fatal: bad proxy");
    assert_eq!(validation_summary("", "a\nb\n"), "b");
    assert_eq!(validation_summary("", ""), "未知错误");
    assert_eq!(validation_summary(" \n\t\n", "ignored"), "未知错误");
}

#[test]
fn network_services_are_parsed() {
    let listing = "An asterisk (*) denotes that a network service is disabled.\nWi-Fi\n*Bluetooth PAN\n  Thunderbolt Bridge  \n\nUSB 10/100/1000 LAN\n";
    assert_eq!(
        parse_network_services(listing),
        vec!["Wi-Fi", "Thunderbolt Bridge", "USB 10/100/1000 LAN"]
    );
    assert!(parse_network_services("header only\n").is_empty());
    assert_eq!(active_services(None), vec!["Wi-Fi", "Ethernet"]);
    assert_eq!(active_services(Some("h\nEthernet")), vec!["Ethernet"]);
}

#[test]
fn proxy_commands() {
    let e = enable_proxy_commands("Wi-Fi");
    assert_eq!(e.len(), 4);
    assert_eq!(e[0].label, "setwebproxy");
    assert_eq!(e[0].args, vec!["-setwebproxy", "Wi-Fi", "127.0.0.1", "7890"]);
    assert_eq!(e[2].args, vec!["-setsocksfirewallproxy", "Wi-Fi", "127.0.0.1", "7890"]);
    assert_eq!(e[3].args.len(), 10);
    assert_eq!(e[3].args[9], "<local>");
    let d = disable_proxy_commands("Ethernet");
    assert_eq!(d.len(), 3);
    assert_eq!(d[1].label, "securewebproxy off");
    assert_eq!(d[1].args, vec!["-setsecurewebproxystate", "Ethernet", "off"]);
}

#[test]
fn proxy_errors() {
    assert!(command_error("setwebproxy", "Wi-Fi", &CommandOutcome::Success).is_none());
    assert_eq!(
        command_error("setwebproxy", "Wi-Fi", &CommandOutcome::Exited("exit status: 4".into())).unwrap(),
        "setwebproxy on 'Wi-Fi' exited with exit status: 4"
    );
    assert_eq!(
        command_error("webproxy off", "Wi-Fi", &CommandOutcome::Failed("not found".into())).unwrap(),
        "webproxy off on 'Wi-Fi' failed: not found"
    );
    assert!(enable_result(&vec![]).is_ok());
    assert_eq!(enable_result(&vec!["a".into(), "b".into()]).unwrap_err(), "a; b");
    assert_eq!(join_strings(&vec!["x".into()], ", "), "x");
    assert_eq!(join_strings(&vec![], ", "), "");
}

#[test]
fn api_health_and_version() {
    assert!(is_api_healthy(Some(200)));
    assert!(is_api_healthy(Some(204)));
    assert!(!is_api_healthy(Some(401)));
    assert!(!is_api_healthy(Some(199)));
    assert!(!is_api_healthy(Some(300)));
    assert!(!is_api_healthy(None));
    assert_eq!(describe_version(Some(Some(true)), Some(Some("v1.18".into()))), Some("Mihomo Meta v1.18".into()));
    assert_eq!(describe_version(Some(Some(false)), Some(Some("v1".into()))), Some("v1".into()));
    assert_eq!(describe_version(Some(None), Some(Some("v1".into()))), Some("v1".into()));
    assert_eq!(describe_version(None, Some(Some("v1".into()))), None);
    assert_eq!(describe_version(Some(Some(true)), Some(None)), None);
    assert_eq!(describe_version(Some(Some(true)), None), None);
}

#[test]
fn core_process_decisions() {
    assert_eq!(start_decision(ChildCheck::Running), StartDecision::AlreadyRunning);
    assert_eq!(start_decision(ChildCheck::NoChild), StartDecision::Spawn { forget_old: false });
    assert_eq!(start_decision(ChildCheck::Exited), StartDecision::Spawn { forget_old: true });
    assert_eq!(start_decision(ChildCheck::Unknown), StartDecision::Spawn { forget_old: true });
    assert_eq!(reload_plan(false, false, false).unwrap_err(), "config.yaml not found");
    assert_eq!(reload_plan(true, false, false).unwrap(), ReloadPlan::StartSidecar);
    assert_eq!(reload_plan(true, false, true).unwrap(), ReloadPlan::HotReload);
    assert_eq!(reload_plan(true, true, false).unwrap(), ReloadPlan::HotReload);
    assert!(matches!(rebuild_source(true, Some("a".into()), true), RebuildSource::Keep));
    assert!(matches!(rebuild_source(false, Some("a".into()), true), RebuildSource::Profile(p) if p == "a"));
    assert!(matches!(rebuild_source(false, Some("a".into()), false), RebuildSource::Override));
    assert!(matches!(rebuild_source(false, None, true), RebuildSource::Override));
}

#[test]
fn helper_install_errors() {
    assert_eq!(install_helper_error("execution error: User canceled. (-128)\n"), "用户取消了授权");
    assert_eq!(install_helper_error("  boom \n"), "安装失败: boom");
    assert_eq!(uninstall_helper_error(" x "), "卸载失败: x");
    assert_eq!(admin_cleanup_error("(-128)"), "用户取消了授权，Helper 未清理");
    assert_eq!(admin_cleanup_error("denied\n"), "osascript 失败: denied");
}

#[test]
fn admin_scripts() {
    assert_eq!(
        install_script("/s/install.sh", "/h/helper", "/p/x.plist"),
        "do shell script \"bash '/s/install.sh' '/h/helper' '/p/x.plist'\" with administrator privileges"
    );
    assert_eq!(
        uninstall_script("/s/u.sh"),
        "do shell script \"bash '/s/u.sh'\" with administrator privileges"
    );
}

#[test]
fn dialog_scripts() {
    assert_eq!(
        error_dialog_script("bad \"x\""),
        "tell application \"System Events\" to activate\ndisplay dialog \"bad \\\"x\\\"\" with title \"Clash Tiny\" buttons {\"确定\"} default button \"确定\" with icon stop"
    );
    assert_eq!(
        result_dialog_script("done"),
        "tell application \"System Events\" to activate\ndisplay dialog \"done\" with title \"Clash Tiny\" buttons {\"确定\"} default button \"确定\""
    );
    let about = about_script("0.1.0", Some("Mihomo Meta v1 (\"x\")".into()));
    assert!(about.contains("版本  0.1.0\\n内核  Mihomo Meta v1 ('x'\");"));
    assert!(about_script("0.1.0", None).contains("内核  未运行\""));
    assert!(about.ends_with("response == 1001 ? \"github\" : \"ok\";"));
}

#[test]
fn uninstall_messages() {
    assert!(confirm_uninstall("button returned:确认卸载\n"));
    assert!(!confirm_uninstall("button returned:取消\n"));
    assert_eq!(uninstall_summary(&vec![]), "Clash Tiny 已完全卸载。");
    assert_eq!(
        uninstall_summary(&vec!["a".into(), "b".into()]),
        "卸载基本完成，以下项目未能清理：\n\n• a\n• b\n\n可手动删除。"
    );
}

#[test]
fn app_bundle_detection() {
    assert_eq!(
        detect_app_bundle("/Applications/Clash Tiny.app/Contents/MacOS/clash-tiny"),
        Some("/Applications/Clash Tiny.app".to_string())
    );
    assert_eq!(detect_app_bundle("/usr/local/bin/clash-tiny"), None);
    assert_eq!(detect_app_bundle("/A/名.app/Contents/MacOS/x"), Some("/A/名.app".to_string()));
}

#[test]
fn login_item_text() {
    let p = build_plist("/Apps/A&B.app/Contents/MacOS/x");
    assert!(p.starts_with("<?xml version=\"1.0\" encoding=\"UTF-8\"?>\n"));
    assert!(p.contains("<string>com.clash-tiny.app</string>"));
    assert!(p.contains("        <string>/Apps/A&amp;B.app/Contents/MacOS/x</string>\n"));
    assert!(p.ends_with("</dict>\n</plist>\n"));
}

#[test]
fn search_plans() {
    let h = helper_binary_search("/proj", Some("/app/MacOS"));
    assert_eq!(
        h.candidates,
        vec![
            "/proj/helper/target/release/clash-tiny-helper",
            "/proj/helper/target/debug/clash-tiny-helper",
            "/app/MacOS/clash-tiny-helper",
        ]
    );
    assert_eq!(h.not_found, "找不到 Helper 二进制文件，请先编译 helper 项目");
    assert_eq!(
        helper_plist_search("/proj", None).candidates,
        vec!["/proj/helper/scripts/com.clash-tiny.helper.plist"]
    );
    assert_eq!(
        install_script_search("/proj", Some("/e")).candidates,
        vec!["/proj/helper/scripts/install.sh", "/e/install.sh"]
    );
    assert_eq!(uninstall_script_search("/proj").candidates, vec!["/proj/helper/scripts/uninstall.sh"]);
    let m = mihomo_bin_search("aarch64", "/proj/src-tauri", Some("/e"), Some("/r"));
    assert_eq!(
        m.candidates,
        vec![
            "/proj/src-tauri/bin/mihomo-aarch64-apple-darwin",
            "/e/mihomo-aarch64-apple-darwin",
            "/r/mihomo-aarch64-apple-darwin",
        ]
    );
    assert_eq!(m.not_found, "Cannot find mihomo binary 'mihomo-aarch64-apple-darwin'. Place it in src-tauri/bin/");
    let n = mihomo_bin_path_search("x86_64", "/m", None);
    assert_eq!(n.candidates, vec!["/m/bin/mihomo-x86_64-apple-darwin"]);
    assert_eq!(n.not_found, "找不到 mihomo 二进制: mihomo-x86_64-apple-darwin");
}

#[test]
fn finish_save_installs_or_rolls_back() {
    assert!(matches!(finish_save(true, Ok(())), SaveFinish::Install));
    match finish_save(true, Err("bad proxy".to_string())) {
        SaveFinish::RollBack { restore_backup, error } => {
            assert!(restore_backup);
            assert_eq!(error, "配置验证失败: bad proxy");
        }
        SaveFinish::Install => panic!("a failed test must roll back"),
    }
    match finish_save(false, Err("x".to_string())) {
        SaveFinish::RollBack { restore_backup, error } => {
            assert!(!restore_backup);
            assert_eq!(error, "配置验证失败: x");
        }
        SaveFinish::Install => panic!("a failed test must roll back"),
    }
}

#[test]
fn check_services_needs_one() {
    assert_eq!(
        clash_tiny::netproxy::check_services(&vec![]),
        Err("No active network services found".to_string())
    );
    assert_eq!(clash_tiny::netproxy::check_services(&vec!["Wi-Fi".to_string()]), Ok(()));
}

#[test]
fn rebuilt_config_prefers_merged_then_override() {
    assert_eq!(clash_tiny::core_process::rebuilt_config_text(Some("m".to_string()), Some("o".to_string()), "d"), "m");
    assert_eq!(clash_tiny::core_process::rebuilt_config_text(None, Some("o".to_string()), "d"), "o");
    assert_eq!(clash_tiny::core_process::rebuilt_config_text(None, None, "d"), "d");
}

#[test]
fn merge_error_messages() {
    assert_eq!(clash_tiny::merge::MergeError::BaseNotMapping.message(), "基础配置不是有效的 YAML mapping");
    assert_eq!(clash_tiny::merge::MergeError::OverrideNotMapping.message(), "覆盖配置不是有效的 YAML mapping");
}

#[test]
fn api_requests_are_exact() {
    let v = clash_tiny::core_process::version_request();
    assert_eq!(v.method, "GET");
    assert_eq!(v.url, "http://127.0.0.1:9090/version");
    assert_eq!(v.authorization, "Bearer ClashTiny");
    assert!(v.body.is_none());
    let r = clash_tiny::core_process::reload_request("/Users/me/.config/clash-tiny/config.yaml");
    assert_eq!(r.method, "PUT");
    assert_eq!(r.url, "http://127.0.0.1:9090/configs?force=true");
    assert_eq!(r.body.as_deref(), Some("{\"path\":\"/Users/me/.config/clash-tiny/config.yaml\"}"));
    let q = clash_tiny::core_process::reload_request("a\"b\\c");
    assert_eq!(q.body.as_deref(), Some("{\"path\":\"a\\\"b\\\\c\"}"));
}

#[test]
fn reload_response_and_health_wait() {
    assert_eq!(clash_tiny::core_process::reload_response(204, "204 No Content"), Ok(()));
    assert_eq!(
        clash_tiny::core_process::reload_response(500, "500 Internal Server Error"),
        Err("Reload returned HTTP 500 Internal Server Error".to_string())
    );
    assert_eq!(clash_tiny::core_process::health_wait_step(0, 10, true), clash_tiny::core_process::HealthWait::Healthy);
    assert_eq!(clash_tiny::core_process::health_wait_step(3, 10, false), clash_tiny::core_process::HealthWait::Retry);
    assert_eq!(clash_tiny::core_process::health_wait_step(9, 10, false), clash_tiny::core_process::HealthWait::GiveUp);
}

#[test]
fn activate_needs_an_existing_profile() {
    assert_eq!(clash_tiny::subscription::check_profile_exists("home", true), Ok(()));
    assert_eq!(clash_tiny::subscription::check_profile_exists("home", false), Err("订阅「home」不存在".to_string()));
}
