use clash_tiny::helper::{
    check_start_binary, check_start_request, classify_command, file_name_of, is_helper_running,
    spawn_response, start_mihomo_via_helper, status_request, status_response, stop_mihomo_via_helper,
    stopped_response, unknown_command_response, ChildStatus, HelperCommand, HelperRequest, HelperResponse,
};
use clash_tiny::numfmt::u32_to_decimal;

fn req(bin: Option<&str>, dir: Option<&str>) -> HelperRequest {
    HelperRequest {
        command: "start".to_string(),
        bin_path: bin.map(|s| s.to_string()),
        config_dir: dir.map(|s| s.to_string()),
    }
}

#[test]
fn commands_are_classified() {
    assert_eq!(classify_command("start"), HelperCommand::Start);
    assert_eq!(classify_command("stop"), HelperCommand::Stop);
    assert_eq!(classify_command("status"), HelperCommand::Status);
    assert_eq!(classify_command("Start"), HelperCommand::Unknown);
    assert_eq!(classify_command(""), HelperCommand::Unknown);
}

#[test]
fn unknown_command_answer() {
    let r = unknown_command_response("reboot");
    assert_eq!(r.code, 1);
    assert_eq!(r.message, "Unknown command: reboot");
}

#[test]
fn start_request_needs_both_paths() {
    match check_start_request(&req(Some("/b/mihomo"), Some("/c"))) {
        Ok((b, d)) => {
            assert_eq!(b, "/b/mihomo");
            assert_eq!(d, "/c");
        }
        Err(_) => panic!(),
    }
    for (r, msg) in [
        (req(None, Some("/c")), "Missing bin_path"),
        (req(Some(""), Some("/c")), "Missing bin_path"),
        (req(None, None), "Missing bin_path"),
        (req(Some("/b"), None), "Missing config_dir"),
        (req(Some("/b"), Some("")), "Missing config_dir"),
    ] {
        match check_start_request(&r) {
            Err(resp) => {
                assert_eq!(resp.code, 1);
                assert_eq!(resp.message, msg);
            }
            Ok(_) => panic!(),
        }
    }
}

#[test]
fn binary_must_exist_and_be_named_mihomo() {
    assert!(check_start_binary("/opt/mihomo-arm64-apple-darwin", true).is_none());
    let missing = check_start_binary("/opt/mihomo", false).unwrap();
    assert_eq!(missing.code, 1);
    assert_eq!(missing.message, "Binary not found: /opt/mihomo");
    let bad = check_start_binary("/usr/bin/curl", true).unwrap();
    assert_eq!(bad.message, "Rejected: binary name 'curl' not allowed");
    let sneaky = check_start_binary("/opt/mihomo/../evil", true).unwrap();
    assert_eq!(sneaky.message, "Rejected: binary name 'evil' not allowed");
    let up = check_start_binary("/opt/mihomo/..", true).unwrap();
    assert_eq!(up.message, "Rejected: binary name '' not allowed");
}

#[test]
fn file_names_follow_path_rules() {
    for p in ["/a/b", "/a/b/", "/a/b/.", "a//b", "/", "", ".", "./", "..", "/a/..", "b", "/a/./b"] {
        let expected = std::path::Path::new(p)
            .file_name()
            .unwrap_or_default()
            .to_string_lossy()
            .to_string();
        assert_eq!(file_name_of(p), expected, "path {p:?}");
    }
}

#[test]
fn spawn_answers() {
    let ok = spawn_response(Ok(4321));
    assert_eq!(ok.code, 0);
    assert_eq!(ok.message, "Started pid=4321");
    let err = spawn_response(Err("permission denied".to_string()));
    assert_eq!(err.code, 1);
    assert_eq!(err.message, "Spawn failed: permission denied");
    assert_eq!(stopped_response().message, "Stopped");
    assert_eq!(stopped_response().code, 0);
}

#[test]
fn status_answers() {
    let (r, forget) = status_response(ChildStatus::NoChild);
    assert_eq!((r.code, r.message.as_str(), forget), (0, "Not running", false));
    let (r, forget) = status_response(ChildStatus::Running(77));
    assert_eq!((r.code, r.message.as_str(), forget), (0, "Running pid=77", false));
    let (r, forget) = status_response(ChildStatus::Exited("exit status: 1".to_string()));
    assert_eq!((r.code, r.message.as_str(), forget), (0, "Exited with exit status: 1", true));
    let (r, forget) = status_response(ChildStatus::Unknown);
    assert_eq!((r.code, r.message.as_str(), forget), (0, "Not running", true));
}

#[test]
fn client_requests() {
    let s = start_mihomo_via_helper("/bin/mihomo", "/cfg");
    assert_eq!(s.command, "start");
    assert_eq!(s.bin_path.as_deref(), Some("/bin/mihomo"));
    assert_eq!(s.config_dir.as_deref(), Some("/cfg"));
    let t = stop_mihomo_via_helper();
    assert_eq!((t.command.as_str(), t.bin_path.is_none(), t.config_dir.is_none()), ("stop", true, true));
    let u = status_request();
    assert_eq!(u.command, "status");
}

#[test]
fn client_start_request_passes_helper_checks() {
    let s = start_mihomo_via_helper("/bin/mihomo", "/cfg");
    assert_eq!(classify_command(&s.command), HelperCommand::Start);
    assert!(check_start_request(&s).is_ok());
    assert_eq!(classify_command(&stop_mihomo_via_helper().command), HelperCommand::Stop);
    assert_eq!(classify_command(&status_request().command), HelperCommand::Status);
}

#[test]
fn helper_is_running_when_it_answers() {
    assert!(is_helper_running(&Ok(HelperResponse { code: 1, message: "x".to_string() })));
    assert!(!is_helper_running(&Err("refused".to_string())));
}

#[test]
fn decimal_notation() {
    for n in [0u32, 7, 10, 99, 100, 4321, u32::MAX] {
        assert_eq!(u32_to_decimal(n), n.to_string());
    }
}
