use vstd::prelude::*;
use crate::text::{char_len, trim, trim_spec, contains, contains_spec, find, occurs_at};
use crate::escape::{
    escape_for_applescript, applescript_escaped, xml_escape, xml_escaped, sanitize_version_text,
    version_text,
};
use crate::netproxy::{join_strings, join_spec};

verus! {

/// Whether `osascript`'s error output says that the user cancelled the
/// administrator prompt.
pub open spec fn user_cancelled(stderr: Seq<char>) -> bool {
    contains_spec(stderr, "User canceled"@) || contains_spec(stderr, "(-128)"@)
}

fn cancelled(stderr: &str) -> (r: bool)
    ensures
        r == user_cancelled(stderr@),
{
    contains(stderr, "User canceled") || contains(stderr, "(-128)")
}

/// The error of a failed helper installation.
pub fn install_helper_error(stderr: &str) -> (r: String)
    ensures
        r@ == (if user_cancelled(stderr@) {
            "用户取消了授权"@
        } else {
            "安装失败: "@ + trim_spec(stderr@)
        }),
{
    if cancelled(stderr) {
        String::from_str("用户取消了授权")
    } else {
        String::from_str("安装失败: ").concat(trim(stderr).as_str())
    }
}

/// The error of a failed helper removal from the menu.
pub fn uninstall_helper_error(stderr: &str) -> (r: String)
    ensures
        r@ == "卸载失败: "@ + trim_spec(stderr@),
{
    String::from_str("卸载失败: ").concat(trim(stderr).as_str())
}

/// The error of a failed helper removal during the application's uninstall.
pub fn admin_cleanup_error(stderr: &str) -> (r: String)
    ensures
        r@ == (if user_cancelled(stderr@) {
            "用户取消了授权，Helper 未清理"@
        } else {
            "osascript 失败: "@ + trim_spec(stderr@)
        }),
{
    if cancelled(stderr) {
        String::from_str("用户取消了授权，Helper 未清理")
    } else {
        String::from_str("osascript 失败: ").concat(trim(stderr).as_str())
    }
}

/// The AppleScript that runs the helper's install script as administrator.
pub fn install_script(script: &str, helper_bin: &str, plist: &str) -> (r: String)
    ensures
        r@ == "do shell script \"bash '"@ + script@ + "' '"@ + helper_bin@ + "' '"@ + plist@
            + "'\" with administrator privileges"@,
{
    String::from_str("do shell script \"bash '").concat(script).concat("' '").concat(helper_bin).concat(
        "' '",
    ).concat(plist).concat("'\" with administrator privileges")
}

/// The AppleScript that runs the helper's uninstall script as administrator.
pub fn uninstall_script(script: &str) -> (r: String)
    ensures
        r@ == "do shell script \"bash '"@ + script@ + "'\" with administrator privileges"@,
{
    String::from_str("do shell script \"bash '").concat(script).concat(
        "'\" with administrator privileges",
    )
}

/// The AppleScript of an error dialog showing `msg`.
pub fn error_dialog_script(msg: &str) -> (r: String)
    ensures
        r@ == "tell application \"System Events\" to activate\ndisplay dialog \""@ + applescript_escaped(
            msg@,
        ) + "\" with title \"Clash Tiny\" buttons {\"确定\"} default button \"确定\" with icon stop"@,
{
    String::from_str("tell application \"System Events\" to activate\ndisplay dialog \"").concat(
        escape_for_applescript(msg).as_str(),
    ).concat("\" with title \"Clash Tiny\" buttons {\"确定\"} default button \"确定\" with icon stop")
}

/// The AppleScript of the dialog that reports how the uninstall went.
pub fn result_dialog_script(msg: &str) -> (r: String)
    ensures
        r@ == "tell application \"System Events\" to activate\ndisplay dialog \""@ + applescript_escaped(
            msg@,
        ) + "\" with title \"Clash Tiny\" buttons {\"确定\"} default button \"确定\""@,
{
    String::from_str("tell application \"System Events\" to activate\ndisplay dialog \"").concat(
        escape_for_applescript(msg).as_str(),
    ).concat("\" with title \"Clash Tiny\" buttons {\"确定\"} default button \"确定\"")
}

/// Whether the uninstall confirmation dialog was confirmed, from its output.
pub fn confirm_uninstall(stdout: &str) -> (r: bool)
    ensures
        r == contains_spec(stdout@, "确认卸载"@),
{
    contains(stdout, "确认卸载")
}

/// What the uninstall reports, given what it could not clean up.
pub fn uninstall_summary(errors: &Vec<String>) -> (r: String)
    ensures
        r@ == (if errors@.len() == 0 {
            "Clash Tiny 已完全卸载。"@
        } else {
            "卸载基本完成，以下项目未能清理：\n\n• "@ + join_spec(errors@.map_values(|s: String| s@), "\n• "@)
                + "\n\n可手动删除。"@
        }),
{
    if errors.len() == 0 {
        String::from_str("Clash Tiny 已完全卸载。")
    } else {
        String::from_str("卸载基本完成，以下项目未能清理：\n\n• ").concat(
            join_strings(errors, "\n• ").as_str(),
        ).concat("\n\n可手动删除。")
    }
}

/// The application bundle that contains an executable: the path up to and
/// including `.app` when it holds `.app/Contents/MacOS/`.
pub fn detect_app_bundle(exe_path: &str) -> (r: Option<String>)
    ensures
        match r {
            Some(b) => exists|i: int|
                occurs_at(exe_path@, ".app/Contents/MacOS/"@, i) && (forall|j: int|
                    0 <= j < i ==> !occurs_at(exe_path@, ".app/Contents/MacOS/"@, j)) && b@
                    == exe_path@.take(i + 4),
            None => !contains_spec(exe_path@, ".app/Contents/MacOS/"@),
        },
{
    let n = char_len(exe_path);
    match find(exe_path, ".app/Contents/MacOS/") {
        Some(i) => {
            proof {
                reveal_strlit(".app/Contents/MacOS/");
                assert(i + 20 <= n);
            }
            let b = String::from_str(exe_path.substring_char(0, i + 4));
            assert(b@ =~= exe_path@.take(i + 4));
            Some(b)
        },
        None => None,
    }
}

/// The login item text for an executable path.
pub fn build_plist(exe_path: &str) -> (r: String)
    ensures
        r@ == "<?xml version=\"1.0\" encoding=\"UTF-8\"?>\n<!DOCTYPE plist PUBLIC \"-//Apple//DTD PLIST 1.0//EN\" \"http://www.apple.com/DTDs/PropertyList-1.0.dtd\">\n<plist version=\"1.0\">\n<dict>\n    <key>Label</key>\n    <string>com.clash-tiny.app</string>\n    <key>ProgramArguments</key>\n    <array>\n        <string>"@
            + xml_escaped(exe_path@)
            + "</string>\n    </array>\n    <key>RunAtLoad</key>\n    <true/>\n    <key>KeepAlive</key>\n    <false/>\n</dict>\n</plist>\n"@,
{
    String::from_str(
        "<?xml version=\"1.0\" encoding=\"UTF-8\"?>\n<!DOCTYPE plist PUBLIC \"-//Apple//DTD PLIST 1.0//EN\" \"http://www.apple.com/DTDs/PropertyList-1.0.dtd\">\n<plist version=\"1.0\">\n<dict>\n    <key>Label</key>\n    <string>com.clash-tiny.app</string>\n    <key>ProgramArguments</key>\n    <array>\n        <string>",
    ).concat(xml_escape(exe_path).as_str()).concat(
        "</string>\n    </array>\n    <key>RunAtLoad</key>\n    <true/>\n    <key>KeepAlive</key>\n    <false/>\n</dict>\n</plist>\n",
    )
}


/// The core version line of the about dialog: the reported version made safe,
/// or "未运行" when the core did not answer.
pub open spec fn about_core_version(core_version: Option<Seq<char>>) -> Seq<char> {
    match core_version {
        Some(v) => version_text(v),
        None => version_text("未运行"@),
    }
}

/// The JavaScript for Automation text of the about dialog.
pub fn about_script(app_version: &str, core_version: Option<String>) -> (r: String)
    ensures
        r@ == "ObjC.import('Cocoa');\n\nvar app = $.NSApplication.sharedApplication;\napp.setActivationPolicy($.NSApplicationActivationPolicyAccessory);\n\nvar alert = $.NSAlert.alloc.init;\nalert.messageText = $(\"Clash Tiny\");\nalert.informativeText = $(\"版本  "@
            + app_version@ + "\\n内核  "@ + about_core_version(
            match core_version {
                Some(v) => Some(v@),
                None => None,
            },
        )
            + "\");\nalert.addButtonWithTitle($(\"好\"));\nalert.addButtonWithTitle($(\"访问 GitHub\"));\nalert.window.level = $.NSFloatingWindowLevel;\n\napp.activateIgnoringOtherApps(true);\nvar response = alert.runModal;\nresponse == 1001 ? \"github\" : \"ok\";"@,
{
    let version = match core_version {
        Some(v) => sanitize_version_text(v.as_str()),
        None => sanitize_version_text("未运行"),
    };
    String::from_str(
        "ObjC.import('Cocoa');\n\nvar app = $.NSApplication.sharedApplication;\napp.setActivationPolicy($.NSApplicationActivationPolicyAccessory);\n\nvar alert = $.NSAlert.alloc.init;\nalert.messageText = $(\"Clash Tiny\");\nalert.informativeText = $(\"版本  ",
    ).concat(app_version).concat("\\n内核  ").concat(version.as_str()).concat(
        "\");\nalert.addButtonWithTitle($(\"好\"));\nalert.addButtonWithTitle($(\"访问 GitHub\"));\nalert.window.level = $.NSFloatingWindowLevel;\n\napp.activateIgnoringOtherApps(true);\nvar response = alert.runModal;\nresponse == 1001 ? \"github\" : \"ok\";",
    )
}

} // verus!
