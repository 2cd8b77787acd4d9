use vstd::prelude::*;
use crate::state::ProxyMode;
use crate::helper::HelperResponse;

verus! {

/// The first step of a request to change the proxy mode.
#[derive(PartialEq, Eq, Structural, Clone, Copy, Debug)]
pub enum SwitchStart {
    /// Another switch is running: ignore the request and redraw the tray.
    Busy,
    /// The requested mode is already on: nothing changes, redraw the tray.
    AlreadyActive,
    /// Tear the current mode down and save "off".
    TurnOff,
    /// Turn the system proxy on; on success tear the old mode down and save it.
    EnableSystemProxy,
    /// Set the transparent proxy up in the background; on success tear the old
    /// mode down and save it.
    SetUpTun,
}

/// What leaving a mode takes.
#[derive(PartialEq, Eq, Structural, Clone, Copy, Debug)]
pub enum Teardown {
    /// Turn the system proxy off.
    DisableSystemProxy,
    /// Stop the core run by the helper, clear `tun.enable`, start the core as a child again.
    StopTunAndRestartSidecar,
    Nothing,
}

/// What quitting the application takes, before the child core is stopped.
#[derive(PartialEq, Eq, Structural, Clone, Copy, Debug)]
pub enum QuitCleanup {
    DisableSystemProxy,
    /// Stop the core run by the helper and clear `tun.enable`.
    StopTun,
    Nothing,
}

/// How the saved mode is brought back at startup.
#[derive(PartialEq, Eq, Structural, Clone, Copy, Debug)]
pub enum StartupRestore {
    /// Turn the system proxy on again.
    EnableSystemProxy,
    /// Stop the child core, set `tun.enable`, start the core through the helper.
    StartViaHelper,
    /// The helper is not available: switch to "off" and save that.
    FallBackToOff,
    Nothing,
}

/// The first step of a request to switch from `current` to `requested`.
pub fn begin_mode_switch(switching: bool, current: ProxyMode, requested: ProxyMode) -> (r: SwitchStart)
    ensures
        r == (if switching {
            SwitchStart::Busy
        } else if current == requested {
            SwitchStart::AlreadyActive
        } else {
            match requested {
                ProxyMode::Off => SwitchStart::TurnOff,
                ProxyMode::SystemProxy => SwitchStart::EnableSystemProxy,
                ProxyMode::Tun => SwitchStart::SetUpTun,
            }
        }),
{
    if switching {
        return SwitchStart::Busy;
    }
    if current == requested {
        return SwitchStart::AlreadyActive;
    }
    match requested {
        ProxyMode::Off => SwitchStart::TurnOff,
        ProxyMode::SystemProxy => SwitchStart::EnableSystemProxy,
        ProxyMode::Tun => SwitchStart::SetUpTun,
    }
}

/// What leaving `mode` takes.
pub open spec fn teardown_for_spec(mode: ProxyMode) -> Teardown {
    match mode {
        ProxyMode::SystemProxy => Teardown::DisableSystemProxy,
        ProxyMode::Tun => Teardown::StopTunAndRestartSidecar,
        ProxyMode::Off => Teardown::Nothing,
    }
}

/// What leaving `mode` takes when another mode replaces it.
pub fn teardown_for(mode: ProxyMode) -> (r: Teardown)
    ensures
        r == teardown_for_spec(mode),
{
    match mode {
        ProxyMode::SystemProxy => Teardown::DisableSystemProxy,
        ProxyMode::Tun => Teardown::StopTunAndRestartSidecar,
        ProxyMode::Off => Teardown::Nothing,
    }
}

/// How a mode switch ends once the new mode's setup has run.
pub enum SwitchFinish {
    /// The setup succeeded: leave the old mode as `teardown` says, then save `save`.
    Apply { teardown: Teardown, save: ProxyMode },
    /// The setup failed: the mode stays as it was and `error` is shown.
    Abort { error: String },
}

/// The message shown when setting `requested` up failed with `e`. Turning the
/// proxy off needs no setup, so only the two other modes are named.
pub open spec fn setup_error_text(requested: ProxyMode, e: Seq<char>) -> Seq<char> {
    match requested {
        ProxyMode::Tun => "开启透明代理失败："@ + e,
        _ => "开启系统代理失败："@ + e,
    }
}

/// How switching from `current` to `requested` ends, given what the setup of
/// `requested` gave (always success for turning the proxy off).
pub fn finish_mode_switch(current: ProxyMode, requested: ProxyMode, setup: Result<(), String>) -> (r: SwitchFinish)
    ensures
        match setup {
            Ok(()) => r == (SwitchFinish::Apply { teardown: teardown_for_spec(current), save: requested }),
            Err(e) => r matches SwitchFinish::Abort { error } && error@ == setup_error_text(requested, e@),
        },
{
    match setup {
        Ok(()) => SwitchFinish::Apply { teardown: teardown_for(current), save: requested },
        Err(e) => {
            let prefix = match requested {
                ProxyMode::Tun => String::from_str("开启透明代理失败："),
                _ => String::from_str("开启系统代理失败："),
            };
            SwitchFinish::Abort { error: prefix.concat(e.as_str()) }
        },
    }
}

/// What the login item toggle leaves: the new auto-start flag to save when the
/// login item was written or removed, else the message to show.
pub fn finish_auto_start_toggle(current: bool, result: Result<(), String>) -> (r: Result<bool, String>)
    ensures
        match result {
            Ok(()) => r == Ok::<bool, String>(!current),
            Err(e) => r matches Err(m) && m@ == "设置开机自启失败："@ + e@,
        },
{
    match result {
        Ok(()) => Ok(!current),
        Err(e) => Err(String::from_str("设置开机自启失败：").concat(e.as_str())),
    }
}

/// How many times the helper is asked whether it runs before the transparent
/// proxy setup gives up.
pub const HELPER_PROBE_ATTEMPTS: u32 = 10;

/// What follows one probe of the helper during the transparent proxy setup.
pub enum ProbeStep {
    /// The helper answers: go on.
    Ready,
    /// Not yet: wait and probe again.
    Retry,
    /// Not after the last probe: wait, then fail with this message.
    GiveUp(String),
}

/// What follows probe number `attempt` (counted from 0) of the helper, given
/// whether it answered.
pub fn helper_probe_step(attempt: u32, running: bool) -> (r: ProbeStep)
    ensures
        running ==> r is Ready,
        !running && attempt + 1 < HELPER_PROBE_ATTEMPTS ==> r is Retry,
        !running && attempt + 1 >= HELPER_PROBE_ATTEMPTS ==> (r matches ProbeStep::GiveUp(e) && e@
            == "Helper 服务未能启动，请检查 /tmp/clash-tiny-helper.log"@),
{
    if running {
        ProbeStep::Ready
    } else if attempt < HELPER_PROBE_ATTEMPTS - 1 {
        ProbeStep::Retry
    } else {
        ProbeStep::GiveUp(String::from_str("Helper 服务未能启动，请检查 /tmp/clash-tiny-helper.log"))
    }
}

/// How the transparent proxy setup ends after asking the helper to start the core.
pub enum TunStart {
    /// The helper started the core.
    Started,
    /// The helper could not be reached: fail with this message, nothing to undo.
    Failed(String),
    /// The helper refused: clear `tun.enable`, start the core as a child again,
    /// and fail with this message.
    RollBack(String),
}

/// How the transparent proxy setup ends, given the helper's reply to the start request.
pub fn tun_start_outcome(reply: &Result<HelperResponse, String>) -> (r: TunStart)
    ensures
        match reply {
            Err(e) => r matches TunStart::Failed(m) && m@ == e@,
            Ok(resp) => if resp.code == 0 {
                r is Started
            } else {
                r matches TunStart::RollBack(m) && m@ == "Helper 启动 Mihomo 失败: "@ + resp.message@
            },
        },
{
    match reply {
        Err(e) => TunStart::Failed(e.clone()),
        Ok(resp) => if resp.code == 0 {
            TunStart::Started
        } else {
            TunStart::RollBack(String::from_str("Helper 启动 Mihomo 失败: ").concat(resp.message.as_str()))
        },
    }
}

/// What quitting in `mode` takes.
pub fn quit_cleanup(mode: ProxyMode) -> (r: QuitCleanup)
    ensures
        r == match mode {
            ProxyMode::SystemProxy => QuitCleanup::DisableSystemProxy,
            ProxyMode::Tun => QuitCleanup::StopTun,
            ProxyMode::Off => QuitCleanup::Nothing,
        },
{
    match mode {
        ProxyMode::SystemProxy => QuitCleanup::DisableSystemProxy,
        ProxyMode::Tun => QuitCleanup::StopTun,
        ProxyMode::Off => QuitCleanup::Nothing,
    }
}

/// How the saved mode is brought back at startup, given whether the helper is
/// installed and answering.
pub fn startup_restore(mode: ProxyMode, helper_installed: bool, helper_running: bool) -> (r: StartupRestore)
    ensures
        r == match mode {
            ProxyMode::SystemProxy => StartupRestore::EnableSystemProxy,
            ProxyMode::Tun => if helper_installed && helper_running {
                StartupRestore::StartViaHelper
            } else {
                StartupRestore::FallBackToOff
            },
            ProxyMode::Off => StartupRestore::Nothing,
        },
{
    match mode {
        ProxyMode::SystemProxy => StartupRestore::EnableSystemProxy,
        ProxyMode::Tun => if helper_installed && helper_running {
            StartupRestore::StartViaHelper
        } else {
            StartupRestore::FallBackToOff
        },
        ProxyMode::Off => StartupRestore::Nothing,
    }
}

/// The saved auto-start flag after comparing it with whether the login item
/// exists, and whether it changed (and must be saved): the login item wins.
pub fn sync_auto_start(saved: bool, login_item_exists: bool) -> (r: (bool, bool))
    ensures
        r.0 == login_item_exists,
        r.1 == (saved != login_item_exists),
{
    (login_item_exists, saved != login_item_exists)
}

} // verus!
