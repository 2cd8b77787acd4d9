use vstd::prelude::*;
use crate::state::{AppState, ProxyMode};
use crate::text::{char_len, starts_with, starts_with_spec};

verus! {

/// What a click on a tray menu item asks for.
pub enum MenuAction {
    OpenRuntimeConfig,
    AddSubscription,
    /// Switch to the profile with this name.
    SwitchProfile(String),
    SetMode(ProxyMode),
    OpenDashboard,
    ToggleAutoStart,
    OpenConfigDir,
    Uninstall,
    About,
    Quit,
    /// An item that does nothing.
    Ignore,
}

/// The mathematical value of a `MenuAction`.
pub enum MenuActionV {
    OpenRuntimeConfig,
    AddSubscription,
    SwitchProfile(Seq<char>),
    SetMode(ProxyMode),
    OpenDashboard,
    ToggleAutoStart,
    OpenConfigDir,
    Uninstall,
    About,
    Quit,
    Ignore,
}

impl MenuAction {
    pub open spec fn view(&self) -> MenuActionV {
        match self {
            MenuAction::OpenRuntimeConfig => MenuActionV::OpenRuntimeConfig,
            MenuAction::AddSubscription => MenuActionV::AddSubscription,
            MenuAction::SwitchProfile(s) => MenuActionV::SwitchProfile(s@),
            MenuAction::SetMode(m) => MenuActionV::SetMode(*m),
            MenuAction::OpenDashboard => MenuActionV::OpenDashboard,
            MenuAction::ToggleAutoStart => MenuActionV::ToggleAutoStart,
            MenuAction::OpenConfigDir => MenuActionV::OpenConfigDir,
            MenuAction::Uninstall => MenuActionV::Uninstall,
            MenuAction::About => MenuActionV::About,
            MenuAction::Quit => MenuActionV::Quit,
            MenuAction::Ignore => MenuActionV::Ignore,
        }
    }
}

/// The prefix of the ids of profile items.
pub open spec fn profile_prefix() -> Seq<char> {
    "profile_"@
}

/// The action of the menu item with id `id`.
pub open spec fn action_of(id: Seq<char>) -> MenuActionV {
    if id == "open_runtime_config"@ {
        MenuActionV::OpenRuntimeConfig
    } else if id == "add_subscription"@ {
        MenuActionV::AddSubscription
    } else if starts_with_spec(id, profile_prefix()) {
        MenuActionV::SwitchProfile(id.subrange(profile_prefix().len() as int, id.len() as int))
    } else if id == "mode_system_proxy"@ {
        MenuActionV::SetMode(ProxyMode::SystemProxy)
    } else if id == "mode_tun"@ {
        MenuActionV::SetMode(ProxyMode::Tun)
    } else if id == "mode_none"@ {
        MenuActionV::SetMode(ProxyMode::Off)
    } else if id == "open_dashboard"@ {
        MenuActionV::OpenDashboard
    } else if id == "auto_start"@ {
        MenuActionV::ToggleAutoStart
    } else if id == "open_config_dir"@ {
        MenuActionV::OpenConfigDir
    } else if id == "uninstall"@ {
        MenuActionV::Uninstall
    } else if id == "about"@ {
        MenuActionV::About
    } else if id == "quit"@ {
        MenuActionV::Quit
    } else {
        MenuActionV::Ignore
    }
}

/// The id of the menu item that selects a proxy mode.
pub open spec fn mode_item_id_spec(mode: ProxyMode) -> Seq<char> {
    match mode {
        ProxyMode::SystemProxy => "mode_system_proxy"@,
        ProxyMode::Tun => "mode_tun"@,
        ProxyMode::Off => "mode_none"@,
    }
}

/// Which icon the tray shows.
#[derive(PartialEq, Eq, Structural, Clone, Copy, Debug)]
pub enum TrayIcon {
    /// The core is failing.
    Error,
    Off,
    SystemProxy,
    Tun,
}

/// One profile entry of the subscriptions submenu.
pub struct ProfileItem {
    pub id: String,
    pub label: String,
    /// Whether it is the active profile.
    pub checked: bool,
}

fn text_eq(a: &str, b: &str) -> (r: bool)
    ensures
        r == (a@ == b@),
{
    String::from_str(a).eq(&String::from_str(b))
}

/// The action of the menu item with id `id`.
pub fn menu_action(id: &str) -> (r: MenuAction)
    ensures
        r@ == action_of(id@),
{
    if text_eq(id, "open_runtime_config") {
        MenuAction::OpenRuntimeConfig
    } else if text_eq(id, "add_subscription") {
        MenuAction::AddSubscription
    } else if starts_with(id, "profile_") {
        proof {
            reveal_strlit("profile_");
        }
        let n = char_len(id);
        MenuAction::SwitchProfile(String::from_str(id.substring_char(8, n)))
    } else if text_eq(id, "mode_system_proxy") {
        MenuAction::SetMode(ProxyMode::SystemProxy)
    } else if text_eq(id, "mode_tun") {
        MenuAction::SetMode(ProxyMode::Tun)
    } else if text_eq(id, "mode_none") {
        MenuAction::SetMode(ProxyMode::Off)
    } else if text_eq(id, "open_dashboard") {
        MenuAction::OpenDashboard
    } else if text_eq(id, "auto_start") {
        MenuAction::ToggleAutoStart
    } else if text_eq(id, "open_config_dir") {
        MenuAction::OpenConfigDir
    } else if text_eq(id, "uninstall") {
        MenuAction::Uninstall
    } else if text_eq(id, "about") {
        MenuAction::About
    } else if text_eq(id, "quit") {
        MenuAction::Quit
    } else {
        MenuAction::Ignore
    }
}

/// The id of the menu item of a profile: `profile_<stem>`.
pub fn profile_item_id(stem: &str) -> (r: String)
    ensures
        r@ == profile_prefix() + stem@,
{
    String::from_str("profile_").concat(stem)
}

/// The id of the menu item that selects a proxy mode.
pub fn mode_item_id(mode: ProxyMode) -> (r: &'static str)
    ensures
        r@ == mode_item_id_spec(mode),
{
    match mode {
        ProxyMode::SystemProxy => "mode_system_proxy",
        ProxyMode::Tun => "mode_tun",
        ProxyMode::Off => "mode_none",
    }
}

/// The profile entries of the subscriptions submenu: one per profile, in order,
/// checked when it is the active profile.
pub fn profile_items(profiles: &Vec<(String, String)>, active: &Option<String>) -> (r: Vec<ProfileItem>)
    ensures
        r@.len() == profiles@.len(),
        forall|i: int|
            0 <= i < r@.len() ==> {
                &&& (#[trigger] r@[i]).id@ == profile_prefix() + profiles@[i].0@
                &&& r@[i].label@ == profiles@[i].1@
                &&& r@[i].checked == (active is Some && active->Some_0@ == profiles@[i].0@)
            },
{
    let mut out: Vec<ProfileItem> = Vec::new();
    let n = profiles.len();
    let mut i: usize = 0;
    while i < n
        invariant
            n == profiles@.len(),
            i <= n,
            out@.len() == i,
            forall|k: int|
                0 <= k < i ==> {
                    &&& (#[trigger] out@[k]).id@ == profile_prefix() + profiles@[k].0@
                    &&& out@[k].label@ == profiles@[k].1@
                    &&& out@[k].checked == (active is Some && active->Some_0@ == profiles@[k].0@)
                },
        decreases n - i,
    {
        let stem = &profiles[i].0;
        let checked = match active {
            Some(a) => a.eq(stem),
            None => false,
        };
        out.push(ProfileItem { id: profile_item_id(stem.as_str()), label: profiles[i].1.clone(), checked });
        i = i + 1;
    }
    out
}

/// What the tray menu shows, apart from its fixed items.
pub struct MenuModel {
    /// The profile items of the subscriptions submenu; when there are none, a
    /// disabled placeholder stands there instead.
    pub profiles: Vec<ProfileItem>,
    /// Whether the system proxy item is checked.
    pub mode_system_checked: bool,
    /// Whether the transparent proxy item is checked.
    pub mode_tun_checked: bool,
    /// Whether the "off" item is checked.
    pub mode_off_checked: bool,
    /// Whether the start-at-login item is checked.
    pub auto_start_checked: bool,
    /// Whether the global override item can be clicked.
    pub global_override_enabled: bool,
}

/// Exactly one of three flags is set.
pub open spec fn exactly_one(a: bool, b: bool, c: bool) -> bool {
    (a && !b && !c) || (!a && b && !c) || (!a && !b && c)
}

/// The tray menu for the saved state and the profile list (stem, label).
pub fn menu_model(state: &AppState, profiles: &Vec<(String, String)>) -> (r: MenuModel)
    ensures
        r.mode_system_checked == (state.proxy_mode == ProxyMode::SystemProxy),
        r.mode_tun_checked == (state.proxy_mode == ProxyMode::Tun),
        r.mode_off_checked == (state.proxy_mode == ProxyMode::Off),
        exactly_one(r.mode_system_checked, r.mode_tun_checked, r.mode_off_checked),
        r.auto_start_checked == state.auto_start,
        !r.global_override_enabled,
        r.profiles@.len() == profiles@.len(),
        forall|i: int|
            0 <= i < r.profiles@.len() ==> {
                &&& (#[trigger] r.profiles@[i]).id@ == profile_prefix() + profiles@[i].0@
                &&& r.profiles@[i].label@ == profiles@[i].1@
                &&& r.profiles@[i].checked == (state.active_profile is Some
                    && state.active_profile->Some_0@ == profiles@[i].0@)
            },
{
    MenuModel {
        profiles: profile_items(profiles, &state.active_profile),
        mode_system_checked: state.proxy_mode == ProxyMode::SystemProxy,
        mode_tun_checked: state.proxy_mode == ProxyMode::Tun,
        mode_off_checked: state.proxy_mode == ProxyMode::Off,
        auto_start_checked: state.auto_start,
        global_override_enabled: false,
    }
}

/// The tray icon for a proxy mode and the error flag.
pub fn tray_icon(mode: ProxyMode, is_error: bool) -> (r: TrayIcon)
    ensures
        r == (if is_error {
            TrayIcon::Error
        } else {
            match mode {
                ProxyMode::Off => TrayIcon::Off,
                ProxyMode::SystemProxy => TrayIcon::SystemProxy,
                ProxyMode::Tun => TrayIcon::Tun,
            }
        }),
{
    if is_error {
        TrayIcon::Error
    } else {
        match mode {
            ProxyMode::Off => TrayIcon::Off,
            ProxyMode::SystemProxy => TrayIcon::SystemProxy,
            ProxyMode::Tun => TrayIcon::Tun,
        }
    }
}

/// Law of the menu: the item of a profile routes back to that profile.
pub proof fn law_profile_item_routes_back(stem: Seq<char>)
    ensures
        action_of(profile_prefix() + stem) == MenuActionV::SwitchProfile(stem),
{
    reveal_strlit("profile_");
    reveal_strlit("open_runtime_config");
    reveal_strlit("add_subscription");
    let id = profile_prefix() + stem;
    assert(id[0] == 'p');
    assert(id.subrange(0, 8) =~= profile_prefix());
    assert(id.subrange(8, id.len() as int) =~= stem);
    assert(id != "open_runtime_config"@) by {
        assert("open_runtime_config"@[0] == 'o');
    }
    assert(id != "add_subscription"@) by {
        assert("add_subscription"@[0] == 'a');
    }
}

/// Law of the menu: the item of a proxy mode routes back to that mode.
pub proof fn law_mode_item_routes_back(mode: ProxyMode)
    ensures
        action_of(mode_item_id_spec(mode)) == MenuActionV::SetMode(mode),
{
    reveal_strlit("profile_");
    reveal_strlit("open_runtime_config");
    reveal_strlit("add_subscription");
    reveal_strlit("mode_system_proxy");
    reveal_strlit("mode_tun");
    reveal_strlit("mode_none");
    let id = mode_item_id_spec(mode);
    assert(id[0] == 'm');
    assert(!starts_with_spec(id, profile_prefix())) by {
        if starts_with_spec(id, profile_prefix()) {
            assert(id.subrange(0, 8)[0] == profile_prefix()[0]);
        }
    }
    assert(id != "open_runtime_config"@) by {
        assert("open_runtime_config"@[0] == 'o');
    }
    assert(id != "add_subscription"@) by {
        assert("add_subscription"@[0] == 'a');
    }
    if mode == ProxyMode::Tun {
        assert(id != "mode_system_proxy"@) by {
            assert(id.len() != "mode_system_proxy"@.len());
        }
    }
    if mode == ProxyMode::Off {
        assert(id != "mode_system_proxy"@) by {
            assert(id.len() != "mode_system_proxy"@.len());
        }
        assert(id != "mode_tun"@) by {
            assert(id.len() != "mode_tun"@.len());
        }
    }
}

} // verus!
