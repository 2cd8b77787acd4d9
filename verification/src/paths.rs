use vstd::prelude::*;
use vstd::string::StrSliceExecFns;
use crate::text::char_len;

verus! {

/// `base` joined with `comp` as `PathBuf::join` does on Unix: an absolute `comp`
/// replaces `base`; otherwise a `/` separates them unless `base` is empty or
/// already ends with one.
pub open spec fn join_path(base: Seq<char>, comp: Seq<char>) -> Seq<char> {
    if comp.len() > 0 && comp[0] == '/' {
        comp
    } else if base.len() == 0 || base.last() == '/' {
        base + comp
    } else {
        base + seq!['/'] + comp
    }
}

/// The configuration directory under a home directory: `~/.config/clash-tiny`.
pub open spec fn config_dir_path(home: Seq<char>) -> Seq<char> {
    join_path(join_path(home, ".config"@), "clash-tiny"@)
}

/// The directory of the login items under a home directory.
pub open spec fn plist_dir_path(home: Seq<char>) -> Seq<char> {
    join_path(join_path(home, "Library"@), "LaunchAgents"@)
}

/// The login item of the application under a home directory.
pub open spec fn plist_path_of(home: Seq<char>) -> Seq<char> {
    join_path(plist_dir_path(home), "com.clash-tiny.app.plist"@)
}

/// `dirs::home_dir`, as text. Its source takes `HOME` when set and non-empty,
/// else the user database entry, and never hands back an empty path; that is
/// all that is claimed. Which directory comes back depends on the environment
/// and is left unsaid.
#[verifier::external_body]
fn home_dir() -> (r: Option<String>)
    ensures
        r matches Some(h) ==> h@.len() > 0,
{
    dirs::home_dir().map(|p| p.to_string_lossy().to_string())
}

/// Join two path pieces (`PathBuf::join`).
pub fn join(base: &str, comp: &str) -> (r: String)
    ensures
        r@ == join_path(base@, comp@),
{
    let m = char_len(comp);
    if m > 0 && comp.get_char(0) == '/' {
        return String::from_str(comp);
    }
    let n = char_len(base);
    let mut s = String::from_str(base);
    if n > 0 && base.get_char(n - 1) != '/' {
        s.append("/");
        proof {
            reveal_strlit("/");
        }
    }
    s.append(comp);
    s
}

/// The configuration directory under a given home directory.
pub fn config_dir_in(home: &str) -> (r: String)
    ensures
        r@ == config_dir_path(home@),
{
    let a = join(home, ".config");
    join(a.as_str(), "clash-tiny")
}

/// The configuration directory of the user, when the home directory is known.
pub fn config_dir() -> (r: Option<String>)
    ensures
        r matches Some(d) ==> exists|h: Seq<char>| h.len() > 0 && d@ == config_dir_path(h),
{
    match home_dir() {
        Some(h) => Some(config_dir_in(h.as_str())),
        None => None,
    }
}

/// The running configuration `config.yaml` in a configuration directory.
pub fn config_file(config_dir: &str) -> (r: String)
    ensures
        r@ == join_path(config_dir@, "config.yaml"@),
{
    join(config_dir, "config.yaml")
}

/// The override file `override.yaml` in a configuration directory.
pub fn override_file(config_dir: &str) -> (r: String)
    ensures
        r@ == join_path(config_dir@, "override.yaml"@),
{
    join(config_dir, "override.yaml")
}

/// The profiles directory in a configuration directory.
pub fn profiles_dir(config_dir: &str) -> (r: String)
    ensures
        r@ == join_path(config_dir@, "profiles"@),
{
    join(config_dir, "profiles")
}

/// The saved state `state.json` in a configuration directory.
pub fn state_file(config_dir: &str) -> (r: String)
    ensures
        r@ == join_path(config_dir@, "state.json"@),
{
    join(config_dir, "state.json")
}

/// The login item path under a given home directory.
pub fn plist_path_in(home: &str) -> (r: String)
    ensures
        r@ == plist_path_of(home@),
{
    let a = join(home, "Library");
    let b = join(a.as_str(), "LaunchAgents");
    join(b.as_str(), "com.clash-tiny.app.plist")
}

/// The login item path of the user; an error when the home directory is unknown.
pub fn plist_path() -> (r: Result<String, String>)
    ensures
        r matches Ok(p) ==> exists|h: Seq<char>| h.len() > 0 && p@ == plist_path_of(h),
        r matches Err(e) ==> e@ == "无法获取 HOME 目录"@,
{
    match home_dir() {
        Some(h) => Ok(plist_path_in(h.as_str())),
        None => Err(String::from_str("无法获取 HOME 目录")),
    }
}

/// File name of a profile: `<name>.yaml`.
pub open spec fn profile_file_name(name: Seq<char>) -> Seq<char> {
    name + ".yaml"@
}

/// File name of the merged configuration under test: `_<name>.yaml`.
pub open spec fn temp_file_name(name: Seq<char>) -> Seq<char> {
    "_"@ + name + ".yaml"@
}

/// File name of the backup of a replaced profile: `_<name>_bak.yaml`.
pub open spec fn backup_file_name(name: Seq<char>) -> Seq<char> {
    "_"@ + name + "_bak.yaml"@
}

/// Where the profile `name` is stored.
pub fn profile_path(profiles_dir: &str, name: &str) -> (r: String)
    ensures
        r@ == join_path(profiles_dir@, profile_file_name(name@)),
{
    let f = String::from_str(name).concat(".yaml");
    join(profiles_dir, f.as_str())
}

/// Where the merged configuration of the profile `name` is tested.
pub fn temp_profile_path(profiles_dir: &str, name: &str) -> (r: String)
    ensures
        r@ == join_path(profiles_dir@, temp_file_name(name@)),
{
    let f = String::from_str("_").concat(name).concat(".yaml");
    join(profiles_dir, f.as_str())
}

/// Where the previous version of the profile `name` is kept while a new one is tested.
pub fn backup_profile_path(profiles_dir: &str, name: &str) -> (r: String)
    ensures
        r@ == join_path(profiles_dir@, backup_file_name(name@)),
{
    let f = String::from_str("_").concat(name).concat("_bak.yaml");
    join(profiles_dir, f.as_str())
}

/// The file name of the bundled core for a CPU architecture: `mihomo-<arch>-apple-darwin`.
pub fn sidecar_name(arch: &str) -> (r: String)
    ensures
        r@ == "mihomo-"@ + arch@ + "-apple-darwin"@,
{
    String::from_str("mihomo-").concat(arch).concat("-apple-darwin")
}

} // verus!
