use vstd::prelude::*;
use crate::text::{
    char_len, trim, trim_spec, split_char, split_spec, starts_with, starts_with_spec, lines, lines_spec,
};
use crate::escape::{sanitize_filename, sanitized_name, law_sanitized_name_chars};
use crate::text::unicode_alphanumeric;
use crate::yaml::Yaml;
use crate::merge::{has_proxies, declares_proxies};

verus! {

/// What the user entered in the add-subscription dialog.
pub struct SubscriptionInput {
    pub url: String,
    pub name: String,
    pub overwrite: bool,
}

/// The separator between the dialog's fields (the ASCII unit separator).
pub open spec fn field_separator() -> char {
    '\u{1f}'
}

/// Whether a URL is a web address the application downloads from.
pub open spec fn is_web_url(url: Seq<char>) -> bool {
    starts_with_spec(url, "http://"@) || starts_with_spec(url, "https://"@)
}

/// The input that the dialog's output denotes, as (URL, file-safe name, overwrite),
/// or nothing when the user cancelled or entered something unusable.
pub open spec fn subscription_input_of(output: Seq<char>) -> Option<(Seq<char>, Seq<char>, bool)> {
    let out = trim_spec(output);
    if out.len() == 0 || out == "undefined"@ {
        None
    } else {
        let parts = split_spec(out, field_separator());
        if parts.len() != 3 {
            None
        } else {
            let url = trim_spec(parts[0]);
            let name = sanitized_name(trim_spec(parts[1]));
            let overwrite = trim_spec(parts[2]) == "1"@;
            if url.len() == 0 || !is_web_url(url) || name.len() == 0 {
                None
            } else {
                Some((url, name, overwrite))
            }
        }
    }
}

/// The last line that is not blank.
pub open spec fn last_nonblank(ls: Seq<Seq<char>>) -> Option<Seq<char>>
    decreases ls.len(),
{
    if ls.len() == 0 {
        None
    } else if trim_spec(ls.last()).len() > 0 {
        Some(ls.last())
    } else {
        last_nonblank(ls.drop_last())
    }
}

/// The one-line reason that the core's configuration test gives: the last
/// non-blank line of its error output, or of its normal output when the error
/// output is empty.
pub open spec fn validation_summary_spec(stderr: Seq<char>, stdout: Seq<char>) -> Seq<char> {
    let combined = if stderr.len() > 0 { stderr } else { stdout };
    match last_nonblank(lines_spec(combined)) {
        Some(l) => l,
        None => "未知错误"@,
    }
}

fn text_eq(a: &str, b: &str) -> (r: bool)
    ensures
        r == (a@ == b@),
{
    String::from_str(a).eq(&String::from_str(b))
}

/// Read the add-subscription dialog's output.
pub fn parse_subscription_input(output: &str) -> (r: Option<SubscriptionInput>)
    ensures
        match r {
            Some(i) => subscription_input_of(output@) == Some((i.url@, i.name@, i.overwrite)),
            None => subscription_input_of(output@) is None,
        },
{
    let out = trim(output);
    if char_len(out.as_str()) == 0 || text_eq(out.as_str(), "undefined") {
        return None;
    }
    let parts = split_char(out.as_str(), '\u{1f}');
    if parts.len() != 3 {
        return None;
    }
    let url = trim(parts[0].as_str());
    let name_raw = trim(parts[1].as_str());
    let name = sanitize_filename(name_raw.as_str());
    let flag = trim(parts[2].as_str());
    let overwrite = text_eq(flag.as_str(), "1");
    if char_len(url.as_str()) == 0 || (!starts_with(url.as_str(), "http://") && !starts_with(
        url.as_str(),
        "https://",
    )) || char_len(name.as_str()) == 0 {
        return None;
    }
    Some(SubscriptionInput { url, name, overwrite })
}

/// Whether a new profile may be written: refused when one of that name exists and
/// overwriting was not asked for.
pub fn check_profile_slot(name: &str, overwrite: bool, exists: bool) -> (r: Result<(), String>)
    ensures
        match r {
            Ok(()) => overwrite || !exists,
            Err(e) => !overwrite && exists && e@ == "订阅「"@ + name@ + "」已存在，请勾选覆盖选项或使用其他名称"@,
        },
{
    if !overwrite && exists {
        return Err(
            String::from_str("订阅「").concat(name).concat("」已存在，请勾选覆盖选项或使用其他名称"),
        );
    }
    Ok(())
}

/// Whether a profile can be activated: refused when its file does not exist.
pub fn check_profile_exists(name: &str, exists: bool) -> (r: Result<(), String>)
    ensures
        match r {
            Ok(()) => exists,
            Err(e) => !exists && e@ == "订阅「"@ + name@ + "」不存在"@,
        },
{
    if !exists {
        return Err(String::from_str("订阅「").concat(name).concat("」不存在"));
    }
    Ok(())
}

/// Whether a downloaded document is a Clash configuration: it must name
/// `proxies` or `proxy-groups`.
pub fn check_downloaded_config(doc: &Yaml) -> (r: Result<(), String>)
    ensures
        match r {
            Ok(()) => declares_proxies(doc@),
            Err(e) => !declares_proxies(doc@) && e@
                == "下载内容不是有效的 Clash 配置（缺少 proxies / proxy-groups）"@,
        },
{
    if has_proxies(doc) {
        Ok(())
    } else {
        Err(String::from_str("下载内容不是有效的 Clash 配置（缺少 proxies / proxy-groups）"))
    }
}

/// The one-line reason that the core's configuration test gives.
pub fn validation_summary(stderr: &str, stdout: &str) -> (r: String)
    ensures
        r@ == validation_summary_spec(stderr@, stdout@),
{
    let combined = if char_len(stderr) > 0 { stderr } else { stdout };
    let ls = lines(combined);
    let ghost lv = lines_spec(combined@);
    let n = ls.len();
    let mut j: usize = n;
    proof {
        assert(lv.take(n as int) =~= lv);
    }
    while j > 0
        invariant
            n == ls@.len(),
            n == lv.len(),
            lv == lines_spec(combined@),
            combined@ == (if stderr@.len() > 0 { stderr@ } else { stdout@ }),
            forall|k: int| 0 <= k < n ==> #[trigger] ls@[k]@ == lv[k],
            j <= n,
            last_nonblank(lv) == last_nonblank(lv.take(j as int)),
        decreases j,
    {
        proof {
            assert(lv.take(j as int).drop_last() =~= lv.take(j - 1));
            assert(lv.take(j as int).last() == lv[j - 1]);
        }
        let t = trim(ls[j - 1].as_str());
        if char_len(t.as_str()) > 0 {
            let r = ls[j - 1].clone();
            return r;
        }
        j = j - 1;
    }
    String::from_str("未知错误")
}

/// What follows the core's test of a newly merged subscription.
pub enum SaveFinish {
    /// The test passed: the merged file becomes `config.yaml`, then the merged
    /// file and the backup are removed.
    Install,
    /// The test failed: the merged file is removed, the profile is put back as it
    /// was (its backup restored when there was one, else the new file removed), and
    /// `error` is reported.
    RollBack { restore_backup: bool, error: String },
}

/// Decide how a subscription save ends, given whether a profile of that name
/// existed before and what the core's test of the merged file said.
pub fn finish_save(had_existing: bool, validation: Result<(), String>) -> (r: SaveFinish)
    ensures
        match validation {
            Ok(()) => r is Install,
            Err(e) => r matches SaveFinish::RollBack { restore_backup, error } && restore_backup
                == had_existing && error@ == "配置验证失败: "@ + e@,
        },
{
    match validation {
        Ok(()) => SaveFinish::Install,
        Err(e) => SaveFinish::RollBack {
            restore_backup: had_existing,
            error: String::from_str("配置验证失败: ").concat(e.as_str()),
        },
    }
}

/// Law: an accepted subscription input has a web URL and a non-empty name made
/// only of alphanumeric characters, `-`, `_` and `.`.
pub proof fn law_subscription_input_safe(output: Seq<char>)
    ensures
        subscription_input_of(output) matches Some((url, name, _)) ==> {
            &&& is_web_url(url)
            &&& name.len() > 0
            &&& forall|i: int|
                0 <= i < name.len() ==> {
                    let c = #[trigger] name[i];
                    unicode_alphanumeric(c) || c == '-' || c == '_' || c == '.'
                }
        },
{
    let out = trim_spec(output);
    let parts = split_spec(out, field_separator());
    if parts.len() == 3 {
        law_sanitized_name_chars(trim_spec(parts[1]));
    }
}

/// Law: an accepted subscription input is made of the dialog's three fields as
/// they were entered: the URL is the first field, trimmed and otherwise whole;
/// the name is the second field, trimmed and sanitized; overwriting is asked for
/// exactly when the third field is `1`.
pub proof fn law_subscription_fields(output: Seq<char>)
    ensures
        subscription_input_of(output) matches Some((url, name, overwrite)) ==> {
            let parts = split_spec(trim_spec(output), '\u{1f}');
            &&& parts.len() == 3
            &&& url == trim_spec(parts[0])
            &&& name == sanitized_name(trim_spec(parts[1]))
            &&& overwrite == (trim_spec(parts[2]) == "1"@)
        },
{
}

} // verus!
