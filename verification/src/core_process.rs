use vstd::prelude::*;

verus! {

/// What a query of the core's child process found.
#[derive(PartialEq, Eq, Structural, Clone, Copy, Debug)]
pub enum ChildCheck {
    /// No child process is held.
    NoChild,
    /// The child has exited.
    Exited,
    /// The child is still running.
    Running,
    /// Its state could not be queried.
    Unknown,
}

/// What starting the core as a child process does.
#[derive(PartialEq, Eq, Structural, Clone, Copy, Debug)]
pub enum StartDecision {
    /// It is running already: nothing to do.
    AlreadyRunning,
    /// Spawn it; `forget_old` says whether a dead child must be dropped first.
    Spawn { forget_old: bool },
}

/// How the running configuration is applied.
#[derive(PartialEq, Eq, Structural, Clone, Copy, Debug)]
pub enum ReloadPlan {
    /// No core runs as a child outside transparent proxy mode: start one.
    StartSidecar,
    /// Ask the running core to reload its configuration over its API.
    HotReload,
}

/// Whether an HTTP status code means success (2xx).
pub open spec fn status_is_success(code: u16) -> bool {
    200 <= code < 300
}

/// Whether an HTTP status code means success (`StatusCode::is_success`).
pub fn http_success(code: u16) -> (r: bool)
    ensures
        r == status_is_success(code),
{
    200 <= code && code < 300
}

/// Whether the core's API answered a version query with success; `status` is
/// the HTTP status, when a response came.
pub fn is_api_healthy(status: Option<u16>) -> (r: bool)
    ensures
        r == (status is Some && status_is_success(status->Some_0)),
{
    match status {
        Some(code) => http_success(code),
        None => false,
    }
}

/// The core version to show, from the fields of its version reply: `meta` is
/// `None` when the reply has no `meta` field and `Some(b)` otherwise, `b` being
/// its value when it is a boolean; `version` likewise for the `version` field
/// when it is a string.
pub open spec fn version_label(meta: Option<Option<bool>>, version: Option<Option<Seq<char>>>) -> Option<
    Seq<char>,
> {
    match (meta, version) {
        (Some(m), Some(Some(v))) => if m == Some(true) {
            Some("Mihomo Meta "@ + v)
        } else {
            Some(v)
        },
        _ => None,
    }
}

/// The core version to show, from the fields of its version reply.
pub fn describe_version(meta: Option<Option<bool>>, version: Option<Option<String>>) -> (r: Option<String>)
    ensures
        match r {
            Some(s) => version_label(
                meta,
                match version {
                    Some(Some(v)) => Some(Some(v@)),
                    Some(None) => Some(None),
                    None => None,
                },
            ) == Some(s@),
            None => version_label(
                meta,
                match version {
                    Some(Some(v)) => Some(Some(v@)),
                    Some(None) => Some(None),
                    None => None,
                },
            ) is None,
        },
{
    match (meta, version) {
        (Some(m), Some(Some(v))) => {
            let is_meta = match m {
                Some(b) => b,
                None => false,
            };
            if is_meta {
                Some(String::from_str("Mihomo Meta ").concat(v.as_str()))
            } else {
                Some(v)
            }
        },
        _ => None,
    }
}

/// What starting the core does, given the state of the child process held.
pub fn start_decision(check: ChildCheck) -> (r: StartDecision)
    ensures
        r == match check {
            ChildCheck::Running => StartDecision::AlreadyRunning,
            ChildCheck::NoChild => StartDecision::Spawn { forget_old: false },
            _ => StartDecision::Spawn { forget_old: true },
        },
{
    match check {
        ChildCheck::Running => StartDecision::AlreadyRunning,
        ChildCheck::NoChild => StartDecision::Spawn { forget_old: false },
        _ => StartDecision::Spawn { forget_old: true },
    }
}

/// How to apply the running configuration: an error when it does not exist;
/// outside transparent proxy mode, start the core when no child is held.
pub fn reload_plan(config_exists: bool, is_tun: bool, has_child: bool) -> (r: Result<ReloadPlan, String>)
    ensures
        match r {
            Err(e) => !config_exists && e@ == "config.yaml not found"@,
            Ok(p) => config_exists && p == (if !is_tun && !has_child {
                ReloadPlan::StartSidecar
            } else {
                ReloadPlan::HotReload
            }),
        },
{
    if !config_exists {
        return Err(String::from_str("config.yaml not found"));
    }
    if !is_tun && !has_child {
        Ok(ReloadPlan::StartSidecar)
    } else {
        Ok(ReloadPlan::HotReload)
    }
}

/// What a configuration rebuild at startup starts from.
pub enum RebuildSource {
    /// The running configuration exists: leave it.
    Keep,
    /// Merge the active profile with the override.
    Profile(String),
    /// Copy the override file.
    Override,
}

/// Where the running configuration is rebuilt from at startup when it is
/// missing: the active profile when one is set and its file exists, else the
/// override file.
pub fn rebuild_source(config_exists: bool, active_profile: Option<String>, profile_exists: bool) -> (r: RebuildSource)
    ensures
        match r {
            RebuildSource::Keep => config_exists,
            RebuildSource::Profile(p) => !config_exists && profile_exists && active_profile == Some(p),
            RebuildSource::Override => !config_exists && (active_profile is None || !profile_exists),
        },
{
    if config_exists {
        return RebuildSource::Keep;
    }
    match active_profile {
        Some(p) => if profile_exists {
            RebuildSource::Profile(p)
        } else {
            RebuildSource::Override
        },
        None => RebuildSource::Override,
    }
}

/// The text of a rebuilt running configuration: the merged profile when there is
/// one, else the override file's text when it could be read, else the built-in
/// default override.
pub fn rebuilt_config_text(merged: Option<String>, override_text: Option<String>, default_text: &str) -> (r: String)
    ensures
        r@ == match merged {
            Some(m) => m@,
            None => match override_text {
                Some(t) => t@,
                None => default_text@,
            },
        },
{
    match merged {
        Some(m) => m,
        None => match override_text {
            Some(t) => t,
            None => String::from_str(default_text),
        },
    }
}

/// The text of `s` as a JSON string literal, quotes included, as
/// `serde_json::to_string` writes it.
pub uninterp spec fn json_string(s: Seq<char>) -> Seq<char>;

/// `serde_json::to_string` on a string: its result is named `json_string`. The
/// source writes into a `Vec`, which cannot fail, so the error arm never runs.
#[verifier::external_body]
fn json_string_of(s: &str) -> (r: String)
    ensures
        r@ == json_string(s@),
{
    match serde_json::to_string(s) {
        Ok(t) => t,
        Err(_) => String::new(),
    }
}

/// Where the core's API listens.
pub open spec fn api_base() -> Seq<char> {
    "http://127.0.0.1:9090"@
}

/// The `Authorization` header value for the core's API.
pub open spec fn api_authorization() -> Seq<char> {
    "Bearer ClashTiny"@
}

/// A request to the core's API.
pub struct ApiRequest {
    /// `GET` or `PUT`.
    pub method: String,
    pub url: String,
    /// The `Authorization` header.
    pub authorization: String,
    /// The JSON body, when there is one.
    pub body: Option<String>,
}

/// The version query, also used as the health check.
pub fn version_request() -> (r: ApiRequest)
    ensures
        r.method@ == "GET"@,
        r.url@ == api_base() + "/version"@,
        r.authorization@ == api_authorization(),
        r.body is None,
{
    ApiRequest {
        method: String::from_str("GET"),
        url: String::from_str("http://127.0.0.1:9090").concat("/version"),
        authorization: String::from_str("Bearer ClashTiny"),
        body: None,
    }
}

/// The request that makes the core reload the configuration at `config_path`.
pub fn reload_request(config_path: &str) -> (r: ApiRequest)
    ensures
        r.method@ == "PUT"@,
        r.url@ == api_base() + "/configs?force=true"@,
        r.authorization@ == api_authorization(),
        r.body matches Some(b) && b@ == "{\"path\":"@ + json_string(config_path@) + "}"@,
{
    let quoted = json_string_of(config_path);
    ApiRequest {
        method: String::from_str("PUT"),
        url: String::from_str("http://127.0.0.1:9090").concat("/configs?force=true"),
        authorization: String::from_str("Bearer ClashTiny"),
        body: Some(String::from_str("{\"path\":").concat(quoted.as_str()).concat("}")),
    }
}

/// The outcome of a reload from the API's answer: success on a 2xx status,
/// otherwise an error naming the status (`status_text`, as the HTTP library
/// writes it).
pub fn reload_response(code: u16, status_text: &str) -> (r: Result<(), String>)
    ensures
        match r {
            Ok(()) => status_is_success(code),
            Err(e) => !status_is_success(code) && e@ == "Reload returned HTTP "@ + status_text@,
        },
{
    if http_success(code) {
        Ok(())
    } else {
        Err(String::from_str("Reload returned HTTP ").concat(status_text))
    }
}

/// What follows health check number `attempt` (counted from 0) while waiting
/// for the core after it started.
#[derive(PartialEq, Eq, Structural, Clone, Copy, Debug)]
pub enum HealthWait {
    /// It answered: the core is healthy.
    Healthy,
    /// Not yet: wait and check again.
    Retry,
    /// Not after the last check: wait, then report it unhealthy.
    GiveUp,
}

/// What follows health check number `attempt` of at most `max_attempts`.
pub fn health_wait_step(attempt: u32, max_attempts: u32, healthy: bool) -> (r: HealthWait)
    ensures
        r == (if healthy {
            HealthWait::Healthy
        } else if attempt + 1 < max_attempts {
            HealthWait::Retry
        } else {
            HealthWait::GiveUp
        }),
{
    if healthy {
        HealthWait::Healthy
    } else if max_attempts > 0 && attempt < max_attempts - 1 {
        HealthWait::Retry
    } else {
        HealthWait::GiveUp
    }
}

} // verus!
