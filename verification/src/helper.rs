use vstd::prelude::*;
use crate::text::{char_len, split_char, split_spec, starts_with, starts_with_spec};
use crate::numfmt::{decimal, u32_to_decimal};

verus! {

/// A command sent to the privileged helper, one JSON line per connection.
pub struct HelperRequest {
    pub command: String,
    pub bin_path: Option<String>,
    pub config_dir: Option<String>,
}

/// The mathematical value of a `HelperRequest`.
pub struct HelperRequestV {
    pub command: Seq<char>,
    pub bin_path: Option<Seq<char>>,
    pub config_dir: Option<Seq<char>>,
}

/// The value of an optional text.
pub open spec fn opt_text(o: Option<String>) -> Option<Seq<char>> {
    match o {
        Some(s) => Some(s@),
        None => None,
    }
}

impl HelperRequest {
    pub open spec fn view(&self) -> HelperRequestV {
        HelperRequestV {
            command: self.command@,
            bin_path: opt_text(self.bin_path),
            config_dir: opt_text(self.config_dir),
        }
    }
}

/// The request that starts the core with a binary and a configuration directory.
pub open spec fn start_request(bin_path: Seq<char>, config_dir: Seq<char>) -> HelperRequestV {
    HelperRequestV { command: "start"@, bin_path: Some(bin_path), config_dir: Some(config_dir) }
}

/// A request without paths.
pub open spec fn bare_request(command: Seq<char>) -> HelperRequestV {
    HelperRequestV { command, bin_path: None, config_dir: None }
}

/// The helper's answer: `code` 0 on success, 1 on failure.
pub struct HelperResponse {
    pub code: i32,
    pub message: String,
}

/// The commands that the helper knows.
#[derive(PartialEq, Eq, Structural, Clone, Copy, Debug)]
pub enum HelperCommand {
    Start,
    Stop,
    Status,
    Unknown,
}

/// What the helper observed of the core process it started.
pub enum ChildStatus {
    /// No process was started, or it was forgotten.
    NoChild,
    /// The process exited; the text is how its exit status displays.
    Exited(String),
    /// The process is still running with this id.
    Running(u32),
    /// Its state could not be queried.
    Unknown,
}

/// The last component of a path that names something, if any.
pub open spec fn last_component(parts: Seq<Seq<char>>) -> Option<Seq<char>>
    decreases parts.len(),
{
    if parts.len() == 0 {
        None
    } else if parts.last().len() > 0 && parts.last() != "."@ {
        Some(parts.last())
    } else {
        last_component(parts.drop_last())
    }
}

/// `Path::file_name` on Unix, empty where it gives none (`unwrap_or_default`).
pub open spec fn path_file_name(p: Seq<char>) -> Seq<char> {
    match last_component(split_spec(p, '/')) {
        Some(c) => if c == ".."@ { Seq::empty() } else { c },
        None => Seq::empty(),
    }
}

/// The prefix that a binary's file name must have for the helper to run it.
pub open spec fn allowed_bin_prefix() -> Seq<char> {
    "mihomo"@
}

/// The text of an optional field, when it is present and not empty.
pub open spec fn nonempty_text(o: Option<Seq<char>>) -> Option<Seq<char>> {
    match o {
        Some(s) => if s.len() > 0 { Some(s) } else { None },
        None => None,
    }
}

/// Which command a request names.
pub open spec fn command_of(cmd: Seq<char>) -> HelperCommand {
    if cmd == "start"@ {
        HelperCommand::Start
    } else if cmd == "stop"@ {
        HelperCommand::Stop
    } else if cmd == "status"@ {
        HelperCommand::Status
    } else {
        HelperCommand::Unknown
    }
}

fn text_eq(a: &str, b: &str) -> (r: bool)
    ensures
        r == (a@ == b@),
{
    String::from_str(a).eq(&String::from_str(b))
}

/// The file name of a path, empty when it has none.
pub fn file_name_of(p: &str) -> (r: String)
    ensures
        r@ == path_file_name(p@),
{
    let parts = split_char(p, '/');
    let ghost pv = split_spec(p@, '/');
    let n = parts.len();
    let mut j: usize = n;
    proof {
        assert(pv.take(n as int) =~= pv);
    }
    while j > 0
        invariant
            n == parts@.len(),
            n == pv.len(),
            pv == split_spec(p@, '/'),
            forall|k: int| 0 <= k < n ==> #[trigger] parts@[k]@ == pv[k],
            j <= n,
            last_component(pv) == last_component(pv.take(j as int)),
        decreases j,
    {
        proof {
            assert(pv.take(j as int).drop_last() =~= pv.take(j - 1));
        }
        let part = parts[j - 1].as_str();
        if char_len(part) > 0 && !text_eq(part, ".") {
            if text_eq(part, "..") {
                return String::new();
            }
            return String::from_str(part);
        }
        j = j - 1;
    }
    String::new()
}

/// Which command a request names.
pub fn classify_command(cmd: &str) -> (r: HelperCommand)
    ensures
        r == command_of(cmd@),
{
    if text_eq(cmd, "start") {
        HelperCommand::Start
    } else if text_eq(cmd, "stop") {
        HelperCommand::Stop
    } else if text_eq(cmd, "status") {
        HelperCommand::Status
    } else {
        HelperCommand::Unknown
    }
}

/// A failure answer.
pub fn failure(message: String) -> (r: HelperResponse)
    ensures
        r.code == 1,
        r.message == message,
{
    HelperResponse { code: 1, message }
}

/// The answer to a request that names no known command.
pub fn unknown_command_response(cmd: &str) -> (r: HelperResponse)
    ensures
        r.code == 1,
        r.message@ == "Unknown command: "@ + cmd@,
{
    failure(String::from_str("Unknown command: ").concat(cmd))
}

/// The paths that a start request must carry: both present and not empty.
pub fn check_start_request(req: &HelperRequest) -> (r: Result<(String, String), HelperResponse>)
    ensures
        match r {
            Ok((bin, dir)) => nonempty_text(req@.bin_path) == Some(bin@) && nonempty_text(
                req@.config_dir,
            ) == Some(dir@),
            Err(resp) => resp.code == 1 && if nonempty_text(req@.bin_path) is None {
                resp.message@ == "Missing bin_path"@
            } else {
                nonempty_text(req@.config_dir) is None && resp.message@ == "Missing config_dir"@
            },
        },
{
    let bin = match &req.bin_path {
        Some(p) if char_len(p.as_str()) > 0 => p.clone(),
        _ => return Err(failure(String::from_str("Missing bin_path"))),
    };
    let dir = match &req.config_dir {
        Some(p) if char_len(p.as_str()) > 0 => p.clone(),
        _ => return Err(failure(String::from_str("Missing config_dir"))),
    };
    Ok((bin, dir))
}

/// Whether the helper may run the binary at `bin_path`, given whether it exists:
/// it must exist and its file name must start with `mihomo`. `None` means it may.
pub fn check_start_binary(bin_path: &str, exists: bool) -> (r: Option<HelperResponse>)
    ensures
        exists && starts_with_spec(path_file_name(bin_path@), "mihomo"@) ==> r is None,
        match r {
            None => exists && starts_with_spec(path_file_name(bin_path@), allowed_bin_prefix()),
            Some(resp) => resp.code == 1 && if !exists {
                resp.message@ == "Binary not found: "@ + bin_path@
            } else {
                !starts_with_spec(path_file_name(bin_path@), allowed_bin_prefix()) && resp.message@
                    == "Rejected: binary name '"@ + path_file_name(bin_path@) + "' not allowed"@
            },
        },
{
    if !exists {
        return Some(failure(String::from_str("Binary not found: ").concat(bin_path)));
    }
    let fname = file_name_of(bin_path);
    if !starts_with(fname.as_str(), "mihomo") {
        return Some(
            failure(
                String::from_str("Rejected: binary name '").concat(fname.as_str()).concat(
                    "' not allowed",
                ),
            ),
        );
    }
    None
}

/// The answer to a start request once the core was spawned (its process id) or
/// could not be (the error text).
pub fn spawn_response(spawned: Result<u32, String>) -> (r: HelperResponse)
    ensures
        match spawned {
            Ok(pid) => r.code == 0 && r.message@ == "Started pid="@ + decimal(pid as nat),
            Err(e) => r.code == 1 && r.message@ == "Spawn failed: "@ + e@,
        },
{
    match spawned {
        Ok(pid) => HelperResponse {
            code: 0,
            message: String::from_str("Started pid=").concat(u32_to_decimal(pid).as_str()),
        },
        Err(e) => failure(String::from_str("Spawn failed: ").concat(e.as_str())),
    }
}

/// The answer to a stop request.
pub fn stopped_response() -> (r: HelperResponse)
    ensures
        r.code == 0,
        r.message@ == "Stopped"@,
{
    HelperResponse { code: 0, message: String::from_str("Stopped") }
}

/// The answer to a status request, and whether the helper should forget the
/// process it holds (it exited, or cannot be queried).
pub fn status_response(status: ChildStatus) -> (r: (HelperResponse, bool))
    ensures
        r.0.code == 0,
        match status {
            ChildStatus::NoChild => r.0.message@ == "Not running"@ && !r.1,
            ChildStatus::Exited(s) => r.0.message@ == "Exited with "@ + s@ && r.1,
            ChildStatus::Running(pid) => r.0.message@ == "Running pid="@ + decimal(pid as nat) && !r.1,
            ChildStatus::Unknown => r.0.message@ == "Not running"@ && r.1,
        },
{
    match status {
        ChildStatus::NoChild => (HelperResponse { code: 0, message: String::from_str("Not running") }, false),
        ChildStatus::Exited(s) => (
            HelperResponse { code: 0, message: String::from_str("Exited with ").concat(s.as_str()) },
            true,
        ),
        ChildStatus::Running(pid) => (
            HelperResponse {
                code: 0,
                message: String::from_str("Running pid=").concat(u32_to_decimal(pid).as_str()),
            },
            false,
        ),
        ChildStatus::Unknown => (HelperResponse { code: 0, message: String::from_str("Not running") }, true),
    }
}

/// The request that starts the core through the helper with a binary and a
/// configuration directory.
pub fn start_mihomo_via_helper(bin_path: &str, config_dir: &str) -> (r: HelperRequest)
    ensures
        r@ == start_request(bin_path@, config_dir@),
{
    HelperRequest {
        command: String::from_str("start"),
        bin_path: Some(String::from_str(bin_path)),
        config_dir: Some(String::from_str(config_dir)),
    }
}

/// The request that stops the core through the helper.
pub fn stop_mihomo_via_helper() -> (r: HelperRequest)
    ensures
        r@ == bare_request("stop"@),
{
    HelperRequest { command: String::from_str("stop"), bin_path: None, config_dir: None }
}

/// The request that asks the helper for the core's status.
pub fn status_request() -> (r: HelperRequest)
    ensures
        r@ == bare_request("status"@),
{
    HelperRequest { command: String::from_str("status"), bin_path: None, config_dir: None }
}

/// Whether the helper daemon is alive, given the outcome of sending it a status
/// request: any answer at all means it is.
pub fn is_helper_running(reply: &Result<HelperResponse, String>) -> (r: bool)
    ensures
        r == reply is Ok,
{
    reply.is_ok()
}


/// Law of the helper protocol: the requests that the application sends name the
/// helper's start, stop and status commands, and a start request with non-empty
/// paths passes the helper's check with exactly those paths.
pub proof fn law_client_requests_understood(bin_path: Seq<char>, config_dir: Seq<char>)
    ensures
        command_of(start_request(bin_path, config_dir).command) == HelperCommand::Start,
        command_of(bare_request("stop"@).command) == HelperCommand::Stop,
        command_of(bare_request("status"@).command) == HelperCommand::Status,
        bin_path.len() > 0 && config_dir.len() > 0 ==> nonempty_text(
            start_request(bin_path, config_dir).bin_path,
        ) == Some(bin_path) && nonempty_text(start_request(bin_path, config_dir).config_dir) == Some(
            config_dir,
        ),
{
    reveal_strlit("start");
    reveal_strlit("stop");
    reveal_strlit("status");
    assert("stop"@ != "start"@) by {
        assert("stop"@[2] != "start"@[2]);
    }
    assert("status"@ != "start"@) by {
        assert("status"@.len() != "start"@.len());
    }
    assert("status"@ != "stop"@) by {
        assert("status"@.len() != "stop"@.len());
    }
}

/// Law: the core's sidecar binaries, `mihomo-<arch>-apple-darwin` for any
/// architecture, have names that the helper accepts.
pub proof fn law_sidecar_names_allowed(arch: Seq<char>)
    ensures
        starts_with_spec("mihomo-"@ + arch + "-apple-darwin"@, allowed_bin_prefix()),
{
    reveal_strlit("mihomo-");
    reveal_strlit("mihomo");
    let n = "mihomo-"@ + arch + "-apple-darwin"@;
    assert(n.subrange(0, 6) =~= "mihomo"@);
}

} // verus!
