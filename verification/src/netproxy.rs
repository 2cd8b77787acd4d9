use vstd::prelude::*;
use crate::text::{char_len, trim, trim_spec, lines, lines_spec, starts_with, starts_with_spec};

verus! {

/// How a `networksetup` run ended.
pub enum CommandOutcome {
    /// It ran and exited successfully.
    Success,
    /// It ran and exited unsuccessfully; the text is how its exit status displays.
    Exited(String),
    /// It could not be run; the text is the error.
    Failed(String),
}

/// `list` joined with `sep` between the items (`[String]::join`).
pub open spec fn join_spec(list: Seq<Seq<char>>, sep: Seq<char>) -> Seq<char>
    decreases list.len(),
{
    if list.len() == 0 {
        Seq::empty()
    } else if list.len() == 1 {
        list[0]
    } else {
        join_spec(list.drop_last(), sep) + sep + list.last()
    }
}

/// The network services listed by `networksetup -listallnetworkservices`: every
/// line after the header, except disabled ones (marked with `*`), trimmed, empty
/// ones left out.
pub open spec fn services_of(lines: Seq<Seq<char>>) -> Seq<Seq<char>>
    decreases lines.len(),
{
    if lines.len() <= 1 {
        Seq::empty()
    } else {
        let rest = services_of(lines.drop_last());
        let l = lines.last();
        if starts_with_spec(l, "*"@) || trim_spec(l).len() == 0 {
            rest
        } else {
            rest.push(trim_spec(l))
        }
    }
}

/// Whether a line of the service listing names an enabled service.
pub open spec fn names_enabled_service(l: Seq<char>) -> bool {
    !starts_with_spec(l, "*"@) && trim_spec(l).len() > 0
}

/// Law: the services are exactly the listing's lines after the header that are
/// neither disabled (`*`) nor blank, in order, each trimmed; a listing without
/// lines names none.
pub proof fn law_services_are_enabled_lines(lines: Seq<Seq<char>>)
    ensures
        lines.len() == 0 ==> services_of(lines) == Seq::<Seq<char>>::empty(),
        lines.len() >= 1 ==> services_of(lines) == lines.drop_first().filter(
            |l: Seq<char>| names_enabled_service(l),
        ).map_values(|l: Seq<char>| trim_spec(l)),
    decreases lines.len(),
{
    reveal(Seq::filter);
    let pred = |l: Seq<char>| names_enabled_service(l);
    if lines.len() == 1 {
        assert(lines.drop_first() =~= Seq::<Seq<char>>::empty());
        assert(lines.drop_first().filter(pred) =~= Seq::<Seq<char>>::empty());
        assert(lines.drop_first().filter(pred).map_values(|l: Seq<char>| trim_spec(l)) =~= Seq::<
            Seq<char>,
        >::empty());
    } else if lines.len() >= 2 {
        let d = lines.drop_last();
        law_services_are_enabled_lines(d);
        let t = lines.drop_first();
        assert(t.drop_last() =~= d.drop_first());
        assert(t.last() == lines.last());
        let f0 = d.drop_first().filter(pred);
        if pred(lines.last()) {
            assert(t.filter(pred) == f0.push(lines.last()));
            assert(f0.push(lines.last()).map_values(|l: Seq<char>| trim_spec(l)) =~= f0.map_values(
                |l: Seq<char>| trim_spec(l),
            ).push(trim_spec(lines.last())));
        } else {
            assert(t.filter(pred) == f0);
        }
    }
}

/// The error line for one `networksetup` run, if it did not succeed.
pub open spec fn command_error_spec(cmd: Seq<char>, service: Seq<char>, outcome: CommandOutcome) -> Option<
    Seq<char>,
> {
    match outcome {
        CommandOutcome::Success => None,
        CommandOutcome::Exited(s) => Some(cmd + " on '"@ + service + "' exited with "@ + s@),
        CommandOutcome::Failed(e) => Some(cmd + " on '"@ + service + "' failed: "@ + e@),
    }
}

/// Join texts with a separator.
pub fn join_strings(list: &Vec<String>, sep: &str) -> (r: String)
    ensures
        r@ == join_spec(list@.map_values(|s: String| s@), sep@),
{
    let ghost lv = list@.map_values(|s: String| s@);
    let mut out = String::new();
    let n = list.len();
    let mut i: usize = 0;
    while i < n
        invariant
            n == list@.len(),
            lv == list@.map_values(|s: String| s@),
            i <= n,
            out@ == join_spec(lv.take(i as int), sep@),
        decreases n - i,
    {
        proof {
            assert(lv.take(i + 1).drop_last() =~= lv.take(i as int));
            assert(lv.take(i + 1).last() == list@[i as int]@);
        }
        if i > 0 {
            out.append(sep);
        } else {
            proof {
                assert(lv.take(1) =~= seq![list@[0]@]);
            }
        }
        out.append(list[i].as_str());
        i = i + 1;
    }
    proof {
        assert(lv.take(n as int) =~= lv);
    }
    out
}

/// The network services in the output of `networksetup -listallnetworkservices`.
pub fn parse_network_services(listing: &str) -> (r: Vec<String>)
    ensures
        r@.map_values(|s: String| s@) == services_of(lines_spec(listing@)),
{
    let ls = lines(listing);
    let ghost lv = lines_spec(listing@);
    let mut out: Vec<String> = Vec::new();
    let n = ls.len();
    if n <= 1 {
        proof {
            assert(out@.map_values(|s: String| s@) =~= Seq::<Seq<char>>::empty());
        }
        return out;
    }
    let mut i: usize = 1;
    proof {
        assert(out@.map_values(|s: String| s@) =~= services_of(lv.take(1)));
    }
    while i < n
        invariant
            n == ls@.len(),
            n == lv.len(),
            lv == lines_spec(listing@),
            forall|k: int| 0 <= k < n ==> #[trigger] ls@[k]@ == lv[k],
            1 <= i <= n,
            out@.map_values(|s: String| s@) == services_of(lv.take(i as int)),
        decreases n - i,
    {
        proof {
            assert(lv.take(i + 1).drop_last() =~= lv.take(i as int));
            assert(lv.take(i + 1).last() == lv[i as int]);
        }
        let line = ls[i].as_str();
        let t = trim(line);
        if !starts_with(line, "*") && char_len(t.as_str()) > 0 {
            let ghost before = out@;
            out.push(t);
            proof {
                assert(out@.map_values(|s: String| s@) =~= before.map_values(|s: String| s@).push(t@));
            }
        }
        i = i + 1;
    }
    proof {
        assert(lv.take(n as int) =~= lv);
    }
    out
}

/// The services to configure when the list could not be obtained.
pub fn fallback_services() -> (r: Vec<String>)
    ensures
        r@.map_values(|s: String| s@) == seq!["Wi-Fi"@, "Ethernet"@],
{
    let r = vec![String::from_str("Wi-Fi"), String::from_str("Ethernet")];
    assert(r@.map_values(|s: String| s@) =~= seq!["Wi-Fi"@, "Ethernet"@]);
    r
}

/// The services to configure, given the listing when `networksetup` could be run.
pub fn active_services(listing: Option<&str>) -> (r: Vec<String>)
    ensures
        r@.map_values(|s: String| s@) == match listing {
            Some(l) => services_of(lines_spec(l@)),
            None => seq!["Wi-Fi"@, "Ethernet"@],
        },
{
    match listing {
        Some(l) => parse_network_services(l),
        None => fallback_services(),
    }
}

/// The error line for one `networksetup` run, if it did not succeed.
pub fn command_error(cmd: &str, service: &str, outcome: &CommandOutcome) -> (r: Option<String>)
    ensures
        match r {
            Some(e) => command_error_spec(cmd@, service@, *outcome) == Some(e@),
            None => command_error_spec(cmd@, service@, *outcome) is None,
        },
{
    match outcome {
        CommandOutcome::Success => None,
        CommandOutcome::Exited(s) => Some(
            String::from_str(cmd).concat(" on '").concat(service).concat("' exited with ").concat(
                s.as_str(),
            ),
        ),
        CommandOutcome::Failed(e) => Some(
            String::from_str(cmd).concat(" on '").concat(service).concat("' failed: ").concat(
                e.as_str(),
            ),
        ),
    }
}

/// The host and port that the system proxy points at.
pub open spec fn proxy_host() -> Seq<char> {
    "127.0.0.1"@
}

/// The port of the core's mixed proxy.
pub open spec fn proxy_port() -> Seq<char> {
    "7890"@
}

/// One `networksetup` run: a label for error lines and its arguments.
pub struct ProxyCommand {
    pub label: String,
    pub args: Vec<String>,
}

fn strings(items: &[&str]) -> (r: Vec<String>)
    ensures
        r@.map_values(|s: String| s@) == items@.map_values(|s: &str| s@),
{
    let mut out: Vec<String> = Vec::new();
    let n = items.len();
    let mut i: usize = 0;
    while i < n
        invariant
            n == items@.len(),
            i <= n,
            out@.len() == i,
            forall|k: int| 0 <= k < i ==> #[trigger] out@[k]@ == items@[k]@,
        decreases n - i,
    {
        out.push(String::from_str(items[i]));
        i = i + 1;
    }
    assert(out@.map_values(|s: String| s@) =~= items@.map_values(|s: &str| s@));
    out
}

/// The runs that point a service's web, secure web and SOCKS proxies at the core
/// and set the bypass list, in order.
pub fn enable_proxy_commands(service: &str) -> (r: Vec<ProxyCommand>)
    ensures
        r@.len() == 4,
        r@[0].label@ == "setwebproxy"@,
        r@[0].args@.map_values(|s: String| s@) == seq![
            "-setwebproxy"@,
            service@,
            proxy_host(),
            proxy_port(),
        ],
        r@[1].label@ == "setsecurewebproxy"@,
        r@[1].args@.map_values(|s: String| s@) == seq![
            "-setsecurewebproxy"@,
            service@,
            proxy_host(),
            proxy_port(),
        ],
        r@[2].label@ == "setsocksfirewallproxy"@,
        r@[2].args@.map_values(|s: String| s@) == seq![
            "-setsocksfirewallproxy"@,
            service@,
            proxy_host(),
            proxy_port(),
        ],
        r@[3].label@ == "setproxybypassdomains"@,
        r@[3].args@.map_values(|s: String| s@) == seq![
            "-setproxybypassdomains"@,
            service@,
            "localhost"@,
            "127.0.0.1"@,
            "::1"@,
            "192.168.0.0/16"@,
            "10.0.0.0/8"@,
            "172.16.0.0/12"@,
            "*.local"@,
            "<local>"@,
        ],
{
    let a = ["-setwebproxy", service, "127.0.0.1", "7890"];
    let b = ["-setsecurewebproxy", service, "127.0.0.1", "7890"];
    let c = ["-setsocksfirewallproxy", service, "127.0.0.1", "7890"];
    let d = [
        "-setproxybypassdomains",
        service,
        "localhost",
        "127.0.0.1",
        "::1",
        "192.168.0.0/16",
        "10.0.0.0/8",
        "172.16.0.0/12",
        "*.local",
        "<local>",
    ];
    let va = strings(&a);
    let vb = strings(&b);
    let vc = strings(&c);
    let vd = strings(&d);
    assert(a@.map_values(|s: &str| s@) =~= seq!["-setwebproxy"@, service@, proxy_host(), proxy_port()]);
    assert(b@.map_values(|s: &str| s@) =~= seq!["-setsecurewebproxy"@, service@, proxy_host(), proxy_port()]);
    assert(c@.map_values(|s: &str| s@) =~= seq!["-setsocksfirewallproxy"@, service@, proxy_host(), proxy_port()]);
    assert(d@.map_values(|s: &str| s@) =~= seq![
        "-setproxybypassdomains"@,
        service@,
        "localhost"@,
        "127.0.0.1"@,
        "::1"@,
        "192.168.0.0/16"@,
        "10.0.0.0/8"@,
        "172.16.0.0/12"@,
        "*.local"@,
        "<local>"@,
    ]);
    vec![
        ProxyCommand { label: String::from_str("setwebproxy"), args: va },
        ProxyCommand { label: String::from_str("setsecurewebproxy"), args: vb },
        ProxyCommand { label: String::from_str("setsocksfirewallproxy"), args: vc },
        ProxyCommand { label: String::from_str("setproxybypassdomains"), args: vd },
    ]
}

/// The runs that turn a service's web, secure web and SOCKS proxies off, in order.
pub fn disable_proxy_commands(service: &str) -> (r: Vec<ProxyCommand>)
    ensures
        r@.len() == 3,
        r@[0].label@ == "webproxy off"@,
        r@[0].args@.map_values(|s: String| s@) == seq!["-setwebproxystate"@, service@, "off"@],
        r@[1].label@ == "securewebproxy off"@,
        r@[1].args@.map_values(|s: String| s@) == seq!["-setsecurewebproxystate"@, service@, "off"@],
        r@[2].label@ == "socksFirewallProxy off"@,
        r@[2].args@.map_values(|s: String| s@) == seq![
            "-setsocksfirewallproxystate"@,
            service@,
            "off"@,
        ],
{
    let a = ["-setwebproxystate", service, "off"];
    let b = ["-setsecurewebproxystate", service, "off"];
    let c = ["-setsocksfirewallproxystate", service, "off"];
    let va = strings(&a);
    let vb = strings(&b);
    let vc = strings(&c);
    assert(a@.map_values(|s: &str| s@) =~= seq!["-setwebproxystate"@, service@, "off"@]);
    assert(b@.map_values(|s: &str| s@) =~= seq!["-setsecurewebproxystate"@, service@, "off"@]);
    assert(c@.map_values(|s: &str| s@) =~= seq!["-setsocksfirewallproxystate"@, service@, "off"@]);
    vec![
        ProxyCommand { label: String::from_str("webproxy off"), args: va },
        ProxyCommand { label: String::from_str("securewebproxy off"), args: vb },
        ProxyCommand { label: String::from_str("socksFirewallProxy off"), args: vc },
    ]
}

/// Whether there is a network service to set the proxy on: an error when none is active.
pub fn check_services(services: &Vec<String>) -> (r: Result<(), String>)
    ensures
        match r {
            Ok(()) => services@.len() > 0,
            Err(e) => services@.len() == 0 && e@ == "No active network services found"@,
        },
{
    if services.len() == 0 {
        Err(String::from_str("No active network services found"))
    } else {
        Ok(())
    }
}

/// The result of turning the system proxy on from the error lines collected:
/// success when there are none, otherwise all of them joined with `; `.
pub fn enable_result(errors: &Vec<String>) -> (r: Result<(), String>)
    ensures
        match r {
            Ok(()) => errors@.len() == 0,
            Err(e) => errors@.len() > 0 && e@ == join_spec(errors@.map_values(|s: String| s@), "; "@),
        },
{
    if errors.len() == 0 {
        Ok(())
    } else {
        Err(join_strings(errors, "; "))
    }
}

} // verus!
