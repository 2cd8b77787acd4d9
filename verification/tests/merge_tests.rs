use clash_tiny::mapping::{lookup_entry, str_key};
use clash_tiny::merge::{apply_override, has_proxies, set_tun_enabled, MergeError};
use clash_tiny::yaml::Yaml;
use serde_yaml::Value;

fn to_lib(v: &Value) -> Yaml {
    match v {
        Value::Null => Yaml::Null,
        Value::Bool(b) => Yaml::Bool(*b),
        Value::Number(n) => Yaml::Number(n.to_string()),
        Value::String(s) => Yaml::Str(s.clone()),
        Value::Sequence(s) => Yaml::Sequence(s.iter().map(to_lib).collect()),
        Value::Mapping(m) => Yaml::Mapping(m.iter().map(|(k, v)| (to_lib(k), to_lib(v))).collect()),
        Value::Tagged(t) => Yaml::Tagged(t.tag.to_string(), Box::new(to_lib(&t.value))),
    }
}

fn parse(text: &str) -> Yaml {
    to_lib(&serde_yaml::from_str::<Value>(text).unwrap())
}

fn get<'a>(doc: &'a Yaml, key: &str) -> Option<&'a Yaml> {
    lookup_entry(doc.as_mapping()?, &str_key(key))
}

fn keys(doc: &Yaml) -> Vec<String> {
    doc.as_mapping()
        .unwrap()
        .iter()
        .map(|(k, _)| match k {
            Yaml::Str(s) => s.clone(),
            _ => "<other>".to_string(),
        })
        .collect()
}

fn same(a: &Yaml, text: &str) -> bool {
    a.same_as(&parse(text))
}

const OVERRIDE: &str = r#"
mixed-port: 7890
external-controller: 127.0.0.1:9090
secret: ClashTiny
external-ui: ui
external-ui-url: https://example.com/ui.zip
tun:
  stack: system
  auto-route: true
  mtu: 9000
dns:
  enable: false
  listen: 0.0.0.0:53
  ipv6: false
  enhanced-mode: fake-ip
geox-url:
  geoip: https://o/geoip.dat
  geosite: https://o/geosite.dat
"#;

const SUBSCRIPTION: &str = r#"
mixed-port: 1234
allow-lan: true
secret: hunter2
tun:
  mtu: 1500
  device: utun9
  udp-timeout: 60
dns:
  nameserver: [8.8.8.8]
  enable: false
  ipv6: true
geox-url:
  geoip: https://s/geoip.dat
proxies:
  - name: a
"#;

fn merged(is_tun: bool) -> Yaml {
    match apply_override(parse(SUBSCRIPTION), &parse(OVERRIDE), is_tun) {
        Ok(d) => d,
        Err(_) => panic!("merge failed"),
    }
}

#[test]
fn mandatory_keys_come_from_override() {
    let d = merged(false);
    assert!(same(get(&d, "mixed-port").unwrap(), "7890"));
    assert!(same(get(&d, "secret").unwrap(), "ClashTiny"));
    assert!(same(get(&d, "external-controller").unwrap(), "127.0.0.1:9090"));
    assert!(same(get(&d, "external-ui-url").unwrap(), "https://example.com/ui.zip"));
}

#[test]
fn mandatory_key_missing_from_override_keeps_subscription_value() {
    let over = parse("secret: x\n");
    let d = match apply_override(parse("mixed-port: 1234\n"), &over, false) {
        Ok(d) => d,
        Err(_) => panic!(),
    };
    assert!(same(get(&d, "mixed-port").unwrap(), "1234"));
    assert!(same(get(&d, "secret").unwrap(), "x"));
}

#[test]
fn other_keys_are_kept() {
    let d = merged(false);
    assert!(same(get(&d, "allow-lan").unwrap(), "true"));
    assert!(same(get(&d, "proxies").unwrap(), "[{name: a}]"));
}

#[test]
fn tun_section_is_override_plus_whitelist() {
    let d = merged(true);
    let tun = get(&d, "tun").unwrap();
    assert!(same(get(tun, "stack").unwrap(), "system"));
    assert!(same(get(tun, "auto-route").unwrap(), "true"));
    assert!(same(get(tun, "mtu").unwrap(), "1500"));
    assert!(same(get(tun, "udp-timeout").unwrap(), "60"));
    assert!(get(tun, "device").is_none());
    assert!(same(get(tun, "enable").unwrap(), "true"));
    assert_eq!(keys(tun), vec!["stack", "auto-route", "mtu", "udp-timeout", "enable"]);
}

#[test]
fn tun_enable_follows_mode() {
    let d = merged(false);
    assert!(same(get(get(&d, "tun").unwrap(), "enable").unwrap(), "false"));
}

#[test]
fn dns_section_prefers_subscription_and_locks_fields() {
    let d = merged(false);
    let dns = get(&d, "dns").unwrap();
    assert!(same(get(dns, "nameserver").unwrap(), "[8.8.8.8]"));
    assert!(same(get(dns, "ipv6").unwrap(), "true"));
    assert!(same(get(dns, "enhanced-mode").unwrap(), "fake-ip"));
    assert!(same(get(dns, "enable").unwrap(), "true"));
    assert!(same(get(dns, "listen").unwrap(), "0.0.0.0:1053"));
    assert_eq!(keys(dns), vec!["nameserver", "enable", "ipv6", "listen", "enhanced-mode"]);
}

#[test]
fn dns_section_from_override_when_subscription_has_none() {
    let d = match apply_override(parse("a: 1\n"), &parse(OVERRIDE), false) {
        Ok(d) => d,
        Err(_) => panic!(),
    };
    let dns = get(&d, "dns").unwrap();
    assert!(same(get(dns, "ipv6").unwrap(), "false"));
    assert!(same(get(dns, "enable").unwrap(), "true"));
    assert!(same(get(dns, "listen").unwrap(), "0.0.0.0:1053"));
}

#[test]
fn geox_subscription_overwrites_override() {
    let d = merged(false);
    let g = get(&d, "geox-url").unwrap();
    assert!(same(get(g, "geoip").unwrap(), "https://s/geoip.dat"));
    assert!(same(get(g, "geosite").unwrap(), "https://o/geosite.dat"));
}

#[test]
fn merged_document_key_order() {
    let d = merged(false);
    assert_eq!(
        keys(&d),
        vec![
            "mixed-port", "allow-lan", "secret", "tun", "dns", "geox-url", "proxies",
            "external-controller", "external-ui", "external-ui-url",
        ]
    );
}

#[test]
fn empty_override_sections_still_lock_fields() {
    let d = match apply_override(parse("a: 1\n"), &parse("b: 2\n"), true) {
        Ok(d) => d,
        Err(_) => panic!(),
    };
    assert!(same(get(&d, "tun").unwrap(), "{enable: true}"));
    assert!(same(get(&d, "dns").unwrap(), "{enable: true, listen: '0.0.0.0:1053'}"));
    assert!(same(get(&d, "geox-url").unwrap(), "{}"));
    assert!(get(&d, "b").is_none());
}

#[test]
fn base_not_mapping_is_refused() {
    assert!(matches!(
        apply_override(parse("[1, 2]"), &parse(OVERRIDE), false),
        Err(MergeError::BaseNotMapping)
    ));
    assert!(matches!(
        apply_override(parse("[1, 2]"), &parse("[3]"), false),
        Err(MergeError::BaseNotMapping)
    ));
}

#[test]
fn override_not_mapping_is_refused() {
    assert!(matches!(
        apply_override(parse("a: 1"), &parse("just text"), false),
        Err(MergeError::OverrideNotMapping)
    ));
}

#[test]
fn tagged_base_keeps_its_tag() {
    let d = match apply_override(parse("!cfg {a: 1}"), &parse("secret: s"), false) {
        Ok(d) => d,
        Err(_) => panic!(),
    };
    match &d {
        Yaml::Tagged(t, inner) => {
            assert_eq!(t, "!cfg");
            assert!(same(get(inner, "secret").unwrap(), "s"));
        }
        _ => panic!("tag lost"),
    }
}

#[test]
fn merge_is_stable_when_repeated() {
    let once = merged(true);
    let twice = match apply_override(once.duplicate(), &parse(OVERRIDE), true) {
        Ok(d) => d,
        Err(_) => panic!(),
    };
    assert!(once.same_as(&twice));
}

#[test]
fn set_tun_enabled_creates_section() {
    let d = set_tun_enabled(parse("a: 1"), true);
    assert!(same(&d, "{a: 1, tun: {enable: true}}"));
}

#[test]
fn set_tun_enabled_updates_section() {
    let d = set_tun_enabled(parse("tun: {stack: gvisor, enable: true}\nb: 2"), false);
    assert!(same(&d, "{tun: {stack: gvisor, enable: false}, b: 2}"));
}

#[test]
fn set_tun_enabled_replaces_non_mapping_tun() {
    let d = set_tun_enabled(parse("tun: off\nb: 2"), true);
    assert!(same(&d, "{tun: {enable: true}, b: 2}"));
    let d = set_tun_enabled(parse("tun: ~"), false);
    assert!(same(&d, "{tun: {enable: false}}"));
}

#[test]
fn set_tun_enabled_makes_a_mapping_of_other_documents() {
    let d = set_tun_enabled(parse("[1]"), true);
    assert!(same(&d, "{tun: {enable: true}}"));
    let d = set_tun_enabled(parse("~"), false);
    assert!(same(&d, "{tun: {enable: false}}"));
}

#[test]
fn has_proxies_checks_top_level_keys() {
    assert!(has_proxies(&parse("proxies: []")));
    assert!(has_proxies(&parse("proxy-groups: []")));
    assert!(!has_proxies(&parse("rules: []")));
    assert!(!has_proxies(&parse("- proxies")));
    assert!(has_proxies(&parse("!t {proxies: []}")));
}

#[test]
fn yaml_equality_and_copy() {
    let a = parse("{x: [1, 'two', {y: null}], z: !t 3}");
    let b = parse("{x: [1, 'two', {y: null}], z: !t 3}");
    let c = parse("{x: [1, 'two', {y: ~}], z: !u 3}");
    assert!(a.same_as(&b));
    assert!(!a.same_as(&c));
    assert!(a.duplicate().same_as(&a));
    assert!(!parse("{a: 1, b: 2}").same_as(&parse("{b: 2, a: 1}")));
}
