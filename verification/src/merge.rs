use vstd::prelude::*;
use vstd::pervasive::VecAdditionalExecFns;
use crate::yaml::{Yaml, YamlV, clone_entries, lemma_view_entries};
use crate::mapping::{
    has_key, lookup, upsert, mapping_entries, section, section_or_empty, skey,
    lemma_entry_index, str_key, find_entry, lookup_entry, upsert_entry,
};

verus! {

broadcast use vstd::std_specs::vec::axiom_vec_index_decreases;

/// Top-level keys whose values always come from the override file.
pub open spec fn mandatory_keys() -> Seq<Seq<char>> {
    seq!["mixed-port"@, "external-controller"@, "secret"@, "external-ui"@, "external-ui-url"@]
}

/// Keys of the `tun` section that the subscription may set.
pub open spec fn tun_whitelist() -> Seq<Seq<char>> {
    seq!["mtu"@, "udp-timeout"@]
}

/// For each key in turn, copy its value from `source` into `target` when `source` has it.
pub open spec fn copy_keys(
    target: Seq<(YamlV, YamlV)>,
    source: Seq<(YamlV, YamlV)>,
    keys: Seq<Seq<char>>,
) -> Seq<(YamlV, YamlV)>
    decreases keys.len(),
{
    if keys.len() == 0 {
        target
    } else {
        let r = copy_keys(target, source, keys.drop_last());
        match lookup(source, skey(keys.last())) {
            Some(v) => upsert(r, skey(keys.last()), v),
            None => r,
        }
    }
}

/// Store every entry of `entries`, in order, into `m`.
pub open spec fn upsert_all(m: Seq<(YamlV, YamlV)>, entries: Seq<(YamlV, YamlV)>) -> Seq<
    (YamlV, YamlV),
>
    decreases entries.len(),
{
    if entries.len() == 0 {
        m
    } else {
        let r = upsert_all(m, entries.drop_last());
        upsert(r, entries.last().0, entries.last().1)
    }
}

/// Add, in order, the entries of `entries` whose key `m` does not have yet.
pub open spec fn fill_missing(m: Seq<(YamlV, YamlV)>, entries: Seq<(YamlV, YamlV)>) -> Seq<
    (YamlV, YamlV),
>
    decreases entries.len(),
{
    if entries.len() == 0 {
        m
    } else {
        let r = fill_missing(m, entries.drop_last());
        if has_key(r, entries.last().0) {
            r
        } else {
            upsert(r, entries.last().0, entries.last().1)
        }
    }
}

/// Level 1: the mandatory keys are forced to the override's values.
pub open spec fn merge_mandatory(m: Seq<(YamlV, YamlV)>, o: Seq<(YamlV, YamlV)>) -> Seq<
    (YamlV, YamlV),
> {
    copy_keys(m, o, mandatory_keys())
}

/// The `tun` section after level 2: the override's section, the whitelisted
/// fields of the subscription's section, and `enable` set to the running mode.
pub open spec fn merged_tun(m: Seq<(YamlV, YamlV)>, o: Seq<(YamlV, YamlV)>, is_tun: bool) -> Seq<
    (YamlV, YamlV),
> {
    let base = section_or_empty(o, skey("tun"@));
    let with_sub = match section(m, skey("tun"@)) {
        Some(sub) => copy_keys(base, sub, tun_whitelist()),
        None => base,
    };
    upsert(with_sub, skey("enable"@), YamlV::Bool(is_tun))
}

/// Level 2.
pub open spec fn merge_tun(m: Seq<(YamlV, YamlV)>, o: Seq<(YamlV, YamlV)>, is_tun: bool) -> Seq<
    (YamlV, YamlV),
> {
    upsert(m, skey("tun"@), YamlV::Mapping(merged_tun(m, o, is_tun)))
}

/// The `dns` section after level 3: the subscription's section with the override's
/// missing fields added (or the override's section when the subscription has none),
/// then `enable` and `listen` locked.
pub open spec fn merged_dns(m: Seq<(YamlV, YamlV)>, o: Seq<(YamlV, YamlV)>) -> Seq<
    (YamlV, YamlV),
> {
    let r = match section(m, skey("dns"@)) {
        Some(sub) => match section(o, skey("dns"@)) {
            Some(od) => fill_missing(sub, od),
            None => sub,
        },
        None => section_or_empty(o, skey("dns"@)),
    };
    upsert(
        upsert(r, skey("enable"@), YamlV::Bool(true)),
        skey("listen"@),
        YamlV::Str("0.0.0.0:1053"@),
    )
}

/// Level 3.
pub open spec fn merge_dns(m: Seq<(YamlV, YamlV)>, o: Seq<(YamlV, YamlV)>) -> Seq<
    (YamlV, YamlV),
> {
    upsert(m, skey("dns"@), YamlV::Mapping(merged_dns(m, o)))
}

/// The `geox-url` section after level 4: the override's section overwritten by
/// the subscription's fields.
pub open spec fn merged_geox(m: Seq<(YamlV, YamlV)>, o: Seq<(YamlV, YamlV)>) -> Seq<
    (YamlV, YamlV),
> {
    let base = section_or_empty(o, skey("geox-url"@));
    match section(m, skey("geox-url"@)) {
        Some(sub) => upsert_all(base, sub),
        None => base,
    }
}

/// Level 4.
pub open spec fn merge_geox(m: Seq<(YamlV, YamlV)>, o: Seq<(YamlV, YamlV)>) -> Seq<
    (YamlV, YamlV),
> {
    upsert(m, skey("geox-url"@), YamlV::Mapping(merged_geox(m, o)))
}

/// All four levels, in order, on the entries of the subscription `m` and the override `o`.
pub open spec fn merge_entries(m: Seq<(YamlV, YamlV)>, o: Seq<(YamlV, YamlV)>, is_tun: bool) -> Seq<
    (YamlV, YamlV),
> {
    merge_geox(merge_dns(merge_tun(merge_mandatory(m, o), o, is_tun), o), o)
}

/// `v` with its innermost untagged node replaced by `inner`; its tags stay.
pub open spec fn with_untagged(v: YamlV, inner: YamlV) -> YamlV
    decreases v,
{
    match v {
        YamlV::Tagged(t, b) => YamlV::Tagged(t, Box::new(with_untagged(*b, inner))),
        _ => inner,
    }
}

/// The merged document, when both documents are mappings.
pub open spec fn merged_document(base: YamlV, over: YamlV, is_tun: bool) -> Option<YamlV> {
    match (mapping_entries(base), mapping_entries(over)) {
        (Some(m), Some(o)) => Some(with_untagged(base, YamlV::Mapping(merge_entries(m, o, is_tun)))),
        _ => None,
    }
}

/// Why two documents cannot be merged.
pub enum MergeError {
    /// The subscription document is not a mapping.
    BaseNotMapping,
    /// The override document is not a mapping.
    OverrideNotMapping,
}

impl MergeError {
    /// The message shown for this error.
    pub fn message(&self) -> (r: String)
        ensures
            r@ == match self {
                MergeError::BaseNotMapping => "基础配置不是有效的 YAML mapping"@,
                MergeError::OverrideNotMapping => "覆盖配置不是有效的 YAML mapping"@,
            },
    {
        match self {
            MergeError::BaseNotMapping => String::from_str("基础配置不是有效的 YAML mapping"),
            MergeError::OverrideNotMapping => String::from_str("覆盖配置不是有效的 YAML mapping"),
        }
    }
}

/// The section stored under `key`, when it is a mapping.
pub fn section_of<'a>(m: &'a Vec<(Yaml, Yaml)>, key: &str) -> (r: Option<&'a Vec<(Yaml, Yaml)>>)
    ensures
        match r {
            Some(s) => section(Yaml::view_entries(m@), skey(key@)) == Some(Yaml::view_entries(s@)),
            None => section(Yaml::view_entries(m@), skey(key@)) is None,
        },
{
    let k = str_key(key);
    match lookup_entry(m, &k) {
        Some(v) => v.as_mapping(),
        None => None,
    }
}

/// Copy the value under `key` from `source` into `target`, when `source` has it.
pub fn copy_key(target: &mut Vec<(Yaml, Yaml)>, source: &Vec<(Yaml, Yaml)>, key: &str)
    ensures
        Yaml::view_entries(final(target)@) == match lookup(Yaml::view_entries(source@), skey(key@)) {
            Some(v) => upsert(Yaml::view_entries(old(target)@), skey(key@), v),
            None => Yaml::view_entries(old(target)@),
        },
{
    let k = str_key(key);
    match lookup_entry(source, &k) {
        Some(v) => {
            let v2 = v.duplicate();
            upsert_entry(target, k, v2);
        },
        None => {},
    }
}

/// Add the entries of `entries` whose key `m` does not have yet.
pub fn fill_missing_entries(m: &mut Vec<(Yaml, Yaml)>, entries: &Vec<(Yaml, Yaml)>)
    ensures
        Yaml::view_entries(final(m)@) == fill_missing(
            Yaml::view_entries(old(m)@),
            Yaml::view_entries(entries@),
        ),
{
    let ghost m0 = Yaml::view_entries(m@);
    let ghost e = Yaml::view_entries(entries@);
    proof {
        lemma_view_entries(entries@);
        assert(e.take(0) =~= Seq::<(YamlV, YamlV)>::empty());
    }
    let n = entries.len();
    let mut i: usize = 0;
    while i < n
        invariant
            n == entries.len(),
            i <= n,
            e == Yaml::view_entries(entries@),
            e.len() == n,
            forall|j: int| 0 <= j < n ==> #[trigger] e[j] == (entries@[j].0@, entries@[j].1@),
            Yaml::view_entries(m@) == fill_missing(m0, e.take(i as int)),
        decreases n - i,
    {
        proof {
            assert(e.take(i + 1).drop_last() =~= e.take(i as int));
            assert(e.take(i + 1).last() == e[i as int]);
        }
        match find_entry(m, &entries[i].0) {
            Some(_) => {},
            None => {
                let k = entries[i].0.duplicate();
                let v = entries[i].1.duplicate();
                upsert_entry(m, k, v);
            },
        }
        i = i + 1;
    }
    proof {
        assert(e.take(n as int) =~= e);
    }
}

/// Store every entry of `entries`, in order, into `m`.
pub fn upsert_all_entries(m: &mut Vec<(Yaml, Yaml)>, entries: &Vec<(Yaml, Yaml)>)
    ensures
        Yaml::view_entries(final(m)@) == upsert_all(
            Yaml::view_entries(old(m)@),
            Yaml::view_entries(entries@),
        ),
{
    let ghost m0 = Yaml::view_entries(m@);
    let ghost e = Yaml::view_entries(entries@);
    proof {
        lemma_view_entries(entries@);
        assert(e.take(0) =~= Seq::<(YamlV, YamlV)>::empty());
    }
    let n = entries.len();
    let mut i: usize = 0;
    while i < n
        invariant
            n == entries.len(),
            i <= n,
            e == Yaml::view_entries(entries@),
            e.len() == n,
            forall|j: int| 0 <= j < n ==> #[trigger] e[j] == (entries@[j].0@, entries@[j].1@),
            Yaml::view_entries(m@) == upsert_all(m0, e.take(i as int)),
        decreases n - i,
    {
        proof {
            assert(e.take(i + 1).drop_last() =~= e.take(i as int));
            assert(e.take(i + 1).last() == e[i as int]);
        }
        let k = entries[i].0.duplicate();
        let v = entries[i].1.duplicate();
        upsert_entry(m, k, v);
        i = i + 1;
    }
    proof {
        assert(e.take(n as int) =~= e);
    }
}

/// A copy of the section under `key`, or no entries.
fn section_copy(m: &Vec<(Yaml, Yaml)>, key: &str) -> (r: Vec<(Yaml, Yaml)>)
    ensures
        Yaml::view_entries(r@) == section_or_empty(Yaml::view_entries(m@), skey(key@)),
{
    match section_of(m, key) {
        Some(s) => clone_entries(s),
        None => {
            let r: Vec<(Yaml, Yaml)> = Vec::new();
            assert(Yaml::view_entries(r@) =~= Seq::<(YamlV, YamlV)>::empty());
            r
        },
    }
}

/// Level 1: force the mandatory fields to the override's values.
pub fn merge_level1_mandatory(base: &mut Vec<(Yaml, Yaml)>, overrides: &Vec<(Yaml, Yaml)>)
    ensures
        Yaml::view_entries(final(base)@) == merge_mandatory(
            Yaml::view_entries(old(base)@),
            Yaml::view_entries(overrides@),
        ),
{
    copy_key(base, overrides, "mixed-port");
    copy_key(base, overrides, "external-controller");
    copy_key(base, overrides, "secret");
    copy_key(base, overrides, "external-ui");
    copy_key(base, overrides, "external-ui-url");
    proof {
        reveal_with_fuel(copy_keys, 6);
        let ks = mandatory_keys();
        assert(ks.drop_last() =~= seq!["mixed-port"@, "external-controller"@, "secret"@, "external-ui"@]);
        assert(ks.drop_last().drop_last() =~= seq!["mixed-port"@, "external-controller"@, "secret"@]);
        assert(ks.drop_last().drop_last().drop_last() =~= seq!["mixed-port"@, "external-controller"@]);
        assert(ks.drop_last().drop_last().drop_last().drop_last() =~= seq!["mixed-port"@]);
        assert(ks.drop_last().drop_last().drop_last().drop_last().drop_last() =~= Seq::<Seq<char>>::empty());
    }
}

/// Level 2: the override's `tun` section as the base, the subscription's
/// whitelisted fields on top, and `enable` set to the running mode.
pub fn merge_level2_tun(base: &mut Vec<(Yaml, Yaml)>, overrides: &Vec<(Yaml, Yaml)>, is_tun: bool)
    ensures
        Yaml::view_entries(final(base)@) == merge_tun(
            Yaml::view_entries(old(base)@),
            Yaml::view_entries(overrides@),
            is_tun,
        ),
{
    let mut tun = section_copy(overrides, "tun");
    let ghost t0 = Yaml::view_entries(tun@);
    match section_of(base, "tun") {
        Some(sub) => {
            copy_key(&mut tun, sub, "mtu");
            copy_key(&mut tun, sub, "udp-timeout");
            proof {
                reveal_with_fuel(copy_keys, 3);
                let ks = tun_whitelist();
                assert(ks.drop_last() =~= seq!["mtu"@]);
                assert(ks.drop_last().drop_last() =~= Seq::<Seq<char>>::empty());
            }
        },
        None => {},
    }
    upsert_entry(&mut tun, str_key("enable"), Yaml::Bool(is_tun));
    upsert_entry(base, str_key("tun"), Yaml::Mapping(tun));
}

/// Level 3: the subscription's `dns` section first, the override's fields for what
/// it lacks, then `enable` and `listen` locked.
pub fn merge_level3_dns(base: &mut Vec<(Yaml, Yaml)>, overrides: &Vec<(Yaml, Yaml)>)
    ensures
        Yaml::view_entries(final(base)@) == merge_dns(
            Yaml::view_entries(old(base)@),
            Yaml::view_entries(overrides@),
        ),
{
    let mut result = match section_of(base, "dns") {
        Some(sub) => {
            let mut r = clone_entries(sub);
            match section_of(overrides, "dns") {
                Some(od) => fill_missing_entries(&mut r, od),
                None => {},
            }
            r
        },
        None => section_copy(overrides, "dns"),
    };
    upsert_entry(&mut result, str_key("enable"), Yaml::Bool(true));
    upsert_entry(&mut result, str_key("listen"), Yaml::Str(String::from_str("0.0.0.0:1053")));
    upsert_entry(base, str_key("dns"), Yaml::Mapping(result));
}

/// Level 4: the override's `geox-url` section overwritten by the subscription's fields.
pub fn merge_level4_geox(base: &mut Vec<(Yaml, Yaml)>, overrides: &Vec<(Yaml, Yaml)>)
    ensures
        Yaml::view_entries(final(base)@) == merge_geox(
            Yaml::view_entries(old(base)@),
            Yaml::view_entries(overrides@),
        ),
{
    let mut geox = section_copy(overrides, "geox-url");
    match section_of(base, "geox-url") {
        Some(sub) => upsert_all_entries(&mut geox, sub),
        None => {},
    }
    upsert_entry(base, str_key("geox-url"), Yaml::Mapping(geox));
}

/// The four levels in order.
pub fn merge_all_levels(base: &mut Vec<(Yaml, Yaml)>, overrides: &Vec<(Yaml, Yaml)>, is_tun: bool)
    ensures
        Yaml::view_entries(final(base)@) == merge_entries(
            Yaml::view_entries(old(base)@),
            Yaml::view_entries(overrides@),
            is_tun,
        ),
{
    merge_level1_mandatory(base, overrides);
    merge_level2_tun(base, overrides, is_tun);
    merge_level3_dns(base, overrides);
    merge_level4_geox(base, overrides);
}

fn merge_untagged(base: Yaml, overrides: &Vec<(Yaml, Yaml)>, is_tun: bool) -> (r: Yaml)
    requires
        mapping_entries(base@) is Some,
    ensures
        r@ == with_untagged(
            base@,
            YamlV::Mapping(
                merge_entries(mapping_entries(base@)->0, Yaml::view_entries(overrides@), is_tun),
            ),
        ),
    decreases base,
{
    match base {
        Yaml::Tagged(t, b) => Yaml::Tagged(t, Box::new(merge_untagged(*b, overrides, is_tun))),
        Yaml::Mapping(mut m) => {
            merge_all_levels(&mut m, overrides, is_tun);
            Yaml::Mapping(m)
        },
        other => other,
    }
}

/// Apply the override document on top of a subscription document, `is_tun` telling
/// whether the transparent proxy mode is on.
pub fn apply_override(base: Yaml, overrides: &Yaml, is_tun: bool) -> (r: Result<Yaml, MergeError>)
    ensures
        match r {
            Ok(doc) => merged_document(base@, overrides@, is_tun) == Some(doc@),
            Err(MergeError::BaseNotMapping) => mapping_entries(base@) is None,
            Err(MergeError::OverrideNotMapping) => mapping_entries(base@) is Some
                && mapping_entries(overrides@) is None,
        },
{
    if base.as_mapping().is_none() {
        return Err(MergeError::BaseNotMapping);
    }
    match overrides.as_mapping() {
        None => Err(MergeError::OverrideNotMapping),
        Some(o) => Ok(merge_untagged(base, o, is_tun)),
    }
}


/// The `tun` section holding only `enable`.
pub open spec fn fresh_tun(enabled: bool) -> YamlV {
    YamlV::Mapping(upsert(Seq::empty(), skey("enable"@), YamlV::Bool(enabled)))
}

/// The entries of a document after `tun.enable` is set: a `tun` mapping gets its
/// `enable` set, and a missing `tun`, or one that is not a mapping, becomes a
/// mapping holding only `enable`.
pub open spec fn tun_enabled_entries(m: Seq<(YamlV, YamlV)>, enabled: bool) -> Seq<(YamlV, YamlV)> {
    let nv = match lookup(m, skey("tun"@)) {
        Some(v) => match mapping_entries(v) {
            Some(t) => with_untagged(v, YamlV::Mapping(upsert(t, skey("enable"@), YamlV::Bool(enabled)))),
            None => fresh_tun(enabled),
        },
        None => fresh_tun(enabled),
    };
    upsert(m, skey("tun"@), nv)
}

/// A document after `tun.enable` is set; a document that is not a mapping becomes
/// one holding only `tun.enable`.
pub open spec fn with_tun_enabled(doc: YamlV, enabled: bool) -> YamlV {
    match mapping_entries(doc) {
        Some(m) => with_untagged(doc, YamlV::Mapping(tun_enabled_entries(m, enabled))),
        None => YamlV::Mapping(tun_enabled_entries(Seq::empty(), enabled)),
    }
}

/// Whether a downloaded document looks like a Clash configuration.
pub open spec fn declares_proxies(doc: YamlV) -> bool {
    match mapping_entries(doc) {
        Some(m) => has_key(m, skey("proxies"@)) || has_key(m, skey("proxy-groups"@)),
        None => false,
    }
}

fn set_enable_untagged(v: Yaml, enabled: bool) -> (r: Yaml)
    requires
        mapping_entries(v@) is Some,
    ensures
        r@ == with_untagged(
            v@,
            YamlV::Mapping(upsert(mapping_entries(v@)->0, skey("enable"@), YamlV::Bool(enabled))),
        ),
    decreases v,
{
    match v {
        Yaml::Tagged(t, b) => Yaml::Tagged(t, Box::new(set_enable_untagged(*b, enabled))),
        Yaml::Mapping(mut t) => {
            upsert_entry(&mut t, str_key("enable"), Yaml::Bool(enabled));
            Yaml::Mapping(t)
        },
        other => other,
    }
}

fn fresh_tun_section(enabled: bool) -> (r: Yaml)
    ensures
        r@ == fresh_tun(enabled),
{
    let mut t: Vec<(Yaml, Yaml)> = Vec::new();
    proof {
        assert(Yaml::view_entries(t@) =~= Seq::<(YamlV, YamlV)>::empty());
    }
    upsert_entry(&mut t, str_key("enable"), Yaml::Bool(enabled));
    Yaml::Mapping(t)
}

fn set_tun_enabled_entries(m: &mut Vec<(Yaml, Yaml)>, enabled: bool)
    ensures
        Yaml::view_entries(final(m)@) == tun_enabled_entries(Yaml::view_entries(old(m)@), enabled),
{
    let ghost ev = Yaml::view_entries(m@);
    proof {
        lemma_view_entries(m@);
        lemma_entry_index(ev, skey("tun"@));
    }
    let k = str_key("tun");
    match find_entry(m, &k) {
        None => {
            upsert_entry(m, k, fresh_tun_section(enabled));
        },
        Some(i) => {
            if m[i].1.as_mapping().is_some() {
                let mut slot = (Yaml::Null, Yaml::Null);
                m.set_and_swap(i, &mut slot);
                let (key, val) = slot;
                let nv = set_enable_untagged(val, enabled);
                m.set(i, (key, nv));
                proof {
                    lemma_view_entries(m@);
                    assert(Yaml::view_entries(m@) =~= ev.update(i as int, (ev[i as int].0, nv@)));
                }
            } else {
                upsert_entry(m, k, fresh_tun_section(enabled));
            }
        },
    }
}

fn set_tun_enabled_untagged(doc: Yaml, enabled: bool) -> (r: Yaml)
    requires
        mapping_entries(doc@) is Some,
    ensures
        r@ == with_untagged(doc@, YamlV::Mapping(tun_enabled_entries(mapping_entries(doc@)->0, enabled))),
    decreases doc,
{
    match doc {
        Yaml::Tagged(t, b) => Yaml::Tagged(t, Box::new(set_tun_enabled_untagged(*b, enabled))),
        Yaml::Mapping(mut m) => {
            set_tun_enabled_entries(&mut m, enabled);
            Yaml::Mapping(m)
        },
        other => other,
    }
}

/// Set `tun.enable` in a configuration document.
pub fn set_tun_enabled(doc: Yaml, enabled: bool) -> (r: Yaml)
    ensures
        r@ == with_tun_enabled(doc@, enabled),
{
    if doc.as_mapping().is_some() {
        set_tun_enabled_untagged(doc, enabled)
    } else {
        let mut m: Vec<(Yaml, Yaml)> = Vec::new();
        proof {
            assert(Yaml::view_entries(m@) =~= Seq::<(YamlV, YamlV)>::empty());
        }
        set_tun_enabled_entries(&mut m, enabled);
        Yaml::Mapping(m)
    }
}

/// Whether a downloaded document has a `proxies` or `proxy-groups` key.
pub fn has_proxies(doc: &Yaml) -> (r: bool)
    ensures
        r == declares_proxies(doc@),
{
    match doc.as_mapping() {
        Some(m) => {
            let a = find_entry(m, &str_key("proxies"));
            let b = find_entry(m, &str_key("proxy-groups"));
            a.is_some() || b.is_some()
        },
        None => false,
    }
}

} // verus!
