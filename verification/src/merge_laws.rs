use vstd::prelude::*;
use crate::yaml::YamlV;
use crate::mapping::{
    has_key, lookup, upsert, keys_unique, mapping_entries, section, section_or_empty, skey,
    lemma_entry_index, lemma_entry_index_push, lemma_lookup_upsert_same, lemma_lookup_upsert_other,
    lemma_upsert_unique, entry_index,
};
use crate::merge::{
    mandatory_keys, tun_whitelist, copy_keys, upsert_all, fill_missing, merge_mandatory,
    merged_tun, merged_dns, merged_geox, merge_tun, merge_dns, merge_entries,
    with_untagged, tun_enabled_entries, with_tun_enabled, fresh_tun,
};

verus! {

/// Whether `k` is the string key of one of `keys`.
pub open spec fn listed(keys: Seq<Seq<char>>, k: YamlV) -> bool {
    exists|i: int| 0 <= i < keys.len() && skey(keys[i]) == k
}

/// Reading from a mapping after an entry was appended.
pub proof fn lemma_lookup_push(m: Seq<(YamlV, YamlV)>, e: (YamlV, YamlV), k: YamlV)
    ensures
        lookup(m.push(e), k) == (if has_key(m, k) {
            lookup(m, k)
        } else if e.0 == k {
            Some(e.1)
        } else {
            None
        }),
        has_key(m.push(e), k) == (has_key(m, k) || e.0 == k),
{
    lemma_entry_index_push(m, e, k);
    lemma_entry_index(m, k);
    if entry_index(m, k) >= 0 {
        assert(m.push(e)[entry_index(m, k)] == m[entry_index(m, k)]);
    }
}

/// Reading after `copy_keys`: a listed key that the source has comes from the
/// source, every other key from the target.
pub proof fn lemma_copy_keys_lookup(
    t: Seq<(YamlV, YamlV)>,
    s: Seq<(YamlV, YamlV)>,
    keys: Seq<Seq<char>>,
    k: YamlV,
)
    ensures
        lookup(copy_keys(t, s, keys), k) == (if listed(keys, k) && lookup(s, k) is Some {
            lookup(s, k)
        } else {
            lookup(t, k)
        }),
    decreases keys.len(),
{
    if keys.len() > 0 {
        let ks = keys.drop_last();
        let x = skey(keys.last());
        lemma_copy_keys_lookup(t, s, ks, k);
        let r = copy_keys(t, s, ks);
        if x == k {
            assert(skey(keys[keys.len() - 1]) == k);
            match lookup(s, x) {
                Some(v) => lemma_lookup_upsert_same(r, x, v),
                None => {
                    if listed(ks, k) {
                        let i = choose|i: int| 0 <= i < ks.len() && skey(ks[i]) == k;
                        assert(skey(keys[i]) == k);
                    }
                },
            }
        } else {
            match lookup(s, x) {
                Some(v) => lemma_lookup_upsert_other(r, x, v, k),
                None => {},
            }
            if listed(keys, k) {
                let i = choose|i: int| 0 <= i < keys.len() && skey(keys[i]) == k;
                assert(i < keys.len() - 1);
                assert(skey(ks[i]) == k);
            }
            if listed(ks, k) {
                let i = choose|i: int| 0 <= i < ks.len() && skey(ks[i]) == k;
                assert(skey(keys[i]) == k);
            }
        }
    }
}

/// `copy_keys` keeps keys unique.
pub proof fn lemma_copy_keys_unique(t: Seq<(YamlV, YamlV)>, s: Seq<(YamlV, YamlV)>, keys: Seq<Seq<char>>)
    requires
        keys_unique(t),
    ensures
        keys_unique(copy_keys(t, s, keys)),
    decreases keys.len(),
{
    if keys.len() > 0 {
        lemma_copy_keys_unique(t, s, keys.drop_last());
        match lookup(s, skey(keys.last())) {
            Some(v) => lemma_upsert_unique(copy_keys(t, s, keys.drop_last()), skey(keys.last()), v),
            None => {},
        }
    }
}

/// Reading after `fill_missing`: what `m` has, else what `entries` has.
pub proof fn lemma_fill_missing_lookup(m: Seq<(YamlV, YamlV)>, entries: Seq<(YamlV, YamlV)>, k: YamlV)
    ensures
        lookup(fill_missing(m, entries), k) == (if has_key(m, k) {
            lookup(m, k)
        } else {
            lookup(entries, k)
        }),
        has_key(fill_missing(m, entries), k) == (has_key(m, k) || has_key(entries, k)),
    decreases entries.len(),
{
    if entries.len() > 0 {
        let e = entries.drop_last();
        let x = entries.last();
        lemma_fill_missing_lookup(m, e, k);
        lemma_fill_missing_lookup(m, e, x.0);
        assert(entries =~= e.push(x));
        lemma_lookup_push(e, x, k);
        let r = fill_missing(m, e);
        if !has_key(r, x.0) {
            if x.0 == k {
                lemma_lookup_upsert_same(r, x.0, x.1);
                lemma_entry_index(upsert(r, x.0, x.1), k);
            } else {
                lemma_lookup_upsert_other(r, x.0, x.1, k);
            }
        }
    }
}

/// `fill_missing` keeps keys unique.
pub proof fn lemma_fill_missing_unique(m: Seq<(YamlV, YamlV)>, entries: Seq<(YamlV, YamlV)>)
    requires
        keys_unique(m),
    ensures
        keys_unique(fill_missing(m, entries)),
    decreases entries.len(),
{
    if entries.len() > 0 {
        lemma_fill_missing_unique(m, entries.drop_last());
        let r = fill_missing(m, entries.drop_last());
        if !has_key(r, entries.last().0) {
            lemma_upsert_unique(r, entries.last().0, entries.last().1);
        }
    }
}

/// Reading after `upsert_all` with entries whose keys are unique: what `entries`
/// has, else what `m` has.
pub proof fn lemma_upsert_all_lookup(m: Seq<(YamlV, YamlV)>, entries: Seq<(YamlV, YamlV)>, k: YamlV)
    requires
        keys_unique(entries),
    ensures
        lookup(upsert_all(m, entries), k) == (if has_key(entries, k) {
            lookup(entries, k)
        } else {
            lookup(m, k)
        }),
    decreases entries.len(),
{
    if entries.len() > 0 {
        let e = entries.drop_last();
        let x = entries.last();
        assert(keys_unique(e)) by {
            assert(forall|i: int| 0 <= i < e.len() ==> #[trigger] e[i] == entries[i]);
        }
        lemma_upsert_all_lookup(m, e, k);
        assert(entries =~= e.push(x));
        lemma_lookup_push(e, x, k);
        let r = upsert_all(m, e);
        if x.0 == k {
            lemma_lookup_upsert_same(r, x.0, x.1);
            assert forall|j: int| 0 <= j < e.len() implies #[trigger] e[j].0 != k by {
                assert(e[j] == entries[j]);
                assert(entries[entries.len() - 1] == x);
            }
            lemma_entry_index(e, k);
        } else {
            lemma_lookup_upsert_other(r, x.0, x.1, k);
        }
    }
}

/// `upsert_all` keeps keys unique.
pub proof fn lemma_upsert_all_unique(m: Seq<(YamlV, YamlV)>, entries: Seq<(YamlV, YamlV)>)
    requires
        keys_unique(m),
    ensures
        keys_unique(upsert_all(m, entries)),
    decreases entries.len(),
{
    if entries.len() > 0 {
        lemma_upsert_all_unique(m, entries.drop_last());
        lemma_upsert_unique(upsert_all(m, entries.drop_last()), entries.last().0, entries.last().1);
    }
}

/// The literal keys that the merge touches are pairwise different.
pub proof fn lemma_merge_keys_distinct()
    ensures
        skey("tun"@) != skey("dns"@),
        skey("tun"@) != skey("geox-url"@),
        skey("dns"@) != skey("geox-url"@),
        !listed(mandatory_keys(), skey("tun"@)),
        !listed(mandatory_keys(), skey("dns"@)),
        !listed(mandatory_keys(), skey("geox-url"@)),
        skey("enable"@) != skey("listen"@),
        !listed(tun_whitelist(), skey("enable"@)),
{
    reveal_strlit("tun");
    reveal_strlit("dns");
    reveal_strlit("geox-url");
    reveal_strlit("mixed-port");
    reveal_strlit("external-controller");
    reveal_strlit("secret");
    reveal_strlit("external-ui");
    reveal_strlit("external-ui-url");
    reveal_strlit("enable");
    reveal_strlit("listen");
    reveal_strlit("mtu");
    reveal_strlit("udp-timeout");
    assert("tun"@[0] != "dns"@[0]);
    assert("tun"@.len() != "geox-url"@.len());
    assert("dns"@.len() != "geox-url"@.len());
    assert("enable"@[0] != "listen"@[0]);
    let mk = mandatory_keys();
    assert forall|i: int| 0 <= i < mk.len() implies skey(#[trigger] mk[i]) != skey("tun"@)
        && skey(mk[i]) != skey("dns"@) && skey(mk[i]) != skey("geox-url"@) by {
        if i == 0 {
            assert(mk[i][0] != "tun"@[0] && mk[i][0] != "dns"@[0] && mk[i][0] != "geox-url"@[0]);
        } else if i == 1 {
            assert(mk[i][0] != "tun"@[0] && mk[i][0] != "dns"@[0] && mk[i][0] != "geox-url"@[0]);
        } else if i == 2 {
            assert(mk[i][0] != "tun"@[0] && mk[i][0] != "dns"@[0] && mk[i][0] != "geox-url"@[0]);
        } else if i == 3 {
            assert(mk[i][0] != "tun"@[0] && mk[i][0] != "dns"@[0] && mk[i][0] != "geox-url"@[0]);
        } else {
            assert(mk[i][0] != "tun"@[0] && mk[i][0] != "dns"@[0] && mk[i][0] != "geox-url"@[0]);
        }
    }
    let tw = tun_whitelist();
    assert forall|i: int| 0 <= i < tw.len() implies skey(#[trigger] tw[i]) != skey("enable"@) by {
        assert(tw[i][0] != "enable"@[0]);
    }
}

/// Merge law, level 1: a mandatory key takes the override's value when the
/// override has it, and keeps the subscription's value otherwise.
pub proof fn law_merge_mandatory(m: Seq<(YamlV, YamlV)>, o: Seq<(YamlV, YamlV)>, is_tun: bool, k: YamlV)
    requires
        listed(mandatory_keys(), k),
    ensures
        lookup(merge_entries(m, o, is_tun), k) == (if lookup(o, k) is Some {
            lookup(o, k)
        } else {
            lookup(m, k)
        }),
{
    lemma_merge_keys_distinct();
    let m1 = merge_mandatory(m, o);
    let m2 = merge_tun(m1, o, is_tun);
    let m3 = merge_dns(m2, o);
    lemma_lookup_upsert_other(m3, skey("geox-url"@), YamlV::Mapping(merged_geox(m3, o)), k);
    lemma_lookup_upsert_other(m2, skey("dns"@), YamlV::Mapping(merged_dns(m2, o)), k);
    lemma_lookup_upsert_other(m1, skey("tun"@), YamlV::Mapping(merged_tun(m1, o, is_tun)), k);
    lemma_copy_keys_lookup(m, o, mandatory_keys(), k);
}

/// Merge law, other keys: a top-level key that no level is about keeps the
/// subscription's value.
pub proof fn law_merge_other_keys(m: Seq<(YamlV, YamlV)>, o: Seq<(YamlV, YamlV)>, is_tun: bool, k: YamlV)
    requires
        !listed(mandatory_keys(), k),
        k != skey("tun"@),
        k != skey("dns"@),
        k != skey("geox-url"@),
    ensures
        lookup(merge_entries(m, o, is_tun), k) == lookup(m, k),
{
    let m1 = merge_mandatory(m, o);
    let m2 = merge_tun(m1, o, is_tun);
    let m3 = merge_dns(m2, o);
    lemma_lookup_upsert_other(m3, skey("geox-url"@), YamlV::Mapping(merged_geox(m3, o)), k);
    lemma_lookup_upsert_other(m2, skey("dns"@), YamlV::Mapping(merged_dns(m2, o)), k);
    lemma_lookup_upsert_other(m1, skey("tun"@), YamlV::Mapping(merged_tun(m1, o, is_tun)), k);
    lemma_copy_keys_lookup(m, o, mandatory_keys(), k);
}

/// The levels before `k`'s own level leave the subscription's value under `k`.
proof fn lemma_sections_before(m: Seq<(YamlV, YamlV)>, o: Seq<(YamlV, YamlV)>, is_tun: bool)
    ensures
        lookup(merge_mandatory(m, o), skey("tun"@)) == lookup(m, skey("tun"@)),
        lookup(merge_tun(merge_mandatory(m, o), o, is_tun), skey("dns"@)) == lookup(m, skey("dns"@)),
        lookup(merge_dns(merge_tun(merge_mandatory(m, o), o, is_tun), o), skey("geox-url"@)) == lookup(
            m,
            skey("geox-url"@),
        ),
{
    lemma_merge_keys_distinct();
    let m1 = merge_mandatory(m, o);
    let m2 = merge_tun(m1, o, is_tun);
    lemma_copy_keys_lookup(m, o, mandatory_keys(), skey("tun"@));
    lemma_copy_keys_lookup(m, o, mandatory_keys(), skey("dns"@));
    lemma_copy_keys_lookup(m, o, mandatory_keys(), skey("geox-url"@));
    lemma_lookup_upsert_other(m1, skey("tun"@), YamlV::Mapping(merged_tun(m1, o, is_tun)), skey("dns"@));
    lemma_lookup_upsert_other(m1, skey("tun"@), YamlV::Mapping(merged_tun(m1, o, is_tun)), skey("geox-url"@));
    lemma_lookup_upsert_other(m2, skey("dns"@), YamlV::Mapping(merged_dns(m2, o)), skey("geox-url"@));
}

/// Merge law, level 2: the merged `tun` section has `enable` set to the running
/// mode, takes `mtu` and `udp-timeout` from the subscription when it sets them, and
/// takes everything else from the override's `tun` section.
pub proof fn law_merge_tun(m: Seq<(YamlV, YamlV)>, o: Seq<(YamlV, YamlV)>, is_tun: bool, k: YamlV)
    ensures
        section(merge_entries(m, o, is_tun), skey("tun"@)) is Some,
        lookup(section(merge_entries(m, o, is_tun), skey("tun"@))->0, skey("enable"@)) == Some(
            YamlV::Bool(is_tun),
        ),
        k != skey("enable"@) ==> lookup(section(merge_entries(m, o, is_tun), skey("tun"@))->0, k) == (
        if listed(tun_whitelist(), k) && section(m, skey("tun"@)) is Some && lookup(
            section(m, skey("tun"@))->0,
            k,
        ) is Some {
            lookup(section(m, skey("tun"@))->0, k)
        } else {
            lookup(section_or_empty(o, skey("tun"@)), k)
        }),
{
    lemma_merge_keys_distinct();
    lemma_sections_before(m, o, is_tun);
    let m1 = merge_mandatory(m, o);
    let m2 = merge_tun(m1, o, is_tun);
    let m3 = merge_dns(m2, o);
    let t = merged_tun(m1, o, is_tun);
    lemma_lookup_upsert_same(m1, skey("tun"@), YamlV::Mapping(t));
    lemma_lookup_upsert_other(m2, skey("dns"@), YamlV::Mapping(merged_dns(m2, o)), skey("tun"@));
    lemma_lookup_upsert_other(m3, skey("geox-url"@), YamlV::Mapping(merged_geox(m3, o)), skey("tun"@));
    let base = section_or_empty(o, skey("tun"@));
    let with_sub = match section(m1, skey("tun"@)) {
        Some(sub) => copy_keys(base, sub, tun_whitelist()),
        None => base,
    };
    lemma_lookup_upsert_same(with_sub, skey("enable"@), YamlV::Bool(is_tun));
    if k != skey("enable"@) {
        lemma_lookup_upsert_other(with_sub, skey("enable"@), YamlV::Bool(is_tun), k);
        match section(m1, skey("tun"@)) {
            Some(sub) => lemma_copy_keys_lookup(base, sub, tun_whitelist(), k),
            None => {},
        }
    }
}

/// Merge law, level 2, by name: in the merged `tun` section, every field other
/// than `mtu`, `udp-timeout` and `enable` is the override's; `mtu` and
/// `udp-timeout` are the subscription's whenever its `tun` section sets them.
pub proof fn law_merge_tun_fields(m: Seq<(YamlV, YamlV)>, o: Seq<(YamlV, YamlV)>, is_tun: bool, k: YamlV)
    ensures
        k != skey("mtu"@) && k != skey("udp-timeout"@) && k != skey("enable"@) ==> lookup(
            section(merge_entries(m, o, is_tun), skey("tun"@))->0,
            k,
        ) == lookup(section_or_empty(o, skey("tun"@)), k),
        (k == skey("mtu"@) || k == skey("udp-timeout"@)) && section(m, skey("tun"@)) is Some && lookup(
            section(m, skey("tun"@))->0,
            k,
        ) is Some ==> lookup(section(merge_entries(m, o, is_tun), skey("tun"@))->0, k) == lookup(
            section(m, skey("tun"@))->0,
            k,
        ),
{
    law_merge_tun(m, o, is_tun, k);
    lemma_merge_keys_distinct();
    let wl = tun_whitelist();
    if listed(wl, k) {
        let i = choose|i: int| 0 <= i < wl.len() && skey(wl[i]) == k;
        assert(i == 0 || i == 1);
    }
    if k == skey("mtu"@) {
        assert(skey(wl[0]) == k);
    }
    if k == skey("udp-timeout"@) {
        assert(skey(wl[1]) == k);
    }
}

/// Merge law, level 3: the merged `dns` section has `enable` true and `listen` on
/// 0.0.0.0:1053; any other field comes from the subscription's `dns` section when
/// it has the field, and from the override's `dns` section otherwise.
pub proof fn law_merge_dns(m: Seq<(YamlV, YamlV)>, o: Seq<(YamlV, YamlV)>, is_tun: bool, k: YamlV)
    ensures
        section(merge_entries(m, o, is_tun), skey("dns"@)) is Some,
        lookup(section(merge_entries(m, o, is_tun), skey("dns"@))->0, skey("enable"@)) == Some(
            YamlV::Bool(true),
        ),
        lookup(section(merge_entries(m, o, is_tun), skey("dns"@))->0, skey("listen"@)) == Some(
            YamlV::Str("0.0.0.0:1053"@),
        ),
        k != skey("enable"@) && k != skey("listen"@) ==> lookup(
            section(merge_entries(m, o, is_tun), skey("dns"@))->0,
            k,
        ) == (if section(m, skey("dns"@)) is Some && has_key(section(m, skey("dns"@))->0, k) {
            lookup(section(m, skey("dns"@))->0, k)
        } else {
            lookup(section_or_empty(o, skey("dns"@)), k)
        }),
{
    lemma_merge_keys_distinct();
    lemma_sections_before(m, o, is_tun);
    let m1 = merge_mandatory(m, o);
    let m2 = merge_tun(m1, o, is_tun);
    let m3 = merge_dns(m2, o);
    let d = merged_dns(m2, o);
    lemma_lookup_upsert_same(m2, skey("dns"@), YamlV::Mapping(d));
    lemma_lookup_upsert_other(m3, skey("geox-url"@), YamlV::Mapping(merged_geox(m3, o)), skey("dns"@));
    let r = match section(m2, skey("dns"@)) {
        Some(sub) => match section(o, skey("dns"@)) {
            Some(od) => fill_missing(sub, od),
            None => sub,
        },
        None => section_or_empty(o, skey("dns"@)),
    };
    let r1 = upsert(r, skey("enable"@), YamlV::Bool(true));
    lemma_lookup_upsert_same(r1, skey("listen"@), YamlV::Str("0.0.0.0:1053"@));
    lemma_lookup_upsert_same(r, skey("enable"@), YamlV::Bool(true));
    lemma_lookup_upsert_other(r1, skey("listen"@), YamlV::Str("0.0.0.0:1053"@), skey("enable"@));
    if k != skey("enable"@) && k != skey("listen"@) {
        lemma_lookup_upsert_other(r1, skey("listen"@), YamlV::Str("0.0.0.0:1053"@), k);
        lemma_lookup_upsert_other(r, skey("enable"@), YamlV::Bool(true), k);
        match section(m2, skey("dns"@)) {
            Some(sub) => match section(o, skey("dns"@)) {
                Some(od) => lemma_fill_missing_lookup(sub, od, k),
                None => {
                    lemma_entry_index(sub, k);
                    lemma_entry_index(Seq::<(YamlV, YamlV)>::empty(), k);
                },
            },
            None => {},
        }
    }
}

/// Merge law, level 4: a field of the merged `geox-url` section comes from the
/// subscription's section when it sets the field, and from the override's otherwise.
pub proof fn law_merge_geox(m: Seq<(YamlV, YamlV)>, o: Seq<(YamlV, YamlV)>, is_tun: bool, k: YamlV)
    requires
        section(m, skey("geox-url"@)) matches Some(sub) ==> keys_unique(sub),
    ensures
        section(merge_entries(m, o, is_tun), skey("geox-url"@)) is Some,
        lookup(section(merge_entries(m, o, is_tun), skey("geox-url"@))->0, k) == (
        if section(m, skey("geox-url"@)) is Some && has_key(section(m, skey("geox-url"@))->0, k) {
            lookup(section(m, skey("geox-url"@))->0, k)
        } else {
            lookup(section_or_empty(o, skey("geox-url"@)), k)
        }),
{
    lemma_sections_before(m, o, is_tun);
    let m1 = merge_mandatory(m, o);
    let m2 = merge_tun(m1, o, is_tun);
    let m3 = merge_dns(m2, o);
    lemma_lookup_upsert_same(m3, skey("geox-url"@), YamlV::Mapping(merged_geox(m3, o)));
    match section(m3, skey("geox-url"@)) {
        Some(sub) => lemma_upsert_all_lookup(section_or_empty(o, skey("geox-url"@)), sub, k),
        None => {},
    }
}

/// Merge law, validity: when the subscription's top-level keys are unique, so are
/// the merged document's.
pub proof fn law_merge_keeps_keys_unique(m: Seq<(YamlV, YamlV)>, o: Seq<(YamlV, YamlV)>, is_tun: bool)
    requires
        keys_unique(m),
    ensures
        keys_unique(merge_entries(m, o, is_tun)),
{
    let m1 = merge_mandatory(m, o);
    lemma_copy_keys_unique(m, o, mandatory_keys());
    let m2 = merge_tun(m1, o, is_tun);
    lemma_upsert_unique(m1, skey("tun"@), YamlV::Mapping(merged_tun(m1, o, is_tun)));
    let m3 = merge_dns(m2, o);
    lemma_upsert_unique(m2, skey("dns"@), YamlV::Mapping(merged_dns(m2, o)));
    lemma_upsert_unique(m3, skey("geox-url"@), YamlV::Mapping(merged_geox(m3, o)));
}


/// Replacing the innermost node by a mapping gives a node that is that mapping
/// once its tags are taken off.
pub proof fn lemma_with_untagged_mapping(v: YamlV, t: Seq<(YamlV, YamlV)>)
    ensures
        mapping_entries(with_untagged(v, YamlV::Mapping(t))) == Some(t),
    decreases v,
{
    match v {
        YamlV::Tagged(_, b) => lemma_with_untagged_mapping(*b, t),
        _ => {},
    }
}

/// Law of `set_tun_enabled`: every top-level key but `tun` keeps its value;
/// afterwards `tun` is a mapping whose `enable` is the given flag and whose other
/// fields are those of the former `tun` mapping (none when `tun` was absent or not
/// a mapping).
pub proof fn law_set_tun_enabled(m: Seq<(YamlV, YamlV)>, enabled: bool, k: YamlV, f: YamlV)
    ensures
        k != skey("tun"@) ==> lookup(tun_enabled_entries(m, enabled), k) == lookup(m, k),
        section(tun_enabled_entries(m, enabled), skey("tun"@)) is Some,
        lookup(section(tun_enabled_entries(m, enabled), skey("tun"@))->0, skey("enable"@)) == Some(
            YamlV::Bool(enabled),
        ),
        f != skey("enable"@) ==> lookup(section(tun_enabled_entries(m, enabled), skey("tun"@))->0, f)
            == lookup(section_or_empty(m, skey("tun"@)), f),
{
    let tk = skey("tun"@);
    let ek = skey("enable"@);
    let e = Seq::<(YamlV, YamlV)>::empty();
    let (t, nv) = match lookup(m, tk) {
        Some(v) => match mapping_entries(v) {
            Some(t) => (t, with_untagged(v, YamlV::Mapping(upsert(t, ek, YamlV::Bool(enabled))))),
            None => (e, fresh_tun(enabled)),
        },
        None => (e, fresh_tun(enabled)),
    };
    assert(t == section_or_empty(m, tk));
    assert(tun_enabled_entries(m, enabled) == upsert(m, tk, nv));
    lemma_lookup_upsert_same(m, tk, nv);
    if k != tk {
        lemma_lookup_upsert_other(m, tk, nv, k);
    }
    lemma_with_untagged_mapping(nv, upsert(t, ek, YamlV::Bool(enabled)));
    match lookup(m, tk) {
        Some(v) => match mapping_entries(v) {
            Some(t2) => lemma_with_untagged_mapping(v, upsert(t2, ek, YamlV::Bool(enabled))),
            None => {},
        },
        None => {},
    }
    lemma_lookup_upsert_same(t, ek, YamlV::Bool(enabled));
    if f != ek {
        lemma_lookup_upsert_other(t, ek, YamlV::Bool(enabled), f);
    }
}

/// Law of `set_tun_enabled` on whole documents: the result is always a mapping,
/// whose entries are those of the document (none when it was not a mapping) with
/// `tun.enable` set as `law_set_tun_enabled` describes.
pub proof fn law_set_tun_enabled_document(doc: YamlV, enabled: bool)
    ensures
        mapping_entries(with_tun_enabled(doc, enabled)) == Some(
            tun_enabled_entries(
                match mapping_entries(doc) {
                    Some(m) => m,
                    None => Seq::empty(),
                },
                enabled,
            ),
        ),
{
    match mapping_entries(doc) {
        Some(m) => lemma_with_untagged_mapping(doc, tun_enabled_entries(m, enabled)),
        None => {},
    }
}

} // verus!
