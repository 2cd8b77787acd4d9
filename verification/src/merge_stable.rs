use vstd::prelude::*;
use crate::yaml::YamlV;
use crate::mapping::{
    has_key, lookup, upsert, keys_unique, mapping_entries, section, section_or_empty, skey,
    lemma_entry_index, lemma_lookup_upsert_same, lemma_lookup_upsert_other, entry_index, yaml_wf,
    lemma_wf_mapping_entries, lemma_wf_section_unique,
};
use crate::merge::{
    mandatory_keys, tun_whitelist, copy_keys, upsert_all, fill_missing, merge_mandatory,
    merged_tun, merged_dns, merged_geox, merge_tun, merge_dns, merge_geox, merge_entries,
    with_untagged, merged_document,
};
use crate::merge_laws::{
    listed, lemma_copy_keys_lookup, lemma_fill_missing_lookup, lemma_upsert_all_unique,
    lemma_merge_keys_distinct, lemma_with_untagged_mapping,
};

verus! {

/// Storing the value that a key already has changes nothing.
proof fn lemma_upsert_present(m: Seq<(YamlV, YamlV)>, k: YamlV, v: YamlV)
    requires
        lookup(m, k) == Some(v),
    ensures
        upsert(m, k, v) == m,
{
    let i = entry_index(m, k);
    lemma_entry_index(m, k);
    assert(m.update(i, (m[i].0, v)) =~= m);
}

/// `has_key` after a store.
proof fn lemma_has_key_upsert(m: Seq<(YamlV, YamlV)>, k: YamlV, v: YamlV, k2: YamlV)
    ensures
        has_key(m, k2) ==> has_key(upsert(m, k, v), k2),
{
    if k2 == k {
        lemma_lookup_upsert_same(m, k, v);
    } else {
        lemma_lookup_upsert_other(m, k, v, k2);
    }
}

/// Every entry's key is a key of the mapping.
proof fn lemma_has_own_key(m: Seq<(YamlV, YamlV)>, i: int)
    requires
        0 <= i < m.len(),
    ensures
        has_key(m, m[i].0),
{
    lemma_entry_index(m, m[i].0);
}

/// `copy_keys` changes nothing when the target already holds, under every listed
/// key, what the source has there.
proof fn lemma_copy_keys_noop(m: Seq<(YamlV, YamlV)>, s: Seq<(YamlV, YamlV)>, keys: Seq<Seq<char>>)
    requires
        forall|k: YamlV| listed(keys, k) && lookup(s, k) is Some ==> lookup(m, k) == lookup(s, k),
    ensures
        copy_keys(m, s, keys) == m,
    decreases keys.len(),
{
    if keys.len() > 0 {
        let ks = keys.drop_last();
        assert forall|k: YamlV| listed(ks, k) && lookup(s, k) is Some implies lookup(m, k) == lookup(s, k) by {
            let i = choose|i: int| 0 <= i < ks.len() && skey(ks[i]) == k;
            assert(skey(keys[i]) == k);
        }
        lemma_copy_keys_noop(m, s, ks);
        let x = skey(keys.last());
        assert(listed(keys, x)) by {
            assert(skey(keys[keys.len() - 1]) == x);
        }
        match lookup(s, x) {
            Some(v) => lemma_upsert_present(m, x, v),
            None => {},
        }
    }
}

/// Copying the listed keys from `t` gives what copying them from `s` gave, when
/// `t` holds under each listed key what `s` has there, else what `base` has there.
proof fn lemma_copy_keys_same(
    base: Seq<(YamlV, YamlV)>,
    s: Seq<(YamlV, YamlV)>,
    t: Seq<(YamlV, YamlV)>,
    keys: Seq<Seq<char>>,
)
    requires
        forall|k: YamlV|
            listed(keys, k) ==> lookup(t, k) == (if lookup(s, k) is Some {
                lookup(s, k)
            } else {
                lookup(base, k)
            }),
    ensures
        copy_keys(base, t, keys) == copy_keys(base, s, keys),
    decreases keys.len(),
{
    if keys.len() > 0 {
        let ks = keys.drop_last();
        assert forall|k: YamlV| listed(ks, k) implies lookup(t, k) == (if lookup(s, k) is Some {
            lookup(s, k)
        } else {
            lookup(base, k)
        }) by {
            let i = choose|i: int| 0 <= i < ks.len() && skey(ks[i]) == k;
            assert(skey(keys[i]) == k);
        }
        lemma_copy_keys_same(base, s, t, ks);
        let x = skey(keys.last());
        assert(listed(keys, x)) by {
            assert(skey(keys[keys.len() - 1]) == x);
        }
        let r = copy_keys(base, s, ks);
        if lookup(s, x) is None {
            match lookup(t, x) {
                Some(v) => {
                    lemma_copy_keys_lookup(base, s, ks, x);
                    lemma_upsert_present(r, x, v);
                },
                None => {},
            }
        }
    }
}

/// `fill_missing` changes nothing when every key of `entries` is present already.
proof fn lemma_fill_missing_noop(m: Seq<(YamlV, YamlV)>, entries: Seq<(YamlV, YamlV)>)
    requires
        forall|i: int| 0 <= i < entries.len() ==> has_key(m, #[trigger] entries[i].0),
    ensures
        fill_missing(m, entries) == m,
    decreases entries.len(),
{
    if entries.len() > 0 {
        let e = entries.drop_last();
        assert forall|i: int| 0 <= i < e.len() implies has_key(m, #[trigger] e[i].0) by {
            assert(e[i] == entries[i]);
        }
        lemma_fill_missing_noop(m, e);
        assert(has_key(m, entries[entries.len() - 1].0));
    }
}

/// `upsert_all` keeps the keys at the positions that `m` had.
proof fn lemma_upsert_all_prefix_keys(m: Seq<(YamlV, YamlV)>, entries: Seq<(YamlV, YamlV)>)
    ensures
        upsert_all(m, entries).len() >= m.len(),
        forall|i: int| 0 <= i < m.len() ==> (#[trigger] upsert_all(m, entries)[i]).0 == m[i].0,
    decreases entries.len(),
{
    if entries.len() > 0 {
        lemma_upsert_all_prefix_keys(m, entries.drop_last());
        let r = upsert_all(m, entries.drop_last());
        let k = entries.last().0;
        lemma_entry_index(r, k);
        let u = upsert(r, k, entries.last().1);
        assert forall|i: int| 0 <= i < m.len() implies (#[trigger] u[i]).0 == m[i].0 by {
            assert(r[i].0 == m[i].0);
        }
    }
}

/// The position of the first entry for a key, found from the entries themselves.
proof fn lemma_entry_index_at(m: Seq<(YamlV, YamlV)>, k: YamlV, i: int)
    requires
        0 <= i < m.len(),
        m[i].0 == k,
        forall|j: int| 0 <= j < i ==> #[trigger] m[j].0 != k,
    ensures
        entry_index(m, k) == i,
{
    lemma_entry_index(m, k);
}

/// What storing the first `j` entries of `g` into `b` gives, when `g` begins with
/// the keys of `b` and has unique keys.
proof fn lemma_upsert_all_over_prefix(b: Seq<(YamlV, YamlV)>, g: Seq<(YamlV, YamlV)>, j: int)
    requires
        0 <= j <= g.len(),
        g.len() >= b.len(),
        forall|i: int| 0 <= i < b.len() ==> (#[trigger] g[i]).0 == b[i].0,
        keys_unique(g),
    ensures
        upsert_all(b, g.take(j)) == g.take(j) + (if j < b.len() {
            b.skip(j)
        } else {
            Seq::empty()
        }),
    decreases j,
{
    if j == 0 {
        assert(g.take(0) =~= Seq::<(YamlV, YamlV)>::empty());
        assert(g.take(0) + b.skip(0) =~= b);
        if b.len() == 0 {
            assert(g.take(0) + Seq::<(YamlV, YamlV)>::empty() =~= b);
        }
    } else {
        lemma_upsert_all_over_prefix(b, g, j - 1);
        let gj = g.take(j);
        assert(gj.drop_last() =~= g.take(j - 1));
        assert(gj.last() == g[j - 1]);
        let x = g.take(j - 1) + (if j - 1 < b.len() {
            b.skip(j - 1)
        } else {
            Seq::<(YamlV, YamlV)>::empty()
        });
        let k = g[j - 1].0;
        assert forall|i: int| 0 <= i < j - 1 implies #[trigger] x[i].0 != k by {
            assert(x[i] == g[i]);
        }
        if j - 1 < b.len() {
            assert(x[j - 1] == b[j - 1]);
            lemma_entry_index_at(x, k, j - 1);
            let u = upsert(x, k, g[j - 1].1);
            assert(u == x.update(j - 1, (x[j - 1].0, g[j - 1].1)));
            let want = gj + (if j < b.len() {
                b.skip(j)
            } else {
                Seq::<(YamlV, YamlV)>::empty()
            });
            assert(u =~= want);
        } else {
            assert(x =~= g.take(j - 1));
            lemma_entry_index(x, k);
            assert(upsert(x, k, g[j - 1].1) =~= gj + Seq::<(YamlV, YamlV)>::empty());
        }
    }
}

/// Storing into `b` the entries of what `upsert_all` made from `b` gives it back,
/// when the keys of `b` are unique.
proof fn lemma_upsert_all_again(b: Seq<(YamlV, YamlV)>, e: Seq<(YamlV, YamlV)>)
    requires
        keys_unique(b),
    ensures
        upsert_all(b, upsert_all(b, e)) == upsert_all(b, e),
{
    let g = upsert_all(b, e);
    lemma_upsert_all_prefix_keys(b, e);
    lemma_upsert_all_unique(b, e);
    lemma_upsert_all_over_prefix(b, g, g.len() as int);
    assert(g.take(g.len() as int) =~= g);
    assert(g + Seq::<(YamlV, YamlV)>::empty() =~= g);
}

/// Replacing the untagged node of a node whose untagged node was replaced before.
proof fn lemma_with_untagged_twice(v: YamlV, x: Seq<(YamlV, YamlV)>, y: YamlV)
    ensures
        with_untagged(with_untagged(v, YamlV::Mapping(x)), y) == with_untagged(v, y),
    decreases v,
{
    match v {
        YamlV::Tagged(_, b) => lemma_with_untagged_twice(*b, x, y),
        _ => {},
    }
}

/// Merging the entries of an already merged document changes nothing, when the
/// override's `geox-url` section has no key twice.
proof fn lemma_merge_entries_stable(m: Seq<(YamlV, YamlV)>, o: Seq<(YamlV, YamlV)>, is_tun: bool)
    requires
        keys_unique(section_or_empty(o, skey("geox-url"@))),
    ensures
        merge_entries(merge_entries(m, o, is_tun), o, is_tun) == merge_entries(m, o, is_tun),
{
    lemma_merge_keys_distinct();
    let tk = skey("tun"@);
    let dk = skey("dns"@);
    let gk = skey("geox-url"@);
    let ek = skey("enable"@);
    let lk = skey("listen"@);
    let m1 = merge_mandatory(m, o);
    let t = merged_tun(m1, o, is_tun);
    let m2 = merge_tun(m1, o, is_tun);
    let d = merged_dns(m2, o);
    let m3 = merge_dns(m2, o);
    let g = merged_geox(m3, o);
    let mm = merge_geox(m3, o);
    assert(mm == merge_entries(m, o, is_tun));
    // what the merged entries hold
    lemma_lookup_upsert_same(m3, gk, YamlV::Mapping(g));
    lemma_lookup_upsert_same(m2, dk, YamlV::Mapping(d));
    lemma_lookup_upsert_other(m3, gk, YamlV::Mapping(g), dk);
    lemma_lookup_upsert_same(m1, tk, YamlV::Mapping(t));
    lemma_lookup_upsert_other(m2, dk, YamlV::Mapping(d), tk);
    lemma_lookup_upsert_other(m3, gk, YamlV::Mapping(g), tk);
    assert(lookup(mm, tk) == Some(YamlV::Mapping(t)));
    assert(lookup(mm, dk) == Some(YamlV::Mapping(d)));
    assert(lookup(mm, gk) == Some(YamlV::Mapping(g)));
    // level 1
    assert forall|k: YamlV| listed(mandatory_keys(), k) && lookup(o, k) is Some implies lookup(mm, k)
        == lookup(o, k) by {
        lemma_copy_keys_lookup(m, o, mandatory_keys(), k);
        assert(k != tk && k != dk && k != gk);
        lemma_lookup_upsert_other(m1, tk, YamlV::Mapping(t), k);
        lemma_lookup_upsert_other(m2, dk, YamlV::Mapping(d), k);
        lemma_lookup_upsert_other(m3, gk, YamlV::Mapping(g), k);
    }
    lemma_copy_keys_noop(mm, o, mandatory_keys());
    assert(merge_mandatory(mm, o) == mm);
    // level 2
    let base = section_or_empty(o, tk);
    let s = section_or_empty(m1, tk);
    let w = copy_keys(base, s, tun_whitelist());
    assert(w == (match section(m1, tk) {
        Some(sub) => copy_keys(base, sub, tun_whitelist()),
        None => base,
    })) by {
        if section(m1, tk) is None {
            lemma_copy_keys_noop(base, Seq::<(YamlV, YamlV)>::empty(), tun_whitelist());
        }
    }
    assert(t == upsert(w, ek, YamlV::Bool(is_tun)));
    assert forall|k: YamlV| listed(tun_whitelist(), k) implies lookup(t, k) == (if lookup(s, k) is Some {
        lookup(s, k)
    } else {
        lookup(base, k)
    }) by {
        assert(k != ek);
        lemma_lookup_upsert_other(w, ek, YamlV::Bool(is_tun), k);
        lemma_copy_keys_lookup(base, s, tun_whitelist(), k);
    }
    lemma_copy_keys_same(base, s, t, tun_whitelist());
    assert(section(mm, tk) == Some(t));
    assert(merged_tun(mm, o, is_tun) == t);
    lemma_upsert_present(mm, tk, YamlV::Mapping(t));
    assert(merge_tun(mm, o, is_tun) == mm);
    // level 3
    let r = match section(m2, dk) {
        Some(sub) => match section(o, dk) {
            Some(od) => fill_missing(sub, od),
            None => sub,
        },
        None => section_or_empty(o, dk),
    };
    let r1 = upsert(r, ek, YamlV::Bool(true));
    assert(d == upsert(r1, lk, YamlV::Str("0.0.0.0:1053"@)));
    match section(o, dk) {
        Some(od) => {
            assert forall|i: int| 0 <= i < od.len() implies has_key(d, #[trigger] od[i].0) by {
                lemma_has_own_key(od, i);
                match section(m2, dk) {
                    Some(sub) => lemma_fill_missing_lookup(sub, od, od[i].0),
                    None => {},
                }
                lemma_has_key_upsert(r, ek, YamlV::Bool(true), od[i].0);
                lemma_has_key_upsert(r1, lk, YamlV::Str("0.0.0.0:1053"@), od[i].0);
            }
            lemma_fill_missing_noop(d, od);
        },
        None => {},
    }
    lemma_lookup_upsert_same(r, ek, YamlV::Bool(true));
    lemma_lookup_upsert_other(r1, lk, YamlV::Str("0.0.0.0:1053"@), ek);
    lemma_upsert_present(d, ek, YamlV::Bool(true));
    lemma_lookup_upsert_same(r1, lk, YamlV::Str("0.0.0.0:1053"@));
    lemma_upsert_present(d, lk, YamlV::Str("0.0.0.0:1053"@));
    assert(section(mm, dk) == Some(d));
    assert(merged_dns(mm, o) == d);
    lemma_upsert_present(mm, dk, YamlV::Mapping(d));
    assert(merge_dns(mm, o) == mm);
    // level 4
    let gb = section_or_empty(o, gk);
    let sub_g = section_or_empty(m3, gk);
    assert(g == upsert_all(gb, sub_g)) by {
        if section(m3, gk) is None {
            assert(upsert_all(gb, Seq::<(YamlV, YamlV)>::empty()) == gb);
        }
    }
    lemma_upsert_all_again(gb, sub_g);
    assert(section(mm, gk) == Some(g));
    assert(merged_geox(mm, o) == g);
    lemma_upsert_present(mm, gk, YamlV::Mapping(g));
    assert(merge_geox(mm, o) == mm);
}

/// Law: merging an already merged configuration again, with the same
/// well-formed override (no mapping repeats a key, as in every parsed document)
/// and the same mode, changes nothing.
pub proof fn law_merge_stable(base: YamlV, over: YamlV, is_tun: bool)
    requires
        yaml_wf(over),
    ensures
        merged_document(base, over, is_tun) matches Some(d) ==> merged_document(d, over, is_tun)
            == Some(d),
{
    match (mapping_entries(base), mapping_entries(over)) {
        (Some(m), Some(o)) => {
            let mm = merge_entries(m, o, is_tun);
            lemma_wf_mapping_entries(over);
            lemma_wf_section_unique(o, skey("geox-url"@));
            lemma_with_untagged_mapping(base, mm);
            lemma_merge_entries_stable(m, o, is_tun);
            lemma_with_untagged_twice(base, mm, YamlV::Mapping(mm));
        },
        _ => {},
    }
}

} // verus!
