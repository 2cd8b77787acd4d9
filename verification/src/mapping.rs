use vstd::prelude::*;
use vstd::pervasive::VecAdditionalExecFns;
use crate::yaml::{Yaml, YamlV, lemma_view_entries, lemma_view_entries_ext};

verus! {

broadcast use vstd::std_specs::vec::axiom_vec_index_decreases;

/// Position of the first entry whose key is `k`, or -1 when there is none.
pub open spec fn entry_index(m: Seq<(YamlV, YamlV)>, k: YamlV) -> int
    decreases m.len(),
{
    if m.len() == 0 {
        -1
    } else {
        let i = entry_index(m.drop_last(), k);
        if i >= 0 {
            i
        } else if m.last().0 == k {
            m.len() - 1
        } else {
            -1
        }
    }
}

/// Whether the mapping has an entry for `k`.
pub open spec fn has_key(m: Seq<(YamlV, YamlV)>, k: YamlV) -> bool {
    entry_index(m, k) >= 0
}

/// The value stored under `k`.
pub open spec fn lookup(m: Seq<(YamlV, YamlV)>, k: YamlV) -> Option<YamlV> {
    let i = entry_index(m, k);
    if i >= 0 {
        Some(m[i].1)
    } else {
        None
    }
}

/// Store `v` under `k`: an existing entry keeps its place and gets the new value,
/// a new key is appended at the end.
pub open spec fn upsert(m: Seq<(YamlV, YamlV)>, k: YamlV, v: YamlV) -> Seq<(YamlV, YamlV)> {
    let i = entry_index(m, k);
    if i >= 0 {
        m.update(i, (m[i].0, v))
    } else {
        m.push((k, v))
    }
}

/// No key occurs twice.
pub open spec fn keys_unique(m: Seq<(YamlV, YamlV)>) -> bool {
    forall|i: int, j: int| 0 <= i < j < m.len() ==> m[i].0 != m[j].0
}

/// A well-formed document: no mapping, at any depth, holds a key twice. Every
/// document that `serde_yaml` parses is well-formed, since its mappings refuse a
/// repeated key.
pub open spec fn yaml_wf(v: YamlV) -> bool
    decreases v,
{
    match v {
        YamlV::Sequence(s) => list_wf(s),
        YamlV::Mapping(m) => keys_unique(m) && entries_wf(m),
        YamlV::Tagged(_, b) => yaml_wf(*b),
        _ => true,
    }
}

/// Every node of the list is well-formed.
pub open spec fn list_wf(s: Seq<YamlV>) -> bool
    decreases s,
{
    if s.len() == 0 {
        true
    } else {
        list_wf(s.drop_last()) && yaml_wf(s.last())
    }
}

/// Every key and value of the entries is well-formed.
pub open spec fn entries_wf(m: Seq<(YamlV, YamlV)>) -> bool
    decreases m,
{
    if m.len() == 0 {
        true
    } else {
        entries_wf(m.drop_last()) && yaml_wf(m.last().0) && yaml_wf(m.last().1)
    }
}

/// The values of well-formed entries are well-formed.
pub proof fn lemma_entries_wf_value(m: Seq<(YamlV, YamlV)>, i: int)
    requires
        entries_wf(m),
        0 <= i < m.len(),
    ensures
        yaml_wf(m[i].1),
    decreases m.len(),
{
    if i < m.len() - 1 {
        lemma_entries_wf_value(m.drop_last(), i);
        assert(m.drop_last()[i] == m[i]);
    }
}

/// A well-formed node that is a mapping once untagged has unique, well-formed entries.
pub proof fn lemma_wf_mapping_entries(v: YamlV)
    requires
        yaml_wf(v),
        mapping_entries(v) is Some,
    ensures
        keys_unique(mapping_entries(v)->0),
        entries_wf(mapping_entries(v)->0),
    decreases v,
{
    match v {
        YamlV::Tagged(_, b) => lemma_wf_mapping_entries(*b),
        _ => {},
    }
}

/// A section of well-formed entries has unique keys.
pub proof fn lemma_wf_section_unique(m: Seq<(YamlV, YamlV)>, k: YamlV)
    requires
        entries_wf(m),
    ensures
        keys_unique(section_or_empty(m, k)),
{
    lemma_entry_index(m, k);
    match lookup(m, k) {
        Some(v) => {
            lemma_entries_wf_value(m, entry_index(m, k));
            if mapping_entries(v) is Some {
                lemma_wf_mapping_entries(v);
            }
        },
        None => {},
    }
}

/// The node with every tag taken off.
pub open spec fn untag(v: YamlV) -> YamlV
    decreases v,
{
    match v {
        YamlV::Tagged(_, b) => untag(*b),
        _ => v,
    }
}

/// The entries of a node that is a mapping once its tags are taken off.
pub open spec fn mapping_entries(v: YamlV) -> Option<Seq<(YamlV, YamlV)>> {
    match untag(v) {
        YamlV::Mapping(m) => Some(m),
        _ => None,
    }
}

/// The entries of the mapping stored under `k`, if the value there is a mapping.
pub open spec fn section(m: Seq<(YamlV, YamlV)>, k: YamlV) -> Option<Seq<(YamlV, YamlV)>> {
    match lookup(m, k) {
        Some(v) => mapping_entries(v),
        None => None,
    }
}

/// The entries of a section, or no entries when it is absent or not a mapping.
pub open spec fn section_or_empty(m: Seq<(YamlV, YamlV)>, k: YamlV) -> Seq<(YamlV, YamlV)> {
    match section(m, k) {
        Some(s) => s,
        None => Seq::empty(),
    }
}

/// A string key.
pub open spec fn skey(s: Seq<char>) -> YamlV {
    YamlV::Str(s)
}

/// What `entry_index` says about the entries.
pub proof fn lemma_entry_index(m: Seq<(YamlV, YamlV)>, k: YamlV)
    ensures
        -1 <= entry_index(m, k) < m.len(),
        entry_index(m, k) >= 0 ==> m[entry_index(m, k)].0 == k,
        forall|j: int| 0 <= j < entry_index(m, k) ==> #[trigger] m[j].0 != k,
        entry_index(m, k) == -1 <==> forall|j: int| 0 <= j < m.len() ==> #[trigger] m[j].0 != k,
    decreases m.len(),
{
    if m.len() > 0 {
        lemma_entry_index(m.drop_last(), k);
        assert forall|j: int| 0 <= j < m.len() - 1 implies #[trigger] m[j] == m.drop_last()[j] by {}
    }
}

/// Storing under `k` and reading `k` back gives the stored value.
pub proof fn lemma_lookup_upsert_same(m: Seq<(YamlV, YamlV)>, k: YamlV, v: YamlV)
    ensures
        lookup(upsert(m, k, v), k) == Some(v),
        upsert(m, k, v).len() == m.len() + (if has_key(m, k) { 0int } else { 1int }),
{
    lemma_entry_index(m, k);
    let r = upsert(m, k, v);
    lemma_entry_index(r, k);
    if entry_index(m, k) >= 0 {
        assert(forall|j: int| 0 <= j < entry_index(m, k) ==> #[trigger] r[j] == m[j]);
        assert(entry_index(r, k) == entry_index(m, k)) by {
            let i = entry_index(m, k);
            let ri = entry_index(r, k);
            if ri < i {
                assert(r[ri] == m[ri]);
            }
            if ri > i {
                assert(r[i].0 == k);
            }
        }
    } else {
        assert(forall|j: int| 0 <= j < m.len() ==> #[trigger] r[j] == m[j]);
        let ri = entry_index(r, k);
        if ri >= 0 && ri < m.len() {
            assert(r[ri] == m[ri]);
        }
        assert(r[m.len() as int].0 == k);
    }
}

/// Storing under `k` leaves every other key as it was.
pub proof fn lemma_lookup_upsert_other(m: Seq<(YamlV, YamlV)>, k: YamlV, v: YamlV, k2: YamlV)
    requires
        k2 != k,
    ensures
        lookup(upsert(m, k, v), k2) == lookup(m, k2),
        has_key(upsert(m, k, v), k2) == has_key(m, k2),
{
    lemma_entry_index(m, k);
    lemma_entry_index(m, k2);
    let r = upsert(m, k, v);
    lemma_entry_index(r, k2);
    let i2 = entry_index(m, k2);
    let ri2 = entry_index(r, k2);
    if entry_index(m, k) >= 0 {
        let i = entry_index(m, k);
        assert(r.len() == m.len());
        assert(forall|j: int| 0 <= j < m.len() ==> (#[trigger] r[j]).0 == m[j].0);
        assert(forall|j: int| 0 <= j < m.len() && j != i ==> #[trigger] r[j] == m[j]);
        if ri2 >= 0 {
            assert(r[ri2].0 == m[ri2].0);
        }
        if i2 >= 0 && ri2 != i2 {
            if ri2 < i2 && ri2 >= 0 {
                assert(m[ri2].0 == r[ri2].0);
            }
            assert(r[i2].0 == m[i2].0);
        }
    } else {
        assert(forall|j: int| 0 <= j < m.len() ==> #[trigger] r[j] == m[j]);
        if ri2 >= 0 && ri2 < m.len() {
            assert(r[ri2] == m[ri2]);
        }
        if i2 >= 0 {
            assert(r[i2] == m[i2]);
        }
    }
}

/// Storing keeps keys unique.
pub proof fn lemma_upsert_unique(m: Seq<(YamlV, YamlV)>, k: YamlV, v: YamlV)
    requires
        keys_unique(m),
    ensures
        keys_unique(upsert(m, k, v)),
{
    lemma_entry_index(m, k);
    let r = upsert(m, k, v);
    if entry_index(m, k) >= 0 {
        assert(forall|j: int| 0 <= j < m.len() ==> (#[trigger] r[j]).0 == m[j].0);
    } else {
        assert(forall|j: int| 0 <= j < m.len() ==> #[trigger] r[j] == m[j]);
    }
}

/// Appending an entry: the first occurrence of a key stays where it was.
pub proof fn lemma_entry_index_push(m: Seq<(YamlV, YamlV)>, e: (YamlV, YamlV), k: YamlV)
    ensures
        entry_index(m.push(e), k) == (if entry_index(m, k) >= 0 {
            entry_index(m, k)
        } else if e.0 == k {
            m.len() as int
        } else {
            -1
        }),
{
    assert(m.push(e).drop_last() =~= m);
}

/// A string key made from a literal.
pub fn str_key(s: &str) -> (r: Yaml)
    ensures
        r@ == skey(s@),
{
    Yaml::Str(String::from_str(s))
}

/// Position of the entry for `k`.
pub fn find_entry(m: &Vec<(Yaml, Yaml)>, k: &Yaml) -> (r: Option<usize>)
    ensures
        match r {
            Some(i) => i as int == entry_index(Yaml::view_entries(m@), k@),
            None => entry_index(Yaml::view_entries(m@), k@) == -1,
        },
{
    let ghost ev = Yaml::view_entries(m@);
    proof {
        lemma_view_entries(m@);
        lemma_entry_index(ev, k@);
    }
    let n = m.len();
    let mut i: usize = 0;
    while i < n
        invariant
            n == m.len(),
            i <= n,
            ev == Yaml::view_entries(m@),
            ev.len() == n,
            forall|j: int| 0 <= j < n ==> #[trigger] ev[j] == (m@[j].0@, m@[j].1@),
            forall|j: int| 0 <= j < i ==> #[trigger] ev[j].0 != k@,
            -1 <= entry_index(ev, k@) < ev.len(),
            entry_index(ev, k@) >= 0 ==> ev[entry_index(ev, k@)].0 == k@,
            forall|j: int| 0 <= j < entry_index(ev, k@) ==> #[trigger] ev[j].0 != k@,
            entry_index(ev, k@) == -1 <==> forall|j: int| 0 <= j < ev.len() ==> #[trigger] ev[j].0 != k@,
        decreases n - i,
    {
        if m[i].0.same_as(k) {
            assert(ev[i as int].0 == k@);
            proof {
                let e = entry_index(ev, k@);
                if e != i as int {
                    if e < i as int && e >= 0 {
                        assert(ev[e].0 != k@);
                    }
                    assert(e >= 0);
                }
            }
            return Some(i);
        }
        i = i + 1;
    }
    None
}

/// The value stored under `k`.
pub fn lookup_entry<'a>(m: &'a Vec<(Yaml, Yaml)>, k: &Yaml) -> (r: Option<&'a Yaml>)
    ensures
        match r {
            Some(v) => lookup(Yaml::view_entries(m@), k@) == Some(v@),
            None => lookup(Yaml::view_entries(m@), k@) is None,
        },
{
    proof {
        lemma_view_entries(m@);
        lemma_entry_index(Yaml::view_entries(m@), k@);
    }
    match find_entry(m, k) {
        Some(i) => Some(&m[i].1),
        None => None,
    }
}

/// Store `v` under `k`.
pub fn upsert_entry(m: &mut Vec<(Yaml, Yaml)>, k: Yaml, v: Yaml)
    ensures
        Yaml::view_entries(final(m)@) == upsert(Yaml::view_entries(old(m)@), k@, v@),
{
    proof {
        lemma_view_entries(m@);
        lemma_entry_index(Yaml::view_entries(m@), k@);
    }
    let ghost old_ev = Yaml::view_entries(m@);
    match find_entry(m, &k) {
        Some(i) => {
            m.set(i, (k, v));
            proof {
                lemma_view_entries_ext(m@, upsert(old_ev, k@, v@));
            }
        },
        None => {
            m.push((k, v));
            proof {
                lemma_view_entries_ext(m@, upsert(old_ev, k@, v@));
            }
        },
    }
}

impl Yaml {
    /// The entries of this node when, once its tags are taken off, it is a mapping.
    pub fn as_mapping(&self) -> (r: Option<&Vec<(Yaml, Yaml)>>)
        ensures
            match r {
                Some(m) => mapping_entries(self@) == Some(Yaml::view_entries(m@)),
                None => mapping_entries(self@) is None,
            },
        decreases self,
    {
        match self {
            Yaml::Mapping(m) => Some(m),
            Yaml::Tagged(_, b) => (**b).as_mapping(),
            _ => None,
        }
    }
}

} // verus!
