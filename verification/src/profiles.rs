use vstd::prelude::*;
use vstd::string::StrSliceExecFns;
use crate::text::{char_len, starts_with, starts_with_spec};

verus! {

broadcast use vstd::seq_lib::to_multiset_build, vstd::seq_lib::to_multiset_insert;

/// Position of the last `.` in a file name, or -1.
pub open spec fn last_dot(name: Seq<char>) -> int
    decreases name.len(),
{
    if name.len() == 0 {
        -1
    } else if name.last() == '.' {
        name.len() - 1
    } else {
        last_dot(name.drop_last())
    }
}

/// Where the last dot is.
pub proof fn lemma_last_dot(name: Seq<char>)
    ensures
        -1 <= last_dot(name) < name.len(),
        last_dot(name) >= 0 ==> name[last_dot(name)] == '.',
    decreases name.len(),
{
    if name.len() > 0 && name.last() != '.' {
        lemma_last_dot(name.drop_last());
    }
}

/// `name_le` is reflexive.
pub proof fn lemma_name_le_refl(a: Seq<char>)
    ensures
        name_le(a, a),
    decreases a.len(),
{
    if a.len() > 0 {
        lemma_name_le_refl(a.drop_first());
    }
}

/// The extension of a file name (`Path::extension`): what follows the last `.`,
/// unless that dot is the first character or the name is `..`.
pub open spec fn file_extension(name: Seq<char>) -> Option<Seq<char>> {
    if name == ".."@ || last_dot(name) <= 0 {
        None
    } else {
        Some(name.subrange(last_dot(name) + 1, name.len() as int))
    }
}

/// The stem of a file name (`Path::file_stem`): what precedes the last `.`, or
/// the whole name when it has no extension.
pub open spec fn file_stem(name: Seq<char>) -> Seq<char> {
    if name == ".."@ || last_dot(name) <= 0 {
        name
    } else {
        name.subrange(0, last_dot(name))
    }
}

/// Whether a directory entry is a profile: a `.yaml` or `.yml` file whose stem
/// does not start with `_` (the prefix of temporary files).
pub open spec fn is_profile_file(name: Seq<char>) -> bool {
    match file_extension(name) {
        Some(e) => (e == "yaml"@ || e == "yml"@) && !starts_with_spec(file_stem(name), "_"@),
        None => false,
    }
}

/// The stems of the profile files among directory entries, in directory order.
pub open spec fn profile_stems(names: Seq<Seq<char>>) -> Seq<Seq<char>>
    decreases names.len(),
{
    if names.len() == 0 {
        Seq::empty()
    } else if is_profile_file(names.last()) {
        profile_stems(names.drop_last()).push(file_stem(names.last()))
    } else {
        profile_stems(names.drop_last())
    }
}

/// Lexicographic order on characters by code point (the order of `str::cmp`,
/// since UTF-8 keeps the code point order).
pub open spec fn name_le(a: Seq<char>, b: Seq<char>) -> bool
    decreases a.len(),
{
    if a.len() == 0 {
        true
    } else if b.len() == 0 {
        false
    } else if (a[0] as int) < (b[0] as int) {
        true
    } else if (a[0] as int) > (b[0] as int) {
        false
    } else {
        name_le(a.drop_first(), b.drop_first())
    }
}

/// Names in ascending order.
pub open spec fn names_sorted(s: Seq<Seq<char>>) -> bool {
    forall|i: int, j: int| 0 <= i < j < s.len() ==> name_le(#[trigger] s[i], #[trigger] s[j])
}

/// `name_le` is total.
pub proof fn lemma_name_le_total(a: Seq<char>, b: Seq<char>)
    ensures
        name_le(a, b) || name_le(b, a),
    decreases a.len(),
{
    if a.len() > 0 && b.len() > 0 && a[0] == b[0] {
        lemma_name_le_total(a.drop_first(), b.drop_first());
    }
}

/// `name_le` is transitive.
pub proof fn lemma_name_le_trans(a: Seq<char>, b: Seq<char>, c: Seq<char>)
    requires
        name_le(a, b),
        name_le(b, c),
    ensures
        name_le(a, c),
    decreases a.len(),
{
    if a.len() > 0 && b.len() > 0 && c.len() > 0 && a[0] == b[0] && b[0] == c[0] {
        lemma_name_le_trans(a.drop_first(), b.drop_first(), c.drop_first());
    }
}

/// `name_le` is antisymmetric.
pub proof fn lemma_name_le_antisym(a: Seq<char>, b: Seq<char>)
    requires
        name_le(a, b),
        name_le(b, a),
    ensures
        a == b,
    decreases a.len(),
{
    if a.len() > 0 && b.len() > 0 {
        assert(a[0] as int == b[0] as int);
        lemma_name_le_antisym(a.drop_first(), b.drop_first());
        assert(a =~= seq![a[0]] + a.drop_first());
        assert(b =~= seq![b[0]] + b.drop_first());
    } else {
        assert(a.len() == 0 && b.len() == 0);
        assert(a =~= b);
    }
}

/// Whether `a` comes no later than `b` in the order of `str::cmp`.
pub fn name_le_exec(a: &str, b: &str) -> (r: bool)
    ensures
        r == name_le(a@, b@),
{
    let n = char_len(a);
    let m = char_len(b);
    let mut i: usize = 0;
    proof {
        assert(a@.subrange(0, n as int) =~= a@);
        assert(b@.subrange(0, m as int) =~= b@);
    }
    while i < n && i < m
        invariant
            n == a@.len(),
            m == b@.len(),
            i <= n,
            i <= m,
            name_le(a@, b@) == name_le(a@.subrange(i as int, n as int), b@.subrange(i as int, m as int)),
        decreases n - i,
    {
        let x = a.get_char(i);
        let y = b.get_char(i);
        proof {
            let sa = a@.subrange(i as int, n as int);
            let sb = b@.subrange(i as int, m as int);
            assert(sa[0] == x && sb[0] == y);
            assert(sa.drop_first() =~= a@.subrange(i + 1, n as int));
            assert(sb.drop_first() =~= b@.subrange(i + 1, m as int));
        }
        if (x as u32) < (y as u32) {
            return true;
        }
        if (x as u32) > (y as u32) {
            return false;
        }
        i = i + 1;
    }
    i == n
}

/// Position of the last `.` in a file name.
fn last_dot_exec(name: &str) -> (r: Option<usize>)
    ensures
        match r {
            Some(i) => i as int == last_dot(name@),
            None => last_dot(name@) == -1,
        },
{
    let n = char_len(name);
    let mut j: usize = n;
    proof {
        assert(name@.take(n as int) =~= name@);
    }
    while j > 0
        invariant
            n == name@.len(),
            j <= n,
            last_dot(name@) == last_dot(name@.take(j as int)),
        decreases j,
    {
        proof {
            assert(name@.take(j as int).drop_last() =~= name@.take(j - 1));
        }
        if name.get_char(j - 1) == '.' {
            return Some(j - 1);
        }
        j = j - 1;
    }
    None
}

/// The stem of a profile file name, when it is one.
pub fn profile_stem(name: &str) -> (r: Option<String>)
    ensures
        match r {
            Some(s) => is_profile_file(name@) && s@ == file_stem(name@),
            None => !is_profile_file(name@),
        },
{
    let n = char_len(name);
    let dd = String::from_str("..");
    let is_dotdot = String::from_str(name).eq(&dd);
    let d = match last_dot_exec(name) {
        Some(d) => d,
        None => return None,
    };
    if is_dotdot || d == 0 {
        return None;
    }
    proof {
        lemma_last_dot(name@);
    }
    let ext = String::from_str(name.substring_char(d + 1, n));
    let yaml = String::from_str("yaml");
    let yml = String::from_str("yml");
    if !(ext.eq(&yaml) || ext.eq(&yml)) {
        return None;
    }
    let stem = name.substring_char(0, d);
    if starts_with(stem, "_") {
        return None;
    }
    Some(String::from_str(stem))
}

/// Insert `x` into an ascending list, after every name that is not greater.
fn insert_sorted(v: &mut Vec<String>, x: String, Ghost(views): Ghost<Seq<Seq<char>>>) -> (r: Ghost<Seq<Seq<char>>>)
    requires
        views.len() == old(v)@.len(),
        forall|i: int| 0 <= i < views.len() ==> #[trigger] views[i] == old(v)@[i]@,
        names_sorted(views),
    ensures
        r@.len() == final(v)@.len(),
        forall|i: int| 0 <= i < r@.len() ==> #[trigger] r@[i] == final(v)@[i]@,
        names_sorted(r@),
        r@.to_multiset() == views.to_multiset().insert(x@),
{
    let n = v.len();
    let mut p: usize = 0;
    while p < n && name_le_exec(v[p].as_str(), x.as_str())
        invariant
            n == v@.len(),
            p <= n,
            views.len() == n,
            forall|i: int| 0 <= i < n ==> #[trigger] views[i] == v@[i]@,
            forall|i: int| 0 <= i < p ==> name_le(#[trigger] views[i], x@),
        decreases n - p,
    {
        p = p + 1;
    }
    let ghost xv = x@;
    v.insert(p, x);
    let ghost nv = views.insert(p as int, xv);
    proof {
        assert forall|i: int, j: int| 0 <= i < j < nv.len() implies name_le(#[trigger] nv[i], #[trigger] nv[j]) by {
            if j < p {
                assert(nv[i] == views[i] && nv[j] == views[j]);
            } else if j == p {
                assert(nv[i] == views[i]);
            } else if i < p {
                assert(nv[i] == views[i] && nv[j] == views[j - 1]);
                assert(name_le(views[i], xv));
                assert(p < n);
                assert(!name_le(views[p as int], xv));
                lemma_name_le_total(views[p as int], xv);
                if j - 1 > p {
                    assert(name_le(views[p as int], views[j - 1]));
                } else {
                    lemma_name_le_refl(views[p as int]);
                }
                lemma_name_le_trans(views[i], xv, views[p as int]);
                lemma_name_le_trans(views[i], views[p as int], views[j - 1]);
            } else if i == p {
                assert(nv[j] == views[j - 1]);
                assert(p < n);
                assert(!name_le(views[p as int], xv));
                lemma_name_le_total(views[p as int], xv);
                if j - 1 > p {
                    assert(name_le(views[p as int], views[j - 1]));
                    lemma_name_le_trans(xv, views[p as int], views[j - 1]);
                }
            } else {
                assert(nv[i] == views[i - 1] && nv[j] == views[j - 1]);
            }
        }
        assert forall|i: int| 0 <= i < nv.len() implies #[trigger] nv[i] == v@[i]@ by {
            if i < p {
                assert(nv[i] == views[i]);
            } else if i > p {
                assert(nv[i] == views[i - 1]);
            }
        }
    }
    Ghost(nv)
}

/// The profiles among the entries of the profiles directory: one pair of the
/// stem (the menu id part and the displayed name) per `.yaml`/`.yml` file whose
/// stem does not start with `_`, sorted by stem.
pub fn list_profiles(entry_names: &Vec<String>) -> (r: Vec<(String, String)>)
    ensures
        names_sorted(r@.map_values(|p: (String, String)| p.0@)),
        r@.map_values(|p: (String, String)| p.0@).to_multiset() == profile_stems(
            entry_names@.map_values(|s: String| s@),
        ).to_multiset(),
        forall|i: int| 0 <= i < r@.len() ==> (#[trigger] r@[i]).1@ == r@[i].0@,
{
    let ghost names = entry_names@.map_values(|s: String| s@);
    let mut stems: Vec<String> = Vec::new();
    let ghost mut views: Seq<Seq<char>> = Seq::empty();
    let n = entry_names.len();
    let mut i: usize = 0;
    while i < n
        invariant
            n == entry_names@.len(),
            names == entry_names@.map_values(|s: String| s@),
            i <= n,
            views.len() == stems@.len(),
            forall|k: int| 0 <= k < views.len() ==> #[trigger] views[k] == stems@[k]@,
            names_sorted(views),
            views.to_multiset() == profile_stems(names.take(i as int)).to_multiset(),
        decreases n - i,
    {
        proof {
            assert(names.take(i + 1).drop_last() =~= names.take(i as int));
            assert(names.take(i + 1).last() == entry_names@[i as int]@);
        }
        match profile_stem(entry_names[i].as_str()) {
            Some(stem) => {
                let Ghost(nv) = insert_sorted(&mut stems, stem, Ghost(views));
                proof {
                    views = nv;
                }
            },
            None => {},
        }
        i = i + 1;
    }
    proof {
        assert(names.take(n as int) =~= names);
    }
    let mut out: Vec<(String, String)> = Vec::new();
    let m = stems.len();
    let mut j: usize = 0;
    while j < m
        invariant
            m == stems@.len(),
            j <= m,
            out@.len() == j,
            forall|k: int| 0 <= k < j ==> (#[trigger] out@[k]).0@ == stems@[k]@ && out@[k].1@ == stems@[k]@,
        decreases m - j,
    {
        let a = stems[j].clone();
        let b = stems[j].clone();
        out.push((a, b));
        j = j + 1;
    }
    proof {
        assert(out@.map_values(|p: (String, String)| p.0@) =~= views);
    }
    out
}


/// Law: names in ascending order are determined by the names they hold: two
/// sorted lists with the same elements (counted with multiplicity) are equal.
/// So `list_profiles`'s result is the one sorted arrangement of the profile stems.
pub proof fn law_sorted_names_unique(a: Seq<Seq<char>>, b: Seq<Seq<char>>)
    requires
        names_sorted(a),
        names_sorted(b),
        a.to_multiset() == b.to_multiset(),
    ensures
        a == b,
    decreases a.len(),
{
    broadcast use vstd::seq_lib::to_multiset_len, vstd::seq_lib::to_multiset_contains,
        vstd::seq_lib::to_multiset_remove;

    if a.len() == 0 {
        assert(b.to_multiset().len() == 0);
        assert(b.len() == 0);
        assert(a =~= b);
    } else {
        assert(a.to_multiset().len() == a.len());
        assert(b.to_multiset().len() == b.len());
        assert(b.len() == a.len());
        assert(a.contains(a[0]));
        assert(b.to_multiset().count(a[0]) > 0);
        assert(b.contains(a[0]));
        let j = choose|j: int| 0 <= j < b.len() && b[j] == a[0];
        if j > 0 {
            assert(name_le(b[0], b[j]));
        } else {
            lemma_name_le_refl(b[0]);
        }
        assert(b.contains(b[0]));
        assert(a.to_multiset().count(b[0]) > 0);
        assert(a.contains(b[0]));
        let k = choose|k: int| 0 <= k < a.len() && a[k] == b[0];
        if k > 0 {
            assert(name_le(a[0], a[k]));
        } else {
            lemma_name_le_refl(a[0]);
        }
        lemma_name_le_antisym(a[0], b[0]);
        assert(a.remove(0) =~= a.drop_first());
        assert(b.remove(0) =~= b.drop_first());
        assert(a.drop_first().to_multiset() == a.to_multiset().remove(a[0]));
        assert(b.drop_first().to_multiset() == b.to_multiset().remove(b[0]));
        assert forall|i: int, l: int| 0 <= i < l < a.drop_first().len() implies name_le(
            #[trigger] a.drop_first()[i],
            #[trigger] a.drop_first()[l],
        ) by {
            assert(name_le(a[i + 1], a[l + 1]));
        }
        assert forall|i: int, l: int| 0 <= i < l < b.drop_first().len() implies name_le(
            #[trigger] b.drop_first()[i],
            #[trigger] b.drop_first()[l],
        ) by {
            assert(name_le(b[i + 1], b[l + 1]));
        }
        law_sorted_names_unique(a.drop_first(), b.drop_first());
        assert forall|i: int| 0 <= i < a.len() implies a[i] == b[i] by {
            if i > 0 {
                assert(a[i] == a.drop_first()[i - 1]);
                assert(b[i] == b.drop_first()[i - 1]);
            }
        }
        assert(a =~= b);
    }
}

/// The last dot of `stem + ".yaml"` (or `".yml"`) is the one before the extension.
proof fn lemma_last_dot_ext(stem: Seq<char>, ext: Seq<char>)
    requires
        forall|i: int| 0 <= i < ext.len() ==> ext[i] != '.',
    ensures
        last_dot(stem + seq!['.'] + ext) == stem.len(),
    decreases ext.len(),
{
    let n = stem + seq!['.'] + ext;
    if ext.len() == 0 {
        assert(n.last() == '.');
    } else {
        let e0 = ext.drop_last();
        assert(n.drop_last() =~= stem + seq!['.'] + e0);
        assert(n.last() == ext.last());
        lemma_last_dot_ext(stem, e0);
    }
}

/// Law: a `.yaml` or `.yml` file whose stem is not empty and does not begin with
/// `_` is a profile, whose stem is the name without the extension; one whose stem
/// begins with `_` (a temporary file) is not.
pub proof fn law_profile_files(stem: Seq<char>)
    ensures
        stem.len() > 0 && stem[0] != '_' ==> is_profile_file(stem + ".yaml"@) && file_stem(
            stem + ".yaml"@,
        ) == stem && is_profile_file(stem + ".yml"@) && file_stem(stem + ".yml"@) == stem,
        stem.len() > 0 && stem[0] == '_' ==> !is_profile_file(stem + ".yaml"@) && !is_profile_file(
            stem + ".yml"@,
        ),
{
    reveal_strlit(".yaml");
    reveal_strlit(".yml");
    reveal_strlit("yaml");
    reveal_strlit("yml");
    reveal_strlit("_");
    reveal_strlit("..");
    if stem.len() > 0 {
        let a = stem + ".yaml"@;
        let b = stem + ".yml"@;
        assert(".yaml"@ =~= seq!['.'] + "yaml"@);
        assert(".yml"@ =~= seq!['.'] + "yml"@);
        assert(a =~= stem + seq!['.'] + "yaml"@);
        assert(b =~= stem + seq!['.'] + "yml"@);
        lemma_last_dot_ext(stem, "yaml"@);
        lemma_last_dot_ext(stem, "yml"@);
        assert(a != ".."@) by {
            assert(a.len() != ".."@.len());
        }
        assert(b != ".."@) by {
            assert(b.len() != ".."@.len());
        }
        assert(a.subrange(stem.len() + 1int, a.len() as int) =~= "yaml"@);
        assert(b.subrange(stem.len() + 1int, b.len() as int) =~= "yml"@);
        assert(a.subrange(0, stem.len() as int) =~= stem);
        assert(b.subrange(0, stem.len() as int) =~= stem);
        assert(stem.subrange(0, 1)[0] == stem[0]);
        if stem[0] == '_' {
            assert(stem.subrange(0, 1) =~= "_"@);
        }
    }
}

/// Law: every profile file among the directory entries has its stem listed.
pub proof fn law_profile_listed(names: Seq<Seq<char>>, i: int)
    requires
        0 <= i < names.len(),
        is_profile_file(names[i]),
    ensures
        profile_stems(names).contains(file_stem(names[i])),
    decreases names.len(),
{
    if i == names.len() - 1 {
        assert(profile_stems(names).last() == file_stem(names[i]));
    } else {
        law_profile_listed(names.drop_last(), i);
        let p = profile_stems(names.drop_last());
        let j = choose|j: int| 0 <= j < p.len() && p[j] == file_stem(names[i]);
        if is_profile_file(names.last()) {
            assert(profile_stems(names)[j] == p[j]);
        }
    }
}

} // verus!
