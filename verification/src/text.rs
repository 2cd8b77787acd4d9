use vstd::prelude::*;
use vstd::string::StrSliceExecFns;

verus! {

/// Whether `c` has the Unicode White_Space property, which `char::is_whitespace`
/// tests: the 25 code points that Unicode's PropList.txt lists for it.
pub open spec fn unicode_whitespace(c: char) -> bool {
    let n = c as u32;
    ||| 0x09 <= n <= 0x0d
    ||| n == 0x20
    ||| n == 0x85
    ||| n == 0xa0
    ||| n == 0x1680
    ||| 0x2000 <= n <= 0x200a
    ||| n == 0x2028
    ||| n == 0x2029
    ||| n == 0x202f
    ||| n == 0x205f
    ||| n == 0x3000
}

/// Whether `char::is_alphanumeric` holds of `c` (alphabetic or numeric in Unicode).
pub uninterp spec fn unicode_alphanumeric(c: char) -> bool;

/// Whether `c` is whitespace, as `char::is_whitespace` answers: the White_Space
/// code points, tested one by one.
pub fn is_whitespace_char(c: char) -> (r: bool)
    ensures
        r == unicode_whitespace(c),
{
    match c {
        '\u{09}'..='\u{0d}' | '\u{20}' | '\u{85}' | '\u{a0}' | '\u{1680}' => true,
        '\u{2000}'..='\u{200a}' | '\u{2028}' | '\u{2029}' | '\u{202f}' | '\u{205f}' => true,
        '\u{3000}' => true,
        _ => false,
    }
}

/// `char::is_alphanumeric`: claims only that the answer is the named property of
/// `c`, the same for the same character; which characters have it is left unsaid.
#[verifier::external_body]
pub(crate) fn is_alphanumeric_char(c: char) -> (r: bool)
    ensures
        r == unicode_alphanumeric(c),
{
    c.is_alphanumeric()
}

/// One whitespace flag per character of `s`.
pub open spec fn whitespace_flags(s: Seq<char>) -> Seq<bool> {
    Seq::new(s.len(), |i: int| unicode_whitespace(s[i]))
}

/// Position of the first unflagged entry (the length when all are flagged).
pub open spec fn first_unflagged(f: Seq<bool>) -> int
    decreases f.len(),
{
    if f.len() == 0 {
        0
    } else if !f[0] {
        0
    } else {
        1 + first_unflagged(f.drop_first())
    }
}

/// One past the last unflagged entry (0 when all are flagged).
pub open spec fn end_unflagged(f: Seq<bool>) -> int
    decreases f.len(),
{
    if f.len() == 0 {
        0
    } else if !f.last() {
        f.len() as int
    } else {
        end_unflagged(f.drop_last())
    }
}

/// `s` without the leading and trailing characters whose flag in `f` is set.
pub open spec fn trim_flagged(s: Seq<char>, f: Seq<bool>) -> Seq<char> {
    let a = first_unflagged(f);
    let b = end_unflagged(f);
    if a < b {
        s.subrange(a, b)
    } else {
        Seq::empty()
    }
}

/// Text without leading and trailing whitespace (`str::trim`).
pub open spec fn trim_spec(s: Seq<char>) -> Seq<char> {
    trim_flagged(s, whitespace_flags(s))
}

/// What `first_unflagged` says about the flags.
pub proof fn lemma_first_unflagged(f: Seq<bool>)
    ensures
        0 <= first_unflagged(f) <= f.len(),
        forall|k: int| 0 <= k < first_unflagged(f) ==> #[trigger] f[k],
        first_unflagged(f) < f.len() ==> !f[first_unflagged(f)],
    decreases f.len(),
{
    if f.len() > 0 && f[0] {
        lemma_first_unflagged(f.drop_first());
        assert forall|k: int| 0 <= k < first_unflagged(f) implies #[trigger] f[k] by {
            if k > 0 {
                assert(f[k] == f.drop_first()[k - 1]);
            }
        }
    }
}

/// What `end_unflagged` says about the flags.
pub proof fn lemma_end_unflagged(f: Seq<bool>)
    ensures
        0 <= end_unflagged(f) <= f.len(),
        forall|k: int| end_unflagged(f) <= k < f.len() ==> #[trigger] f[k],
        end_unflagged(f) > 0 ==> !f[end_unflagged(f) - 1],
    decreases f.len(),
{
    if f.len() > 0 && f.last() {
        lemma_end_unflagged(f.drop_last());
        assert forall|k: int| end_unflagged(f) <= k < f.len() implies #[trigger] f[k] by {
            if k < f.len() - 1 {
                assert(f[k] == f.drop_last()[k]);
            }
        }
    }
}

/// The text obtained by replacing each character `c` of `s` by `f(c)`.
pub open spec fn concat_map(s: Seq<char>, f: spec_fn(char) -> Seq<char>) -> Seq<char>
    decreases s.len(),
{
    if s.len() == 0 {
        Seq::empty()
    } else {
        concat_map(s.drop_last(), f) + f(s.last())
    }
}

/// Whether `s` begins with `p`.
pub open spec fn starts_with_spec(s: Seq<char>, p: Seq<char>) -> bool {
    p.len() <= s.len() && s.subrange(0, p.len() as int) == p
}

/// Whether `needle` occurs in `s` at position `i`.
pub open spec fn occurs_at(s: Seq<char>, needle: Seq<char>, i: int) -> bool {
    0 <= i && i + needle.len() <= s.len() && s.subrange(i, i + needle.len()) == needle
}

/// Whether `needle` occurs in `s`.
pub open spec fn contains_spec(s: Seq<char>, needle: Seq<char>) -> bool {
    exists|i: int| occurs_at(s, needle, i)
}

/// Character length of a string slice.
pub fn char_len(s: &str) -> (n: usize)
    ensures
        n == s@.len(),
{
    s.unicode_len()
}

/// Trim by given flags: drop the leading and trailing characters whose flag is set.
pub fn trim_with(s: &str, flags: &Vec<bool>) -> (r: String)
    requires
        flags@.len() == s@.len(),
    ensures
        r@ == trim_flagged(s@, flags@),
{
    let ghost f = flags@;
    proof {
        lemma_first_unflagged(f);
        lemma_end_unflagged(f);
    }
    let n = char_len(s);
    let mut i: usize = 0;
    while i < n && flags[i]
        invariant
            n == s@.len(),
            f == flags@,
            f.len() == n,
            i <= n,
            forall|k: int| 0 <= k < i ==> #[trigger] f[k],
        decreases n - i,
    {
        i = i + 1;
    }
    proof {
        let a = first_unflagged(f);
        if a < i {
            assert(f[a]);
        }
        if a > i {
            assert(f[i as int]);
        }
    }
    let mut j: usize = n;
    while j > i && flags[j - 1]
        invariant
            n == s@.len(),
            f == flags@,
            f.len() == n,
            i <= j <= n,
            forall|k: int| j <= k < n ==> #[trigger] f[k],
        decreases j,
    {
        j = j - 1;
    }
    proof {
        let a = first_unflagged(f);
        let b = end_unflagged(f);
        assert(a == i);
        if j > i {
            if b < j {
                assert(f[j - 1]);
            }
            if b > j {
                assert(f[b - 1]);
            }
            assert(b == j);
        } else {
            if i < n {
                assert(f[i as int]);
            }
            assert(a == n);
            assert(b <= a);
            assert(s@.subrange(i as int, j as int) =~= Seq::<char>::empty());
        }
    }
    String::from_str(s.substring_char(i, j))
}

/// `str::trim`.
pub fn trim(s: &str) -> (r: String)
    ensures
        r@ == trim_spec(s@),
{
    let n = char_len(s);
    let mut flags: Vec<bool> = Vec::new();
    let mut k: usize = 0;
    while k < n
        invariant
            n == s@.len(),
            k <= n,
            flags@.len() == k,
            forall|t: int| 0 <= t < k ==> #[trigger] flags@[t] == unicode_whitespace(s@[t]),
        decreases n - k,
    {
        flags.push(is_whitespace_char(s.get_char(k)));
        k = k + 1;
    }
    assert(flags@ =~= whitespace_flags(s@));
    trim_with(s, &flags)
}

/// Whether `s` begins with `p` (`str::starts_with`).
pub fn starts_with(s: &str, p: &str) -> (r: bool)
    ensures
        r == starts_with_spec(s@, p@),
{
    let n = char_len(s);
    let m = char_len(p);
    if m > n {
        return false;
    }
    let mut i: usize = 0;
    while i < m
        invariant
            n == s@.len(),
            m == p@.len(),
            m <= n,
            i <= m,
            forall|j: int| 0 <= j < i ==> s@[j] == p@[j],
        decreases m - i,
    {
        if s.get_char(i) != p.get_char(i) {
            assert(s@.subrange(0, m as int)[i as int] != p@[i as int]);
            return false;
        }
        i = i + 1;
    }
    assert(s@.subrange(0, m as int) =~= p@);
    true
}

/// Whether `needle` occurs in `s` at character position `i`.
fn occurs_at_exec(s: &str, n: usize, needle: &str, m: usize, i: usize) -> (r: bool)
    requires
        n == s@.len(),
        m == needle@.len(),
        i + m <= n,
    ensures
        r == occurs_at(s@, needle@, i as int),
{
    let mut j: usize = 0;
    while j < m
        invariant
            n == s@.len(),
            m == needle@.len(),
            i + m <= n,
            j <= m,
            forall|k: int| 0 <= k < j ==> s@[i + k] == needle@[k],
        decreases m - j,
    {
        if s.get_char(i + j) != needle.get_char(j) {
            assert(s@.subrange(i as int, i + m)[j as int] != needle@[j as int]);
            return false;
        }
        j = j + 1;
    }
    assert(s@.subrange(i as int, i + m) =~= needle@);
    true
}

/// Character position of the first occurrence of `needle` in `s` (`str::find`).
pub fn find(s: &str, needle: &str) -> (r: Option<usize>)
    ensures
        match r {
            Some(i) => occurs_at(s@, needle@, i as int) && forall|j: int|
                0 <= j < i ==> !occurs_at(s@, needle@, j),
            None => !contains_spec(s@, needle@),
        },
{
    let n = char_len(s);
    let m = char_len(needle);
    if m > n {
        return None;
    }
    let last = n - m;
    let mut i: usize = 0;
    loop
        invariant
            n == s@.len(),
            m == needle@.len(),
            last == n - m,
            i <= last,
            forall|j: int| 0 <= j < i ==> !occurs_at(s@, needle@, j),
        decreases last - i,
    {
        if occurs_at_exec(s, n, needle, m, i) {
            return Some(i);
        }
        if i == last {
            return None;
        }
        i = i + 1;
    }
}

/// Whether `needle` occurs in `s` (`str::contains`).
pub fn contains(s: &str, needle: &str) -> (r: bool)
    ensures
        r == contains_spec(s@, needle@),
{
    match find(s, needle) {
        Some(_) => true,
        None => false,
    }
}


/// The pieces of `s` between occurrences of `sep` (`str::split` with a character).
pub open spec fn split_spec(s: Seq<char>, sep: char) -> Seq<Seq<char>>
    decreases s.len(),
{
    if s.len() == 0 {
        seq![Seq::empty()]
    } else {
        let p = split_spec(s.drop_last(), sep);
        if s.last() == sep {
            p.push(Seq::empty())
        } else {
            p.update(p.len() - 1, p.last().push(s.last()))
        }
    }
}

/// Splitting gives at least one piece.
pub proof fn lemma_split_nonempty(s: Seq<char>, sep: char)
    ensures
        split_spec(s, sep).len() >= 1,
    decreases s.len(),
{
    if s.len() > 0 {
        lemma_split_nonempty(s.drop_last(), sep);
    }
}

/// A line without the carriage return that preceded its newline.
pub open spec fn strip_cr(x: Seq<char>) -> Seq<char> {
    if x.len() > 0 && x.last() == '\r' {
        x.drop_last()
    } else {
        x
    }
}

/// The lines of `s` (`str::lines`): pieces between newlines, a `\r` before a
/// newline dropped, and no final empty line after a trailing newline.
pub open spec fn lines_spec(s: Seq<char>) -> Seq<Seq<char>> {
    let p = split_spec(s, '\n');
    let n = if p.last().len() == 0 { p.len() - 1 } else { p.len() as int };
    Seq::new(n as nat, |i: int| if i < p.len() - 1 { strip_cr(p[i]) } else { p[i] })
}

/// Split `s` at every `sep`.
pub fn split_char(s: &str, sep: char) -> (r: Vec<String>)
    ensures
        r@.len() == split_spec(s@, sep).len(),
        forall|i: int| 0 <= i < r@.len() ==> #[trigger] r@[i]@ == split_spec(s@, sep)[i],
{
    let n = char_len(s);
    let mut parts: Vec<String> = Vec::new();
    let mut cur = String::new();
    let mut start: usize = 0;
    let mut i: usize = 0;
    proof {
        assert(s@.take(0) =~= Seq::<char>::empty());
    }
    while i < n
        invariant
            n == s@.len(),
            start <= i <= n,
            split_spec(s@.take(i as int), sep).len() == parts@.len() + 1,
            forall|k: int| 0 <= k < parts@.len() ==> #[trigger] parts@[k]@ == split_spec(s@.take(i as int), sep)[k],
            split_spec(s@.take(i as int), sep).last() == s@.subrange(start as int, i as int),
        decreases n - i,
    {
        proof {
            assert(s@.take(i + 1).drop_last() =~= s@.take(i as int));
            lemma_split_nonempty(s@.take(i as int), sep);
        }
        if s.get_char(i) == sep {
            parts.push(String::from_str(s.substring_char(start, i)));
            start = i + 1;
            proof {
                assert(s@.subrange(start as int, i + 1) =~= Seq::<char>::empty());
            }
        } else {
            proof {
                assert(s@.subrange(start as int, i + 1) =~= s@.subrange(start as int, i as int).push(s@[i as int]));
            }
        }
        i = i + 1;
    }
    parts.push(String::from_str(s.substring_char(start, n)));
    proof {
        assert(s@.take(n as int) =~= s@);
    }
    parts
}

/// The lines of `s` (`str::lines`).
pub fn lines(s: &str) -> (r: Vec<String>)
    ensures
        r@.len() == lines_spec(s@).len(),
        forall|i: int| 0 <= i < r@.len() ==> #[trigger] r@[i]@ == lines_spec(s@)[i],
{
    let parts = split_char(s, '\n');
    proof {
        lemma_split_nonempty(s@, '\n');
    }
    let np = parts.len();
    let last_empty = char_len(parts[np - 1].as_str()) == 0;
    let n = if last_empty { np - 1 } else { np };
    let mut out: Vec<String> = Vec::new();
    let mut i: usize = 0;
    while i < n
        invariant
            np == parts@.len(),
            np == split_spec(s@, '\n').len(),
            forall|k: int| 0 <= k < np ==> #[trigger] parts@[k]@ == split_spec(s@, '\n')[k],
            n == lines_spec(s@).len(),
            n <= np,
            i <= n,
            out@.len() == i,
            forall|k: int| 0 <= k < i ==> #[trigger] out@[k]@ == lines_spec(s@)[k],
        decreases n - i,
    {
        let part = parts[i].as_str();
        let m = char_len(part);
        if i < np - 1 && m > 0 && part.get_char(m - 1) == '\r' {
            out.push(String::from_str(part.substring_char(0, m - 1)));
            proof {
                assert(part@.subrange(0, m - 1) =~= part@.drop_last());
            }
        } else {
            out.push(String::from_str(part));
        }
        i = i + 1;
    }
    out
}

} // verus!
