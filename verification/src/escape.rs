use vstd::prelude::*;
use vstd::string::StrSliceExecFns;
use crate::text::{char_len, trim, trim_spec, unicode_alphanumeric, is_alphanumeric_char};

verus! {

/// How `xml_escape` writes one character.
pub open spec fn xml_escape_char(c: char) -> Seq<char> {
    if c == '&' {
        "&amp;"@
    } else if c == '<' {
        "&lt;"@
    } else if c == '>' {
        "&gt;"@
    } else if c == '"' {
        "&quot;"@
    } else {
        seq![c]
    }
}

/// Text with `&`, `<`, `>` and `"` written as XML entities.
pub open spec fn xml_escaped(s: Seq<char>) -> Seq<char>
    decreases s.len(),
{
    if s.len() == 0 {
        Seq::empty()
    } else {
        xml_escaped(s.drop_last()) + xml_escape_char(s.last())
    }
}

/// How the AppleScript escaping writes one character.
pub open spec fn applescript_escape_char(c: char) -> Seq<char> {
    if c == '\\' {
        "\\\\"@
    } else if c == '"' {
        "\\\""@
    } else {
        seq![c]
    }
}

/// Text made safe for an AppleScript double-quoted string.
pub open spec fn applescript_escaped(s: Seq<char>) -> Seq<char>
    decreases s.len(),
{
    if s.len() == 0 {
        Seq::empty()
    } else {
        applescript_escape_char(s[0]) + applescript_escaped(s.drop_first())
    }
}

/// How the version text shown in the about dialog writes one character:
/// backslashes and closing parentheses are dropped, double quotes become single quotes.
pub open spec fn version_text_char(c: char) -> Seq<char> {
    if c == '\\' || c == ')' {
        Seq::empty()
    } else if c == '"' {
        seq!['\'']
    } else {
        seq![c]
    }
}

/// The version text made safe for the about dialog script.
pub open spec fn version_text(s: Seq<char>) -> Seq<char>
    decreases s.len(),
{
    if s.len() == 0 {
        Seq::empty()
    } else {
        version_text(s.drop_last()) + version_text_char(s.last())
    }
}

/// One flag per character of `s`: whether it is alphanumeric.
pub open spec fn alnum_flags(s: Seq<char>) -> Seq<bool> {
    Seq::new(s.len(), |i: int| unicode_alphanumeric(s[i]))
}

/// Whether a character may stay in a profile name, given whether it is alphanumeric.
pub open spec fn keep_name_char(c: char, alphanumeric: bool) -> bool {
    alphanumeric || c == '-' || c == '_' || c == '.' || c == ' '
}

/// Whether a character may stay in a profile name.
pub open spec fn name_char_allowed(c: char) -> bool {
    keep_name_char(c, unicode_alphanumeric(c))
}

/// The characters of `s` that may stay in a profile name, `f` telling which are
/// alphanumeric.
pub open spec fn name_chars_by(s: Seq<char>, f: Seq<bool>) -> Seq<char>
    decreases s.len(),
{
    if s.len() == 0 {
        Seq::empty()
    } else if keep_name_char(s.last(), f.last()) {
        name_chars_by(s.drop_last(), f.drop_last()).push(s.last())
    } else {
        name_chars_by(s.drop_last(), f.drop_last())
    }
}

/// The characters of `s` that may stay in a profile name.
pub open spec fn name_chars(s: Seq<char>) -> Seq<char> {
    name_chars_by(s, alnum_flags(s))
}

/// Text with every space replaced by an underscore.
pub open spec fn spaces_to_underscores(s: Seq<char>) -> Seq<char> {
    s.map_values(|c: char| if c == ' ' { '_' } else { c })
}

/// A profile name as the user typed it, made safe to be a file name.
pub open spec fn sanitized_name(s: Seq<char>) -> Seq<char> {
    spaces_to_underscores(trim_spec(name_chars(s)))
}

proof fn lemma_applescript_escaped_push(s: Seq<char>, c: char)
    ensures
        applescript_escaped(s.push(c)) == applescript_escaped(s) + applescript_escape_char(c),
    decreases s.len(),
{
    if s.len() == 0 {
        assert(s.push(c).drop_first() =~= Seq::<char>::empty());
        assert(applescript_escaped(Seq::<char>::empty()) == Seq::<char>::empty());
        assert(applescript_escape_char(c) + Seq::<char>::empty() =~= applescript_escape_char(c));
        assert(Seq::<char>::empty() + applescript_escape_char(c) =~= applescript_escape_char(c));
    } else {
        assert(s.push(c).drop_first() =~= s.drop_first().push(c));
        lemma_applescript_escaped_push(s.drop_first(), c);
        assert(s.push(c)[0] == s[0]);
        assert(applescript_escaped(s.push(c)) =~= applescript_escape_char(s[0]) + (
        applescript_escaped(s.drop_first()) + applescript_escape_char(c)));
    }
}

/// The characters at positions `i` to `i + 1` of a string slice.
fn char_at_str(s: &str, i: usize) -> (r: &str)
    requires
        i < s@.len() <= usize::MAX,
    ensures
        r@ == seq![s@[i as int]],
{
    let r = s.substring_char(i, i + 1);
    assert(r@ =~= seq![s@[i as int]]);
    r
}

/// Write `&`, `<`, `>` and `"` as XML entities.
pub fn xml_escape(s: &str) -> (r: String)
    ensures
        r@ == xml_escaped(s@),
{
    let n = char_len(s);
    let mut out = String::new();
    let mut i: usize = 0;
    while i < n
        invariant
            n == s@.len(),
            i <= n,
            out@ == xml_escaped(s@.take(i as int)),
        decreases n - i,
    {
        proof {
            assert(s@.take(i + 1).drop_last() =~= s@.take(i as int));
        }
        let c = s.get_char(i);
        if c == '&' {
            out.append("&amp;");
        } else if c == '<' {
            out.append("&lt;");
        } else if c == '>' {
            out.append("&gt;");
        } else if c == '"' {
            out.append("&quot;");
        } else {
            out.append(char_at_str(s, i));
        }
        i = i + 1;
    }
    proof {
        assert(s@.take(n as int) =~= s@);
    }
    out
}

/// Make text safe for an AppleScript double-quoted string.
pub fn escape_for_applescript(s: &str) -> (r: String)
    ensures
        r@ == applescript_escaped(s@),
{
    let n = char_len(s);
    let mut out = String::new();
    let mut i: usize = 0;
    proof {
        assert(s@.take(0) =~= Seq::<char>::empty());
    }
    while i < n
        invariant
            n == s@.len(),
            i <= n,
            out@ == applescript_escaped(s@.take(i as int)),
        decreases n - i,
    {
        proof {
            assert(s@.take(i + 1) =~= s@.take(i as int).push(s@[i as int]));
            lemma_applescript_escaped_push(s@.take(i as int), s@[i as int]);
        }
        let c = s.get_char(i);
        if c == '\\' {
            out.append("\\\\");
        } else if c == '"' {
            out.append("\\\"");
        } else {
            out.append(char_at_str(s, i));
        }
        i = i + 1;
    }
    proof {
        assert(s@.take(n as int) =~= s@);
    }
    out
}

/// Make the reported core version safe for the about dialog script.
pub fn sanitize_version_text(s: &str) -> (r: String)
    ensures
        r@ == version_text(s@),
{
    let n = char_len(s);
    let mut out = String::new();
    let mut i: usize = 0;
    while i < n
        invariant
            n == s@.len(),
            i <= n,
            out@ == version_text(s@.take(i as int)),
        decreases n - i,
    {
        proof {
            assert(s@.take(i + 1).drop_last() =~= s@.take(i as int));
        }
        let c = s.get_char(i);
        if c == '\\' || c == ')' {
            assert(out@ + Seq::<char>::empty() =~= out@);
        } else if c == '"' {
            out.append("'");
            proof {
                reveal_strlit("'");
            }
        } else {
            out.append(char_at_str(s, i));
        }
        i = i + 1;
    }
    proof {
        assert(s@.take(n as int) =~= s@);
    }
    out
}

/// Keep the characters of `name` that a profile name may hold, `alnum` telling
/// which characters are alphanumeric.
pub fn keep_name_chars(name: &str, alnum: &Vec<bool>) -> (r: String)
    requires
        alnum@.len() == name@.len(),
    ensures
        r@ == name_chars_by(name@, alnum@),
{
    let n = char_len(name);
    let mut kept = String::new();
    let mut i: usize = 0;
    while i < n
        invariant
            n == name@.len(),
            alnum@.len() == n,
            i <= n,
            kept@ == name_chars_by(name@.take(i as int), alnum@.take(i as int)),
        decreases n - i,
    {
        proof {
            assert(name@.take(i + 1).drop_last() =~= name@.take(i as int));
            assert(alnum@.take(i + 1).drop_last() =~= alnum@.take(i as int));
        }
        let c = name.get_char(i);
        if alnum[i] || c == '-' || c == '_' || c == '.' || c == ' ' {
            kept.append(char_at_str(name, i));
        }
        i = i + 1;
    }
    proof {
        assert(name@.take(n as int) =~= name@);
        assert(alnum@.take(n as int) =~= alnum@);
    }
    kept
}

/// Replace every space by an underscore.
pub fn replace_spaces(t: &str) -> (r: String)
    ensures
        r@ == spaces_to_underscores(t@),
{
    let m = char_len(t);
    let mut out = String::new();
    let mut j: usize = 0;
    while j < m
        invariant
            m == t@.len(),
            j <= m,
            out@ == spaces_to_underscores(t@.take(j as int)),
        decreases m - j,
    {
        let c = t.get_char(j);
        if c == ' ' {
            out.append("_");
            proof {
                reveal_strlit("_");
            }
        } else {
            out.append(char_at_str(t, j));
        }
        proof {
            assert(spaces_to_underscores(t@.take(j + 1)) =~= spaces_to_underscores(t@.take(j as int)).push(
                if t@[j as int] == ' ' { '_' } else { t@[j as int] },
            ));
        }
        j = j + 1;
    }
    proof {
        assert(t@.take(m as int) =~= t@);
    }
    out
}

/// Keep the characters of a typed profile name that a file name may hold, trim
/// it, and replace spaces by underscores.
pub fn sanitize_filename(name: &str) -> (r: String)
    ensures
        r@ == sanitized_name(name@),
{
    let n = char_len(name);
    let mut flags: Vec<bool> = Vec::new();
    let mut k: usize = 0;
    while k < n
        invariant
            n == name@.len(),
            k <= n,
            flags@.len() == k,
            forall|t: int| 0 <= t < k ==> #[trigger] flags@[t] == unicode_alphanumeric(name@[t]),
        decreases n - k,
    {
        flags.push(is_alphanumeric_char(name.get_char(k)));
        k = k + 1;
    }
    assert(flags@ =~= alnum_flags(name@));
    let kept = keep_name_chars(name, &flags);
    let t = trim(kept.as_str());
    replace_spaces(t.as_str())
}

/// What a backslash escape stands for inside an AppleScript string.
pub open spec fn applescript_escape_meaning(c: char) -> char {
    if c == 'n' {
        '\n'
    } else if c == 't' {
        '\t'
    } else if c == 'r' {
        '\r'
    } else {
        c
    }
}

/// The text that `t` denotes as the body of an AppleScript double-quoted string,
/// or nothing when a bare `"` would end the string early or a backslash is left
/// dangling at the end.
pub open spec fn applescript_literal_value(t: Seq<char>) -> Option<Seq<char>>
    decreases t.len(),
{
    if t.len() == 0 {
        Some(Seq::empty())
    } else if t[0] == '"' {
        None
    } else if t[0] == '\\' {
        if t.len() < 2 {
            None
        } else {
            match applescript_literal_value(t.subrange(2, t.len() as int)) {
                Some(r) => Some(seq![applescript_escape_meaning(t[1])] + r),
                None => None,
            }
        }
    } else {
        match applescript_literal_value(t.drop_first()) {
            Some(r) => Some(seq![t[0]] + r),
            None => None,
        }
    }
}

/// Law: escaped text, put between double quotes in an AppleScript, denotes
/// exactly the original text.
pub proof fn law_applescript_escape_round_trip(s: Seq<char>)
    ensures
        applescript_literal_value(applescript_escaped(s)) == Some(s),
    decreases s.len(),
{
    reveal_strlit("\\\\");
    reveal_strlit("\\\"");
    if s.len() > 0 {
        let rest = s.drop_first();
        law_applescript_escape_round_trip(rest);
        let e = applescript_escaped(rest);
        let t = applescript_escaped(s);
        assert(t == applescript_escape_char(s[0]) + e);
        if s[0] == '\\' || s[0] == '"' {
            assert(t.subrange(2, t.len() as int) =~= e);
        } else {
            assert(t.drop_first() =~= e);
        }
        assert(seq![s[0]] + rest =~= s);
    }
}

/// Law: XML-escaped text holds no `<`, `>` or `"`.
pub proof fn law_xml_escaped_no_markup(s: Seq<char>)
    ensures
        forall|i: int|
            0 <= i < xml_escaped(s).len() ==> #[trigger] xml_escaped(s)[i] != '<' && xml_escaped(
                s,
            )[i] != '>' && xml_escaped(s)[i] != '"',
    decreases s.len(),
{
    reveal_strlit("&amp;");
    reveal_strlit("&lt;");
    reveal_strlit("&gt;");
    reveal_strlit("&quot;");
    if s.len() > 0 {
        law_xml_escaped_no_markup(s.drop_last());
        let a = xml_escaped(s.drop_last());
        let b = xml_escape_char(s.last());
        assert forall|i: int| 0 <= i < (a + b).len() implies (a + b)[i] != '<' && (a + b)[i] != '>'
            && (a + b)[i] != '"' by {
            if i >= a.len() {
                assert((a + b)[i] == b[i - a.len()]);
            } else {
                assert((a + b)[i] == a[i]);
            }
        }
    }
}

/// Law: the version text shown in the about dialog holds no backslash, double
/// quote or closing parenthesis.
pub proof fn law_version_text_safe(s: Seq<char>)
    ensures
        forall|i: int|
            0 <= i < version_text(s).len() ==> #[trigger] version_text(s)[i] != '\\' && version_text(
                s,
            )[i] != '"' && version_text(s)[i] != ')',
    decreases s.len(),
{
    if s.len() > 0 {
        law_version_text_safe(s.drop_last());
        let a = version_text(s.drop_last());
        let b = version_text_char(s.last());
        assert forall|i: int| 0 <= i < (a + b).len() implies (a + b)[i] != '\\' && (a + b)[i] != '"'
            && (a + b)[i] != ')' by {
            if i >= a.len() {
                assert((a + b)[i] == b[i - a.len()]);
            } else {
                assert((a + b)[i] == a[i]);
            }
        }
    }
}

proof fn lemma_name_chars_allowed(s: Seq<char>)
    ensures
        forall|i: int| 0 <= i < name_chars(s).len() ==> name_char_allowed(#[trigger] name_chars(s)[i]),
    decreases s.len(),
{
    if s.len() > 0 {
        let s0 = s.drop_last();
        assert(alnum_flags(s).drop_last() =~= alnum_flags(s0));
        assert(alnum_flags(s).last() == unicode_alphanumeric(s.last()));
        lemma_name_chars_allowed(s0);
        let p = name_chars(s0);
        assert forall|k: int| 0 <= k < name_chars(s).len() implies name_char_allowed(
            #[trigger] name_chars(s)[k],
        ) by {
            if k < p.len() {
                assert(name_chars(s)[k] == p[k]);
            } else {
                assert(name_chars(s)[k] == s.last());
            }
        }
    }
}

proof fn lemma_trim_keeps_chars(s: Seq<char>)
    ensures
        forall|i: int|
            0 <= i < trim_spec(s).len() ==> exists|j: int| 0 <= j < s.len() && s[j] == #[trigger] trim_spec(s)[i],
{
    let f = crate::text::whitespace_flags(s);
    crate::text::lemma_first_unflagged(f);
    crate::text::lemma_end_unflagged(f);
    let a = crate::text::first_unflagged(f);
    assert forall|i: int| 0 <= i < trim_spec(s).len() implies exists|j: int|
        0 <= j < s.len() && s[j] == #[trigger] trim_spec(s)[i] by {
        assert(s[a + i] == trim_spec(s)[i]);
    }
}

/// Law: a sanitized profile name holds only characters that `char::is_alphanumeric`
/// accepts, `-`, `_` and `.`.
pub proof fn law_sanitized_name_chars(s: Seq<char>)
    ensures
        forall|i: int|
            0 <= i < sanitized_name(s).len() ==> {
                let c = #[trigger] sanitized_name(s)[i];
                unicode_alphanumeric(c) || c == '-' || c == '_' || c == '.'
            },
{
    lemma_name_chars_allowed(s);
    lemma_trim_keeps_chars(name_chars(s));
    let t = trim_spec(name_chars(s));
    assert forall|i: int| 0 <= i < sanitized_name(s).len() implies {
        let c = #[trigger] sanitized_name(s)[i];
        unicode_alphanumeric(c) || c == '-' || c == '_' || c == '.'
    } by {
        let j = choose|j: int| 0 <= j < name_chars(s).len() && name_chars(s)[j] == t[i];
        assert(name_char_allowed(name_chars(s)[j]));
    }
}

proof fn lemma_name_chars_keeps_allowed(s: Seq<char>)
    requires
        forall|i: int| 0 <= i < s.len() ==> name_char_allowed(#[trigger] s[i]),
    ensures
        name_chars(s) == s,
    decreases s.len(),
{
    if s.len() > 0 {
        let s0 = s.drop_last();
        assert(alnum_flags(s).drop_last() =~= alnum_flags(s0));
        assert(alnum_flags(s).last() == unicode_alphanumeric(s.last()));
        assert forall|i: int| 0 <= i < s0.len() implies name_char_allowed(#[trigger] s0[i]) by {
            assert(s0[i] == s[i]);
        }
        lemma_name_chars_keeps_allowed(s0);
        assert(name_char_allowed(s[s.len() - 1]));
        assert(s0.push(s.last()) =~= s);
    }
}

/// Law: sanitizing a sanitized profile name changes nothing.
pub proof fn law_sanitize_idempotent(s: Seq<char>)
    ensures
        sanitized_name(sanitized_name(s)) == sanitized_name(s),
{
    let x = name_chars(s);
    let t = trim_spec(x);
    let r = sanitized_name(s);
    let f = crate::text::whitespace_flags(x);
    crate::text::lemma_first_unflagged(f);
    crate::text::lemma_end_unflagged(f);
    assert(r.len() == t.len());
    assert forall|i: int| 0 <= i < r.len() implies #[trigger] r[i] != ' ' by {}
    // every character of `r` survives the filter
    law_sanitized_name_chars(s);
    assert forall|i: int| 0 <= i < r.len() implies name_char_allowed(#[trigger] r[i]) by {
        let c = r[i];
        assert(unicode_alphanumeric(c) || c == '-' || c == '_' || c == '.');
    }
    lemma_name_chars_keeps_allowed(r);
    // `r` neither begins nor ends with whitespace
    let g = crate::text::whitespace_flags(r);
    if r.len() > 0 {
        let a = crate::text::first_unflagged(f);
        let b = crate::text::end_unflagged(f);
        assert(t[0] == x[a]);
        assert(!f[a]);
        assert(t[t.len() - 1] == x[b - 1]);
        assert(!f[b - 1]);
        assert(!g[0]);
        assert(!g.last());
        assert(r.subrange(0, r.len() as int) =~= r);
    } else {
        assert(trim_spec(r) =~= r);
    }
    assert(trim_spec(r) == r);
    assert(spaces_to_underscores(r) =~= r);
}

} // verus!
