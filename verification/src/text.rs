//! Character and string helpers shared by the extraction rules.
//!
//! All matching the engine performs on page text (labels, status words,
//! separators, locale suffixes) is defined here over `Seq<char>` views, so
//! the extractors' contracts can state exactly which text they accept.

use vstd::prelude::*;

verus! {

/// ASCII lower-casing of one character; everything outside `A..=Z` is kept.
pub open spec fn lower_char(c: char) -> char {
    if 'A' <= c && c <= 'Z' {
        ((c as u32) + 32) as char
    } else {
        c
    }
}

/// Case-insensitive equality of two character sequences (ASCII folding).
pub open spec fn seq_eq_ci(a: Seq<char>, b: Seq<char>) -> bool {
    a.len() == b.len() && forall|i: int| 0 <= i < a.len() ==> lower_char(a[i]) == lower_char(b[i])
}

/// ASCII lower-casing, executable form.
pub fn lower_char_exec(c: char) -> (r: char)
    ensures
        r == lower_char(c),
{
    if 'A' <= c && c <= 'Z' {
        let u: u8 = c as u8;
        (u + 32) as char
    } else {
        c
    }
}

/// Case-insensitive string equality (ASCII folding).
pub fn str_eq_ci(a: &str, b: &str) -> (r: bool)
    ensures
        r == seq_eq_ci(a@, b@),
{
    let alen: usize = a.unicode_len();
    let blen: usize = b.unicode_len();
    if alen != blen {
        return false;
    }
    let mut i: usize = 0;
    while i < alen
        invariant
            alen == a@.len(),
            blen == b@.len(),
            alen == blen,
            i <= alen,
            forall|j: int| 0 <= j < i ==> lower_char(a@[j]) == lower_char(b@[j]),
        decreases alen - i,
    {
        let ca = lower_char_exec(a.get_char(i));
        let cb = lower_char_exec(b.get_char(i));
        if ca != cb {
            return false;
        }
        i = i + 1;
    }
    true
}

/// `pat` occurs in `s` at position `i`.
pub open spec fn matches_at(s: Seq<char>, pat: Seq<char>, i: int) -> bool {
    0 <= i && i + pat.len() <= s.len() && s.subrange(i, i + pat.len()) == pat
}

/// Position of the first occurrence of `pat` in `s` at or after `i`.
pub open spec fn find_from(s: Seq<char>, pat: Seq<char>, i: int) -> Option<int>
    decreases s.len() - i,
{
    if i < 0 || i + pat.len() > s.len() {
        None
    } else if pat.len() == 0 || matches_at(s, pat, i) {
        Some(i)
    } else {
        find_from(s, pat, i + 1)
    }
}

/// `s` ends with `sfx`.
pub open spec fn ends_with_spec(s: Seq<char>, sfx: Seq<char>) -> bool {
    sfx.len() <= s.len() && s.subrange(s.len() - sfx.len(), s.len() as int) == sfx
}

/// `s` starts with `pre`.
pub open spec fn starts_with_spec(s: Seq<char>, pre: Seq<char>) -> bool {
    pre.len() <= s.len() && s.subrange(0, pre.len() as int) == pre
}

/// Compare `s[i..i+pat.len()]` with `pat`, character by character.
pub fn matches_at_exec(s: &str, pat: &str, i: usize) -> (r: bool)
    requires
        i + pat@.len() <= s@.len(),
    ensures
        r == matches_at(s@, pat@, i as int),
{
    let slen: usize = s.unicode_len();
    let plen: usize = pat.unicode_len();
    let mut j: usize = 0;
    while j < plen
        invariant
            slen == s@.len(),
            plen == pat@.len(),
            i + plen <= slen,
            j <= plen,
            forall|k: int| 0 <= k < j ==> s@[i + k] == pat@[k],
        decreases plen - j,
    {
        if s.get_char(i + j) != pat.get_char(j) {
            assert(s@.subrange(i as int, i + pat@.len()) != pat@) by {
                assert(s@.subrange(i as int, i + pat@.len())[j as int] == s@[i + j]);
            }
            return false;
        }
        j = j + 1;
    }
    assert(s@.subrange(i as int, i + pat@.len()) =~= pat@);
    true
}

/// First occurrence of `pat` in `s`, if any.
pub fn find_sub(s: &str, pat: &str) -> (r: Option<usize>)
    ensures
        match r {
            Some(i) => find_from(s@, pat@, 0) == Some(i as int),
            None => find_from(s@, pat@, 0) is None,
        },
{
    let slen: usize = s.unicode_len();
    let plen: usize = pat.unicode_len();
    if plen > slen {
        return None;
    }
    if plen == 0 {
        return Some(0);
    }
    let mut i: usize = 0;
    while i <= slen - plen
        invariant
            slen == s@.len(),
            plen == pat@.len(),
            1 <= plen <= slen,
            i <= slen - plen + 1,
            find_from(s@, pat@, 0) == find_from(s@, pat@, i as int),
        decreases slen - plen - i + 1,
    {
        if matches_at_exec(s, pat, i) {
            return Some(i);
        }
        i = i + 1;
    }
    None
}

/// `s` ends with `sfx`, character by character.
pub fn ends_with_exec(s: &str, sfx: &str) -> (r: bool)
    ensures
        r == ends_with_spec(s@, sfx@),
{
    let slen: usize = s.unicode_len();
    let flen: usize = sfx.unicode_len();
    if flen > slen {
        return false;
    }
    let r = matches_at_exec(s, sfx, slen - flen);
    assert(matches_at(s@, sfx@, s@.len() - sfx@.len()) == ends_with_spec(s@, sfx@));
    r
}

/// `s` starts with `pre`, character by character.
pub fn starts_with_exec(s: &str, pre: &str) -> (r: bool)
    ensures
        r == starts_with_spec(s@, pre@),
{
    let slen: usize = s.unicode_len();
    let plen: usize = pre.unicode_len();
    if plen > slen {
        return false;
    }
    matches_at_exec(s, pre, 0)
}

/// `s` with every trailing copy of `sfx` removed. For an empty `sfx` the
/// sequence is kept as it is.
pub open spec fn strip_suffix_all(s: Seq<char>, sfx: Seq<char>) -> Seq<char>
    decreases s.len(),
{
    if sfx.len() > 0 && ends_with_spec(s, sfx) {
        strip_suffix_all(s.subrange(0, s.len() - sfx.len()), sfx)
    } else {
        s
    }
}

/// The result of the suffix strip never still ends with the suffix.
pub proof fn lemma_strip_suffix_all_clean(s: Seq<char>, sfx: Seq<char>)
    requires
        sfx.len() > 0,
    ensures
        !ends_with_spec(strip_suffix_all(s, sfx), sfx),
    decreases s.len(),
{
    if ends_with_spec(s, sfx) {
        lemma_strip_suffix_all_clean(s.subrange(0, s.len() - sfx.len()), sfx);
    }
}

/// Stripping trailing suffix copies is idempotent.
pub proof fn lemma_strip_suffix_all_idempotent(s: Seq<char>, sfx: Seq<char>)
    ensures
        strip_suffix_all(strip_suffix_all(s, sfx), sfx) == strip_suffix_all(s, sfx),
{
    if sfx.len() > 0 {
        lemma_strip_suffix_all_clean(s, sfx);
    }
}

/// Remove every trailing copy of `sfx` from `s`.
pub fn strip_suffix_repeat(s: &str, sfx: &str) -> (r: String)
    ensures
        r@ == strip_suffix_all(s@, sfx@),
{
    let flen: usize = sfx.unicode_len();
    let mut cur: String = s.to_owned();
    if flen == 0 {
        return cur;
    }
    let mut curlen: usize = s.unicode_len();
    loop
        invariant
            flen == sfx@.len(),
            flen > 0,
            curlen == cur@.len(),
            strip_suffix_all(cur@, sfx@) == strip_suffix_all(s@, sfx@),
        decreases curlen,
    {
        if !ends_with_exec(cur.as_str(), sfx) {
            return cur;
        }
        cur = cur.as_str().substring_char(0, curlen - flen).to_owned();
        curlen = curlen - flen;
    }
}

/// The text after the first occurrence of `sep` in `s`; `s` itself when
/// `sep` does not occur. An empty `sep` occurs at position zero, so the
/// sequence is then kept whole.
pub open spec fn after_first_sep(s: Seq<char>, sep: Seq<char>) -> Seq<char> {
    match find_from(s, sep, 0) {
        Some(i) => s.subrange(i + sep.len(), s.len() as int),
        None => s,
    }
}

/// Keep the part of a title after the first separator occurrence; hand the
/// title back unchanged when the separator is absent.
pub fn strip_through_separator(s: &str, sep: &str) -> (r: String)
    ensures
        r@ == after_first_sep(s@, sep@),
{
    match find_sub(s, sep) {
        Some(i) => {
            let slen: usize = s.unicode_len();
            let seplen: usize = sep.unicode_len();
            proof {
                lemma_find_from_in_range(s@, sep@, 0);
            }
            s.substring_char(i + seplen, slen).to_owned()
        },
        None => s.to_owned(),
    }
}

/// A found occurrence lies inside the sequence.
pub proof fn lemma_find_from_in_range(s: Seq<char>, pat: Seq<char>, i: int)
    requires
        find_from(s, pat, i) is Some,
    ensures
        i <= find_from(s, pat, i)->Some_0,
        find_from(s, pat, i)->Some_0 + pat.len() <= s.len(),
    decreases s.len() - i,
{
    if !(i < 0 || i + pat.len() > s.len()) && !(pat.len() == 0 || matches_at(s, pat, i)) {
        lemma_find_from_in_range(s, pat, i + 1);
    }
}

/// A pattern that occurs nowhere at or after `i` is not found.
pub proof fn lemma_find_from_none(s: Seq<char>, pat: Seq<char>, i: int)
    requires
        pat.len() > 0,
        forall|k: int| i <= k && k + pat.len() <= s.len() ==> !matches_at(s, pat, k),
    ensures
        find_from(s, pat, i) is None,
    decreases s.len() - i,
{
    if !(i < 0 || i + pat.len() > s.len()) {
        lemma_find_from_none(s, pat, i + 1);
    }
}

/// The earliest occurrence at or after `j` is the one found.
pub proof fn lemma_find_from_at(s: Seq<char>, pat: Seq<char>, j: int, m: int)
    requires
        pat.len() > 0,
        0 <= j <= m,
        matches_at(s, pat, m),
        forall|k: int| j <= k < m ==> !matches_at(s, pat, k),
    ensures
        find_from(s, pat, j) == Some(m),
    decreases m - j,
{
    if j < m {
        lemma_find_from_at(s, pat, j + 1, m);
    }
}

/// Plain whitespace, as page text carries it.
pub open spec fn is_space(c: char) -> bool {
    c == ' ' || c == '\t' || c == '\n' || c == '\r'
}

/// `s` without leading whitespace.
pub open spec fn trim_left(s: Seq<char>) -> Seq<char>
    decreases s.len(),
{
    if s.len() > 0 && is_space(s[0]) {
        trim_left(s.subrange(1, s.len() as int))
    } else {
        s
    }
}

/// `s` without trailing whitespace.
pub open spec fn trim_right(s: Seq<char>) -> Seq<char>
    decreases s.len(),
{
    if s.len() > 0 && is_space(s[s.len() - 1]) {
        trim_right(s.subrange(0, s.len() - 1))
    } else {
        s
    }
}

/// `s` without leading and trailing whitespace.
pub open spec fn trim_spec(s: Seq<char>) -> Seq<char> {
    trim_right(trim_left(s))
}

/// Executable whitespace test.
pub fn is_space_exec(c: char) -> (r: bool)
    ensures
        r == is_space(c),
{
    c == ' ' || c == '\t' || c == '\n' || c == '\r'
}

/// Remove leading and trailing whitespace.
pub fn trim(s: &str) -> (r: String)
    ensures
        r@ == trim_spec(s@),
{
    let slen: usize = s.unicode_len();
    proof {
        assert(s@.subrange(0, slen as int) =~= s@);
    }
    let mut a: usize = 0;
    while a < slen && is_space_exec(s.get_char(a))
        invariant
            slen == s@.len(),
            a <= slen,
            trim_left(s@) == trim_left(s@.subrange(a as int, slen as int)),
        decreases slen - a,
    {
        proof {
            let tail = s@.subrange(a as int, slen as int);
            assert(tail.subrange(1, tail.len() as int) =~= s@.subrange(a + 1, slen as int));
        }
        a = a + 1;
    }
    proof {
        assert(trim_left(s@) =~= s@.subrange(a as int, slen as int));
    }
    let mut b: usize = slen;
    while b > a && is_space_exec(s.get_char(b - 1))
        invariant
            slen == s@.len(),
            a <= b <= slen,
            trim_left(s@) == s@.subrange(a as int, slen as int),
            trim_right(s@.subrange(a as int, slen as int)) == trim_right(
                s@.subrange(a as int, b as int),
            ),
        decreases b,
    {
        proof {
            let part = s@.subrange(a as int, b as int);
            assert(part.subrange(0, part.len() - 1) =~= s@.subrange(a as int, b - 1));
        }
        b = b - 1;
    }
    proof {
        let part = s@.subrange(a as int, b as int);
        if b > a {
            assert(!is_space(part[part.len() - 1]));
        }
        assert(trim_right(part) == part);
    }
    s.substring_char(a, b).to_owned()
}

/// The sequences in `parts`, joined with `sep` between neighbours.
pub open spec fn join_with(parts: Seq<Seq<char>>, sep: Seq<char>) -> Seq<char>
    decreases parts.len(),
{
    if parts.len() == 0 {
        Seq::empty()
    } else if parts.len() == 1 {
        parts[0]
    } else {
        parts[0] + sep + join_with(parts.subrange(1, parts.len() as int), sep)
    }
}

/// Appending one more part extends the joined text by a separator and the part.
pub proof fn lemma_join_with_push(parts: Seq<Seq<char>>, sep: Seq<char>, x: Seq<char>)
    ensures
        join_with(parts.push(x), sep) == if parts.len() == 0 {
            x
        } else {
            (join_with(parts, sep) + sep + x)
        },
    decreases parts.len(),
{
    if parts.len() == 0 {
        assert(parts.push(x)[0] == x);
        assert(parts.push(x).len() == 1);
    } else {
        let p = parts.push(x);
        assert(p.subrange(1, p.len() as int) =~= parts.subrange(1, parts.len() as int).push(x));
        lemma_join_with_push(parts.subrange(1, parts.len() as int), sep, x);
        if parts.len() == 1 {
            assert(join_with(parts, sep) == parts[0]);
        }
    }
}

/// Views of a vector of strings.
pub open spec fn views_of(v: Seq<String>) -> Seq<Seq<char>> {
    v.map_values(|s: String| s@)
}

/// Join the strings in `parts` with `sep` between neighbours.
pub fn join_strings(parts: &Vec<String>, sep: &str) -> (r: String)
    ensures
        r@ == join_with(views_of(parts@), sep@),
{
    let mut acc = String::new();
    let n: usize = parts.len();
    let mut i: usize = 0;
    while i < n
        invariant
            n == parts@.len(),
            i <= n,
            acc@ == join_with(views_of(parts@).subrange(0, i as int), sep@),
        decreases n - i,
    {
        if i > 0 {
            acc.append(sep);
        }
        acc.append(parts[i].as_str());
        proof {
            let vs = views_of(parts@);
            assert(vs.subrange(0, i + 1) =~= vs.subrange(0, i as int).push(vs[i as int]));
            lemma_join_with_push(vs.subrange(0, i as int), sep@, vs[i as int]);
        }
        i = i + 1;
    }
    proof {
        assert(views_of(parts@).subrange(0, n as int) =~= views_of(parts@));
    }
    acc
}

/// The character for one decimal digit.
pub open spec fn digit_char(d: int) -> char {
    if d == 0 {
        '0'
    } else if d == 1 {
        '1'
    } else if d == 2 {
        '2'
    } else if d == 3 {
        '3'
    } else if d == 4 {
        '4'
    } else if d == 5 {
        '5'
    } else if d == 6 {
        '6'
    } else if d == 7 {
        '7'
    } else if d == 8 {
        '8'
    } else {
        '9'
    }
}

/// Decimal rendering of a number, most significant digit first.
pub open spec fn dec_string(n: nat) -> Seq<char>
    decreases n,
{
    if n < 10 {
        seq![digit_char(n as int)]
    } else {
        dec_string(n / 10).push(digit_char((n % 10) as int))
    }
}

/// One decimal digit as a string slice.
pub fn digit_str(d: usize) -> (r: &'static str)
    requires
        d < 10,
    ensures
        r@ =~= seq![digit_char(d as int)],
{
    if d == 0 {
        proof {
            reveal_strlit("0");
        }
        "0"
    } else if d == 1 {
        proof {
            reveal_strlit("1");
        }
        "1"
    } else if d == 2 {
        proof {
            reveal_strlit("2");
        }
        "2"
    } else if d == 3 {
        proof {
            reveal_strlit("3");
        }
        "3"
    } else if d == 4 {
        proof {
            reveal_strlit("4");
        }
        "4"
    } else if d == 5 {
        proof {
            reveal_strlit("5");
        }
        "5"
    } else if d == 6 {
        proof {
            reveal_strlit("6");
        }
        "6"
    } else if d == 7 {
        proof {
            reveal_strlit("7");
        }
        "7"
    } else if d == 8 {
        proof {
            reveal_strlit("8");
        }
        "8"
    } else {
        proof {
            reveal_strlit("9");
        }
        "9"
    }
}

/// Render a number in decimal.
pub fn usize_to_dec(n: usize) -> (r: String)
    ensures
        r@ == dec_string(n as nat),
    decreases n,
{
    if n < 10 {
        digit_str(n).to_owned()
    } else {
        let mut s = usize_to_dec(n / 10);
        s.append(digit_str(n % 10));
        proof {
            assert(s@ =~= dec_string((n / 10) as nat).push(digit_char((n % 10) as int)));
        }
        s
    }
}

/// Encoding of one character for a URL query value: a space becomes `+`,
/// the separators `&`, `=` and `#` are percent-escaped, everything else is
/// carried through.
pub open spec fn enc_char(c: char) -> Seq<char> {
    if c == ' ' {
        seq!['+']
    } else if c == '&' {
        seq!['%', '2', '6']
    } else if c == '=' {
        seq!['%', '3', 'D']
    } else if c == '#' {
        seq!['%', '2', '3']
    } else {
        seq![c]
    }
}

/// Query-value encoding of a whole sequence.
pub open spec fn enc_query(s: Seq<char>) -> Seq<char>
    decreases s.len(),
{
    if s.len() == 0 {
        Seq::empty()
    } else {
        enc_char(s[0]) + enc_query(s.subrange(1, s.len() as int))
    }
}

/// Encoding one more character extends the encoded text at its end.
pub proof fn lemma_enc_query_push(s: Seq<char>, c: char)
    ensures
        enc_query(s.push(c)) == enc_query(s) + enc_char(c),
    decreases s.len(),
{
    let p = s.push(c);
    if s.len() == 0 {
        assert(p[0] == c);
        assert(p.subrange(1, p.len() as int) =~= Seq::<char>::empty());
        assert(enc_query(Seq::<char>::empty()) == Seq::<char>::empty());
        assert(enc_query(p) =~= enc_char(c));
        assert(enc_query(s) + enc_char(c) =~= enc_char(c));
    } else {
        assert(p.subrange(1, p.len() as int) =~= s.subrange(1, s.len() as int).push(c));
        lemma_enc_query_push(s.subrange(1, s.len() as int), c);
        assert(enc_query(p) =~= enc_query(s) + enc_char(c));
    }
}

/// Encode a search value for use inside a URL query.
pub fn encode_query_value(s: &str) -> (r: String)
    ensures
        r@ == enc_query(s@),
{
    let slen: usize = s.unicode_len();
    let mut acc = String::new();
    let mut i: usize = 0;
    while i < slen
        invariant
            slen == s@.len(),
            i <= slen,
            acc@ == enc_query(s@.subrange(0, i as int)),
        decreases slen - i,
    {
        let c = s.get_char(i);
        if c == ' ' {
            proof {
                reveal_strlit("+");
            }
            acc.append("+");
        } else if c == '&' {
            proof {
                reveal_strlit("%26");
            }
            acc.append("%26");
        } else if c == '=' {
            proof {
                reveal_strlit("%3D");
            }
            acc.append("%3D");
        } else if c == '#' {
            proof {
                reveal_strlit("%23");
            }
            acc.append("%23");
        } else {
            acc.append(s.substring_char(i, i + 1));
            proof {
                assert(s@.subrange(i as int, i + 1) =~= seq![s@[i as int]]);
            }
        }
        proof {
            assert(s@.subrange(0, i + 1) =~= s@.subrange(0, i as int).push(s@[i as int]));
            lemma_enc_query_push(s@.subrange(0, i as int), s@[i as int]);
        }
        i = i + 1;
    }
    proof {
        assert(s@.subrange(0, slen as int) =~= s@);
    }
    acc
}

} // verus!
