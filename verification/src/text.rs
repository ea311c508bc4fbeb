//! Character-level text operations with their mathematical meaning.
//!
//! Every exec function here works on the `Seq<char>` view of its string
//! arguments and states its result through the spec functions below.
use vstd::prelude::*;

verus! {

/// Unicode `White_Space` property, the set that `char::is_whitespace` tests.
pub open spec fn is_ws(c: char) -> bool {
    ||| ('\u{9}' <= c && c <= '\u{d}')
    ||| c == ' '
    ||| c == '\u{85}'
    ||| c == '\u{a0}'
    ||| c == '\u{1680}'
    ||| ('\u{2000}' <= c && c <= '\u{200a}')
    ||| c == '\u{2028}'
    ||| c == '\u{2029}'
    ||| c == '\u{202f}'
    ||| c == '\u{205f}'
    ||| c == '\u{3000}'
}

/// `s` without its leading whitespace.
pub open spec fn trim_start_seq(s: Seq<char>) -> Seq<char>
    decreases s.len(),
{
    if s.len() > 0 && is_ws(s[0]) {
        trim_start_seq(s.drop_first())
    } else {
        s
    }
}

/// `s` without its trailing whitespace.
pub open spec fn trim_end_seq(s: Seq<char>) -> Seq<char>
    decreases s.len(),
{
    if s.len() > 0 && is_ws(s.last()) {
        trim_end_seq(s.drop_last())
    } else {
        s
    }
}

/// `s` without leading and trailing whitespace (`str::trim`).
pub open spec fn trim_seq(s: Seq<char>) -> Seq<char> {
    trim_end_seq(trim_start_seq(s))
}

/// `s` without any leading occurrence of `c` (`trim_start_matches(c)`).
pub open spec fn strip_start_char(s: Seq<char>, c: char) -> Seq<char>
    decreases s.len(),
{
    if s.len() > 0 && s[0] == c {
        strip_start_char(s.drop_first(), c)
    } else {
        s
    }
}

/// `s` without any trailing occurrence of `c` (`trim_end_matches(c)`).
pub open spec fn strip_end_char(s: Seq<char>, c: char) -> Seq<char>
    decreases s.len(),
{
    if s.len() > 0 && s.last() == c {
        strip_end_char(s.drop_last(), c)
    } else {
        s
    }
}

/// ASCII upper-casing of one character.
pub open spec fn upper_char(c: char) -> char {
    if 'a' <= c && c <= 'z' {
        ((c as u32) - 32) as char
    } else {
        c
    }
}

/// ASCII lower-casing of one character.
pub open spec fn lower_char(c: char) -> char {
    if 'A' <= c && c <= 'Z' {
        ((c as u8) + 32) as char
    } else {
        c
    }
}

/// `str::to_ascii_uppercase`.
pub open spec fn upper_seq(s: Seq<char>) -> Seq<char> {
    Seq::new(s.len(), |i: int| upper_char(s[i]))
}

/// `str::to_ascii_lowercase`.
pub open spec fn lower_seq(s: Seq<char>) -> Seq<char> {
    Seq::new(s.len(), |i: int| lower_char(s[i]))
}

/// `p` is a prefix of `s`.
pub open spec fn has_prefix(s: Seq<char>, p: Seq<char>) -> bool {
    p.len() <= s.len() && s.take(p.len() as int) == p
}

/// `p` is a suffix of `s`.
pub open spec fn has_suffix(s: Seq<char>, p: Seq<char>) -> bool {
    p.len() <= s.len() && s.skip(s.len() - p.len()) == p
}

/// `p` occurs in `s` at position `i`.
pub open spec fn occurs_at(s: Seq<char>, p: Seq<char>, i: int) -> bool {
    0 <= i && i + p.len() <= s.len() && s.subrange(i, i + p.len()) == p
}

/// The first position at or after `i` where `p` occurs in `s`.
pub open spec fn find_from(s: Seq<char>, p: Seq<char>, i: nat) -> Option<nat>
    decreases s.len() + 1 - i,
{
    if i + p.len() > s.len() {
        None
    } else if occurs_at(s, p, i as int) {
        Some(i)
    } else {
        find_from(s, p, i + 1)
    }
}

/// What the search from `i` finds: the first occurrence at or after `i`.
pub proof fn lemma_find_from(s: Seq<char>, p: Seq<char>, i: nat)
    ensures
        find_from(s, p, i) matches Some(j) ==> {
            &&& i <= j
            &&& j + p.len() <= s.len()
            &&& occurs_at(s, p, j as int)
            &&& forall|k: int| i <= k < j ==> !occurs_at(s, p, k)
        },
        find_from(s, p, i) is None ==> forall|k: int| i <= k ==> !occurs_at(s, p, k),
    decreases s.len() + 1 - i,
{
    if i + p.len() > s.len() {
    } else if occurs_at(s, p, i as int) {
    } else {
        lemma_find_from(s, p, i + 1);
    }
}

/// The first position where `p` occurs in `s` (`str::find`).
pub open spec fn find_seq(s: Seq<char>, p: Seq<char>) -> Option<nat> {
    find_from(s, p, 0)
}

/// Every occurrence of the non-empty `p` in `s`, from left to right and
/// without overlap, replaced by `r` (`str::replace`).
pub open spec fn replace_seq(s: Seq<char>, p: Seq<char>, r: Seq<char>) -> Seq<char>
    decreases s.len(),
{
    if p.len() == 0 {
        s
    } else {
        match find_seq(s, p) {
            Some(i) => {
                proof {
                    lemma_find_from(s, p, 0);
                }
                s.take(i as int) + r + replace_seq(s.skip((i + p.len()) as int), p, r)
            },
            None => s,
        }
    }
}

/// The pieces of `s` between occurrences of `c` (`str::split(c)`); there is
/// always at least one piece.
pub open spec fn split_seq(s: Seq<char>, c: char) -> Seq<Seq<char>>
    decreases s.len(),
{
    match find_seq(s, seq![c]) {
        Some(i) => {
            proof {
                lemma_find_from(s, seq![c], 0);
            }
            seq![s.take(i as int)] + split_seq(s.skip((i + 1) as int), c)
        },
        None => seq![s],
    }
}

/// The pieces joined with `sep` between them.
pub open spec fn join_seq(parts: Seq<Seq<char>>, sep: Seq<char>) -> Seq<char>
    decreases parts.len(),
{
    if parts.len() == 0 {
        seq![]
    } else if parts.len() == 1 {
        parts[0]
    } else {
        join_seq(parts.drop_last(), sep) + sep + parts.last()
    }
}

/// The digit character for `d < 10`.
pub open spec fn digit_char(d: nat) -> char {
    (('0' as u32) + d) as char
}

/// The decimal representation of `n`, without leading zeros.
pub open spec fn decimal(n: nat) -> Seq<char>
    decreases n,
{
    if n < 10 {
        seq![digit_char(n)]
    } else {
        decimal(n / 10).push(digit_char(n % 10))
    }
}

/// The upper-case form of a text under Unicode's case mapping, which may
/// change its length (`str::to_uppercase`).
pub uninterp spec fn unicode_upper(text: Seq<char>) -> Seq<char>;

/// The lower-case form of a text under Unicode's case mapping
/// (`str::to_lowercase`).
pub uninterp spec fn unicode_lower(text: Seq<char>) -> Seq<char>;

/// Upper-cases a text by Unicode's case mapping (`str::to_uppercase`).
/// Claimed: the result depends on the text alone.
#[verifier::external_body]
pub fn to_unicode_upper(text: &str) -> (r: String)
    ensures
        r@ == unicode_upper(text@),
{
    text.to_uppercase()
}

/// Lower-cases a text by Unicode's case mapping (`str::to_lowercase`).
/// Claimed: the result depends on the text alone.
#[verifier::external_body]
pub fn to_unicode_lower(text: &str) -> (r: String)
    ensures
        r@ == unicode_lower(text@),
{
    text.to_lowercase()
}

/// Appends one character to a string (`String::push`).
#[verifier::external_body]
pub(crate) fn push_char(s: &mut String, c: char)
    ensures
        final(s)@ == old(s)@.push(c),
{
    s.push(c);
}

/// The characters of a string slice, in order.
pub fn to_chars(s: &str) -> (out: Vec<char>)
    ensures
        out@ == s@,
{
    broadcast use vstd::string::group_string_axioms;

    let mut out: Vec<char> = Vec::new();
    for c in it: s.chars()
        invariant
            it.seq() == s@,
            out@ == it.seq().take(it.index() as int),
    {
        out.push(c);
    }
    out
}

/// The string made of the characters of `v[from..to]`.
pub fn from_chars_range(v: &[char], from: usize, to: usize) -> (out: String)
    requires
        from <= to <= v@.len(),
    ensures
        out@ == v@.subrange(from as int, to as int),
{
    let mut out = String::new();
    let mut i = from;
    while i < to
        invariant
            from <= i <= to <= v@.len(),
            out@ == v@.subrange(from as int, i as int),
        decreases to - i,
    {
        push_char(&mut out, v[i]);
        assert(v@.subrange(from as int, i + 1) == v@.subrange(from as int, i as int).push(v@[i as int]));
        i += 1;
    }
    out
}

/// A fresh copy of a string slice.
pub fn owned(s: &str) -> (out: String)
    ensures
        out@ == s@,
{
    s.to_owned()
}

/// `a` followed by `b`.
pub fn concat(a: &str, b: &str) -> (out: String)
    ensures
        out@ == a@ + b@,
{
    let mut out = a.to_owned();
    out.append(b);
    out
}

/// Appends `b` to `out`.
pub fn append(out: &mut String, b: &str)
    ensures
        final(out)@ == old(out)@ + b@,
{
    out.append(b);
}

proof fn lemma_trim_start_index(s: Seq<char>, i: int)
    requires
        0 <= i <= s.len(),
        forall|j: int| 0 <= j < i ==> is_ws(#[trigger] s[j]),
    ensures
        trim_start_seq(s) == trim_start_seq(s.skip(i)),
    decreases i,
{
    if i > 0 {
        assert(s.drop_first().skip(i - 1) == s.skip(i));
        assert forall|j: int| 0 <= j < i - 1 implies is_ws(#[trigger] s.drop_first()[j]) by {
            assert(s.drop_first()[j] == s[j + 1]);
        }
        lemma_trim_start_index(s.drop_first(), i - 1);
    } else {
        assert(s.skip(0) == s);
    }
}

proof fn lemma_trim_end_index(s: Seq<char>, k: int)
    requires
        0 <= k <= s.len(),
        forall|j: int| k <= j < s.len() ==> is_ws(#[trigger] s[j]),
    ensures
        trim_end_seq(s) == trim_end_seq(s.take(k)),
    decreases s.len() - k,
{
    if k < s.len() {
        assert(s.drop_last().take(k) == s.take(k));
        assert forall|j: int| k <= j < s.len() - 1 implies is_ws(#[trigger] s.drop_last()[j]) by {
            assert(s.drop_last()[j] == s[j]);
        }
        lemma_trim_end_index(s.drop_last(), k);
    } else {
        assert(s.take(k) == s);
    }
}

/// Index bounds of the trimmed part of `v`.
fn trim_bounds(v: &[char]) -> (r: (usize, usize))
    ensures
        r.0 <= r.1 <= v@.len(),
        v@.subrange(r.0 as int, r.1 as int) == trim_seq(v@),
{
    let n = v.len();
    let mut i: usize = 0;
    while i < n && is_whitespace(v[i])
        invariant
            i <= n == v@.len(),
            forall|j: int| 0 <= j < i ==> is_ws(#[trigger] v@[j]),
        decreases n - i,
    {
        i += 1;
    }
    proof {
        lemma_trim_start_index(v@, i as int);
    }
    let ghost t = v@.skip(i as int);
    assert(trim_start_seq(t) == t);
    let mut k: usize = n;
    while k > i && is_whitespace(v[k - 1])
        invariant
            i <= k <= n == v@.len(),
            t == v@.skip(i as int),
            forall|j: int| k <= j < n ==> is_ws(#[trigger] v@[j]),
        decreases k,
    {
        k -= 1;
    }
    proof {
        let m = (k - i) as int;
        assert forall|j: int| m <= j < t.len() implies is_ws(#[trigger] t[j]) by {
            assert(t[j] == v@[j + i]);
        }
        lemma_trim_end_index(t, m);
        assert(t.take(m) == v@.subrange(i as int, k as int));
        if m > 0 {
            assert(t.take(m).last() == v@[k - 1]);
        }
    }
    (i, k)
}

/// `c` has the Unicode `White_Space` property (`char::is_whitespace`).
pub fn is_whitespace(c: char) -> (r: bool)
    ensures
        r == is_ws(c),
{
    ('\u{9}' <= c && c <= '\u{d}') || c == ' ' || c == '\u{85}' || c == '\u{a0}' || c
        == '\u{1680}' || ('\u{2000}' <= c && c <= '\u{200a}') || c == '\u{2028}' || c
        == '\u{2029}' || c == '\u{202f}' || c == '\u{205f}' || c == '\u{3000}'
}

/// `str::trim`.
pub fn trim(s: &str) -> (out: String)
    ensures
        out@ == trim_seq(s@),
{
    let v = to_chars(s);
    let (i, k) = trim_bounds(v.as_slice());
    from_chars_range(v.as_slice(), i, k)
}


/// `str::trim_start`.
pub fn trim_start(s: &str) -> (out: String)
    ensures
        out@ == trim_start_seq(s@),
{
    let v = to_chars(s);
    let n = v.len();
    let mut i: usize = 0;
    while i < n && is_whitespace(v[i])
        invariant
            i <= n == v@.len(),
            v@ == s@,
            forall|j: int| 0 <= j < i ==> is_ws(#[trigger] v@[j]),
        decreases n - i,
    {
        i += 1;
    }
    proof {
        lemma_trim_start_index(v@, i as int);
    }
    let ghost t = v@.skip(i as int);
    assert(trim_start_seq(t) == t);
    assert(v@.subrange(i as int, n as int) == t);
    from_chars_range(v.as_slice(), i, n)
}

/// `Option<usize>` seen as an optional natural number.
pub open spec fn opt_nat(r: Option<usize>) -> Option<nat> {
    match r {
        Some(j) => Some(j as nat),
        None => None,
    }
}

/// A search from `i` in `s` is the search from the start of `s.skip(i)`, shifted.
pub proof fn lemma_find_skip(s: Seq<char>, p: Seq<char>, i: nat, k: nat)
    requires
        i <= s.len(),
    ensures
        find_from(s, p, i + k) == (match find_from(s.skip(i as int), p, k) {
            Some(j) => Some(j + i),
            None => None::<nat>,
        }),
    decreases s.len() + 1 - (i + k),
{
    let t = s.skip(i as int);
    if i + k + p.len() > s.len() {
    } else {
        assert(t.subrange(k as int, (k + p.len()) as int) == s.subrange(
            (i + k) as int,
            (i + k + p.len()) as int,
        ));
        if occurs_at(s, p, (i + k) as int) {
        } else {
            lemma_find_skip(s, p, i, k + 1);
        }
    }
}

/// `p` occurs in `v` at `i` (`i + p.len() <= v.len()`).
fn occurs_at_exec(v: &[char], p: &[char], i: usize) -> (r: bool)
    requires
        i + p@.len() <= v@.len(),
    ensures
        r == occurs_at(v@, p@, i as int),
{
    let n = v.len();
    let mut k: usize = 0;
    while k < p.len()
        invariant
            k <= p@.len(),
            n == v@.len(),
            i + p@.len() <= v@.len(),
            forall|m: int| 0 <= m < k ==> v@[i + m] == p@[m],
        decreases p@.len() - k,
    {
        if v[i + k] != p[k] {
            assert(v@.subrange(i as int, i + p@.len())[k as int] != p@[k as int]);
            return false;
        }
        k += 1;
    }
    assert(v@.subrange(i as int, i + p@.len()) =~= p@);
    true
}

/// The first occurrence of `p` in `v` at or after `from`.
pub fn find_chars(v: &[char], p: &[char], from: usize) -> (r: Option<usize>)
    requires
        from <= v@.len(),
    ensures
        opt_nat(r) == find_from(v@, p@, from as nat),
{
    let n = v.len();
    let mut i = from;
    while i <= n && p.len() <= n - i
        invariant
            from <= i,
            n == v@.len(),
            find_from(v@, p@, from as nat) == find_from(v@, p@, i as nat),
        decreases v@.len() + 1 - i,
    {
        if occurs_at_exec(v, p, i) {
            return Some(i);
        }
        if i == n {
            assert(find_from(v@, p@, (i + 1) as nat) is None);
            assert(find_from(v@, p@, i as nat) == find_from(v@, p@, (i + 1) as nat));
            return None;
        }
        i += 1;
    }
    None
}

/// The first position where `p` occurs in `s` (`str::find`).
pub fn find_str(s: &str, p: &str) -> (r: Option<usize>)
    ensures
        opt_nat(r) == find_seq(s@, p@),
{
    let v = to_chars(s);
    let q = to_chars(p);
    find_chars(v.as_slice(), q.as_slice(), 0)
}

/// `p` occurs in `s` (`str::contains`).
pub fn contains_str(s: &str, p: &str) -> (r: bool)
    ensures
        r == find_seq(s@, p@) is Some,
{
    find_str(s, p).is_some()
}

/// `s` starts with `p` (`str::starts_with`).
pub fn starts_with(s: &str, p: &str) -> (r: bool)
    ensures
        r == has_prefix(s@, p@),
{
    let v = to_chars(s);
    let q = to_chars(p);
    if q.len() > v.len() {
        return false;
    }
    let r = occurs_at_exec(v.as_slice(), q.as_slice(), 0);
    assert(v@.subrange(0, q@.len() as int) == v@.take(q@.len() as int));
    r
}

/// `s` ends with `p` (`str::ends_with`).
pub fn ends_with(s: &str, p: &str) -> (r: bool)
    ensures
        r == has_suffix(s@, p@),
{
    let v = to_chars(s);
    let q = to_chars(p);
    if q.len() > v.len() {
        return false;
    }
    let r = occurs_at_exec(v.as_slice(), q.as_slice(), v.len() - q.len());
    assert(v@.subrange(v@.len() - q@.len(), v@.len() as int) == v@.skip(v@.len() - q@.len()));
    r
}

/// `s` ends with the character `c`.
pub fn ends_with_char(s: &str, c: char) -> (r: bool)
    ensures
        r == (s@.len() > 0 && s@.last() == c),
{
    let v = to_chars(s);
    v.len() > 0 && v[v.len() - 1] == c
}

/// `s` starts with the character `c`.
pub fn starts_with_char(s: &str, c: char) -> (r: bool)
    ensures
        r == (s@.len() > 0 && s@[0] == c),
{
    let v = to_chars(s);
    v.len() > 0 && v[0] == c
}

/// Two strings hold the same characters.
pub fn str_eq(a: &str, b: &str) -> (r: bool)
    ensures
        r == (a@ == b@),
{
    let v = to_chars(a);
    let w = to_chars(b);
    if v.len() != w.len() {
        return false;
    }
    let r = occurs_at_exec(v.as_slice(), w.as_slice(), 0);
    assert(v@.subrange(0, w@.len() as int) == v@);
    r
}

/// ASCII upper-casing of one character (`char::to_ascii_uppercase`).
pub fn upper(c: char) -> (r: char)
    ensures
        r == upper_char(c),
{
    if 'a' <= c && c <= 'z' {
        ((c as u8) - 32) as char
    } else {
        c
    }
}

/// ASCII lower-casing of one character (`char::to_ascii_lowercase`).
pub fn lower(c: char) -> (r: char)
    ensures
        r == lower_char(c),
{
    if 'A' <= c && c <= 'Z' {
        ((c as u8) + 32) as char
    } else {
        c
    }
}

/// `str::to_ascii_uppercase`.
pub fn to_upper(s: &str) -> (out: String)
    ensures
        out@ == upper_seq(s@),
{
    let v = to_chars(s);
    let mut out = String::new();
    let mut i: usize = 0;
    while i < v.len()
        invariant
            i <= v@.len(),
            v@ == s@,
            out@ == upper_seq(s@).take(i as int),
        decreases v@.len() - i,
    {
        let c = upper(v[i]);
        push_char(&mut out, c);
        assert(upper_seq(s@).take(i + 1) == upper_seq(s@).take(i as int).push(c));
        i += 1;
    }
    assert(upper_seq(s@).take(i as int) == upper_seq(s@));
    out
}

/// `str::to_ascii_lowercase`.
pub fn to_lower(s: &str) -> (out: String)
    ensures
        out@ == lower_seq(s@),
{
    let v = to_chars(s);
    let mut out = String::new();
    let mut i: usize = 0;
    while i < v.len()
        invariant
            i <= v@.len(),
            v@ == s@,
            out@ == lower_seq(s@).take(i as int),
        decreases v@.len() - i,
    {
        let c = lower(v[i]);
        push_char(&mut out, c);
        assert(lower_seq(s@).take(i + 1) == lower_seq(s@).take(i as int).push(c));
        i += 1;
    }
    assert(lower_seq(s@).take(i as int) == lower_seq(s@));
    out
}

/// `str::eq_ignore_ascii_case`.
pub fn eq_ignore_case(a: &str, b: &str) -> (r: bool)
    ensures
        r == (lower_seq(a@) == lower_seq(b@)),
{
    let x = to_lower(a);
    let y = to_lower(b);
    str_eq(x.as_str(), y.as_str())
}

/// `trim_start_matches(c)`.
pub fn strip_start(s: &str, c: char) -> (out: String)
    ensures
        out@ == strip_start_char(s@, c),
{
    let v = to_chars(s);
    let mut i: usize = 0;
    assert(s@.skip(0) == s@);
    while i < v.len() && v[i] == c
        invariant
            i <= v@.len(),
            v@ == s@,
            strip_start_char(s@, c) == strip_start_char(s@.skip(i as int), c),
        decreases v@.len() - i,
    {
        assert(s@.skip(i as int).drop_first() == s@.skip(i + 1));
        i += 1;
    }
    from_chars_range(v.as_slice(), i, v.len())
}

/// `trim_end_matches(c)`.
pub fn strip_end(s: &str, c: char) -> (out: String)
    ensures
        out@ == strip_end_char(s@, c),
{
    let v = to_chars(s);
    let mut k: usize = v.len();
    assert(s@.take(k as int) == s@);
    while k > 0 && v[k - 1] == c
        invariant
            k <= v@.len(),
            v@ == s@,
            strip_end_char(s@, c) == strip_end_char(s@.take(k as int), c),
        decreases k,
    {
        assert(s@.take(k as int).drop_last() == s@.take(k - 1));
        k -= 1;
    }
    assert(s@.take(k as int) == v@.subrange(0, k as int));
    from_chars_range(v.as_slice(), 0, k)
}

/// Every occurrence of the non-empty `p` replaced by `r` (`str::replace`).
pub fn replace(s: &str, p: &str, r: &str) -> (out: String)
    requires
        p@.len() > 0,
    ensures
        out@ == replace_seq(s@, p@, r@),
{
    let v = to_chars(s);
    let q = to_chars(p);
    let mut out = String::new();
    let mut i: usize = 0;
    let n = v.len();
    assert(s@.skip(0) == s@);
    loop
        invariant
            n == v@.len(),
            i <= v@.len(),
            v@ == s@,
            q@ == p@,
            p@.len() > 0,
            replace_seq(s@, p@, r@) == out@ + replace_seq(s@.skip(i as int), p@, r@),
        decreases v@.len() - i,
    {
        let found = find_chars(v.as_slice(), q.as_slice(), i);
        proof {
            lemma_find_skip(s@, p@, i as nat, 0);
            lemma_find_from(s@, p@, i as nat);
        }
        match found {
            Some(j) => {
                let piece = from_chars_range(v.as_slice(), i, j);
                proof {
                    let t = s@.skip(i as int);
                    assert(find_seq(t, p@) == Some((j - i) as nat));
                    assert(t.take(j - i) == piece@);
                    assert(t.skip(j - i + p@.len()) == s@.skip(j + p@.len()));
                }
                out.append(piece.as_str());
                out.append(r);
                i = j + q.len();
            },
            None => {
                let piece = from_chars_range(v.as_slice(), i, v.len());
                assert(piece@ == s@.skip(i as int));
                out.append(piece.as_str());
                return out;
            },
        }
    }
}

/// The pieces of `s` between occurrences of `c` (`str::split(c)`).
pub fn split(s: &str, c: char) -> (out: Vec<String>)
    ensures
        out@.len() == split_seq(s@, c).len(),
        forall|k: int| 0 <= k < out@.len() ==> #[trigger] out@[k]@ == split_seq(s@, c)[k],
{
    let v = to_chars(s);
    let q: Vec<char> = vec![c];
    let mut out: Vec<String> = Vec::new();
    let mut i: usize = 0;
    let n = v.len();
    let ghost mut done: Seq<Seq<char>> = seq![];
    assert(s@.skip(0) == s@);
    loop
        invariant
            n == v@.len(),
            i <= v@.len(),
            v@ == s@,
            q@ == seq![c],
            out@.len() == done.len(),
            forall|k: int| 0 <= k < out@.len() ==> #[trigger] out@[k]@ == done[k],
            split_seq(s@, c) == done + split_seq(s@.skip(i as int), c),
        decreases v@.len() - i,
    {
        let found = find_chars(v.as_slice(), q.as_slice(), i);
        proof {
            lemma_find_skip(s@, seq![c], i as nat, 0);
            lemma_find_from(s@, seq![c], i as nat);
        }
        match found {
            Some(j) => {
                let piece = from_chars_range(v.as_slice(), i, j);
                proof {
                    let t = s@.skip(i as int);
                    assert(find_seq(t, seq![c]) == Some((j - i) as nat));
                    assert(t.take(j - i) == piece@);
                    assert(t.skip(j - i + 1) == s@.skip(j + 1));
                    assert(split_seq(t, c) == seq![piece@] + split_seq(s@.skip(j + 1), c));
                    done = done.push(piece@);
                    assert(split_seq(s@, c) == done + split_seq(s@.skip(j + 1), c));
                }
                out.push(piece);
                i = j + 1;
            },
            None => {
                let piece = from_chars_range(v.as_slice(), i, v.len());
                proof {
                    assert(piece@ == s@.skip(i as int));
                    done = done.push(piece@);
                }
                out.push(piece);
                return out;
            },
        }
    }
}

/// The digit character for `d < 10`.
fn digit(d: u64) -> (c: char)
    requires
        d < 10,
    ensures
        c == digit_char(d as nat),
{
    ((d as u8) + 48u8) as char
}

/// The decimal representation of `n` (`u64::to_string`).
pub fn decimal_string(n: u64) -> (out: String)
    ensures
        out@ == decimal(n as nat),
    decreases n,
{
    if n < 10 {
        let mut out = String::new();
        push_char(&mut out, digit(n));
        out
    } else {
        let mut out = decimal_string(n / 10);
        push_char(&mut out, digit(n % 10));
        out
    }
}


/// Replacing every `c` by text without `d` leaves no `d` behind, when `d`
/// is `c` itself or was not there to begin with.
pub proof fn lemma_replace_char_absent(s: Seq<char>, c: char, r: Seq<char>, d: char)
    requires
        d == c || !s.contains(d),
        !r.contains(d),
    ensures
        !replace_seq(s, seq![c], r).contains(d),
    decreases s.len(),
{
    let p = seq![c];
    lemma_find_from(s, p, 0);
    match find_seq(s, p) {
        Some(i) => {
            let rest = s.skip((i + 1) as int);
            if d != c {
                assert(!rest.contains(d)) by {
                    if rest.contains(d) {
                        let k = choose|k: int| 0 <= k < rest.len() && rest[k] == d;
                        assert(s[i + 1 + k] == d);
                    }
                }
            }
            lemma_replace_char_absent(rest, c, r, d);
            let rr = replace_seq(rest, p, r);
            let out = replace_seq(s, p, r);
            assert(out == s.take(i as int) + r + rr);
            if out.contains(d) {
                let k = choose|k: int| 0 <= k < out.len() && out[k] == d;
                if k < i {
                    assert(out[k] == s[k]);
                    if d == c {
                        assert(s.subrange(k, k + 1) =~= p);
                        assert(occurs_at(s, p, k));
                    } else {
                        assert(s.contains(d));
                    }
                } else if k < i + r.len() {
                    assert(out[k] == r[k - i]);
                    assert(r.contains(d));
                } else {
                    assert(out[k] == rr[k - i - r.len()]);
                    assert(rr.contains(d));
                }
            }
        },
        None => {
            if s.contains(d) {
                let k = choose|k: int| 0 <= k < s.len() && s[k] == d;
                assert(s.subrange(k, k + 1) =~= p);
                assert(occurs_at(s, p, k));
            }
        },
    }
}


/// Text that neither starts nor ends with whitespace is its own trim.
pub proof fn lemma_trim_unchanged(s: Seq<char>)
    requires
        s.len() == 0 || (!is_ws(s[0]) && !is_ws(s.last())),
    ensures
        trim_seq(s) == s,
{
}

/// Trimmed text neither starts nor ends with whitespace.
pub proof fn lemma_trim_ends(s: Seq<char>)
    ensures
        trim_seq(s).len() == 0 || (!is_ws(trim_seq(s)[0]) && !is_ws(trim_seq(s).last())),
        trim_seq(s).len() <= s.len(),
{
    lemma_trim_start_ends(s);
    lemma_trim_end_ends(trim_start_seq(s));
}

proof fn lemma_trim_start_ends(s: Seq<char>)
    ensures
        trim_start_seq(s).len() == 0 || !is_ws(trim_start_seq(s)[0]),
        trim_start_seq(s).len() <= s.len(),
        trim_start_seq(s) == s.skip(s.len() - trim_start_seq(s).len()),
    decreases s.len(),
{
    if s.len() > 0 && is_ws(s[0]) {
        lemma_trim_start_ends(s.drop_first());
        assert(s.drop_first().skip(s.drop_first().len() - trim_start_seq(s.drop_first()).len()) =~= s.skip(
            s.len() - trim_start_seq(s).len(),
        ));
    } else {
        assert(s.skip(0) =~= s);
    }
}

proof fn lemma_trim_end_ends(s: Seq<char>)
    requires
        s.len() == 0 || !is_ws(s[0]),
    ensures
        trim_end_seq(s).len() == 0 || (!is_ws(trim_end_seq(s)[0]) && !is_ws(trim_end_seq(s).last())),
        trim_end_seq(s).len() <= s.len(),
        trim_end_seq(s) == s.take(trim_end_seq(s).len() as int),
    decreases s.len(),
{
    if s.len() > 0 && is_ws(s.last()) {
        lemma_trim_end_ends(s.drop_last());
        assert(s.drop_last().take(trim_end_seq(s.drop_last()).len() as int) =~= s.take(
            trim_end_seq(s).len() as int,
        ));
    } else {
        assert(s.take(s.len() as int) =~= s);
    }
}

/// Trimming twice is trimming once.
pub proof fn lemma_trim_idempotent(s: Seq<char>)
    ensures
        trim_seq(trim_seq(s)) == trim_seq(s),
{
    lemma_trim_ends(s);
    lemma_trim_unchanged(trim_seq(s));
}

/// ASCII lower-casing keeps whitespace and non-whitespace apart.
pub proof fn lemma_lower_char_ws(c: char)
    ensures
        is_ws(lower_char(c)) == is_ws(c),
{
}

proof fn lemma_trim_start_lower(s: Seq<char>)
    ensures
        trim_start_seq(lower_seq(s)) == lower_seq(trim_start_seq(s)),
    decreases s.len(),
{
    if s.len() > 0 {
        lemma_lower_char_ws(s[0]);
        assert(lower_seq(s).drop_first() =~= lower_seq(s.drop_first()));
        if is_ws(s[0]) {
            lemma_trim_start_lower(s.drop_first());
        }
    } else {
        assert(lower_seq(s) =~= s);
    }
}

proof fn lemma_trim_end_lower(s: Seq<char>)
    ensures
        trim_end_seq(lower_seq(s)) == lower_seq(trim_end_seq(s)),
    decreases s.len(),
{
    if s.len() > 0 {
        lemma_lower_char_ws(s.last());
        assert(lower_seq(s).drop_last() =~= lower_seq(s.drop_last()));
        if is_ws(s.last()) {
            lemma_trim_end_lower(s.drop_last());
        }
    } else {
        assert(lower_seq(s) =~= s);
    }
}

/// Trimming and ASCII lower-casing commute.
pub proof fn lemma_trim_lower(s: Seq<char>)
    ensures
        trim_seq(lower_seq(s)) == lower_seq(trim_seq(s)),
{
    lemma_trim_start_lower(s);
    lemma_trim_end_lower(trim_start_seq(s));
}

/// Upper-casing a lower-cased text is upper-casing the text.
pub proof fn lemma_upper_of_lower(s: Seq<char>)
    ensures
        upper_seq(lower_seq(s)) == upper_seq(s),
{
    assert forall|i: int| 0 <= i < s.len() implies #[trigger] upper_char(lower_char(s[i])) == upper_char(s[i]) by {
        let c = s[i];
        if 'A' <= c && c <= 'Z' {
            assert(((c as u8) + 32) as char == ((c as u32) + 32) as char);
        }
    }
    assert(upper_seq(lower_seq(s)) =~= upper_seq(s));
}

/// A space in front changes nothing that trimming keeps.
proof fn lemma_trim_start_space(y: Seq<char>)
    ensures
        trim_start_seq(seq![' '] + y) == trim_start_seq(y),
{
    assert((seq![' '] + y).drop_first() =~= y);
}

/// Whitespace behind text that has some non-whitespace does not reach the
/// front; behind text that is all whitespace, it is all that is left.
proof fn lemma_trim_start_append(y: Seq<char>, w: Seq<char>)
    ensures
        (exists|i: int| 0 <= i < y.len() && !is_ws(#[trigger] y[i])) ==> trim_start_seq(y + w) == trim_start_seq(y) + w,
        (forall|i: int| 0 <= i < y.len() ==> is_ws(#[trigger] y[i])) ==> trim_start_seq(y + w) == trim_start_seq(w)
            && trim_start_seq(y).len() == 0,
    decreases y.len(),
{
    if y.len() > 0 {
        assert((y + w)[0] == y[0]);
        assert((y + w).drop_first() =~= y.drop_first() + w);
        lemma_trim_start_append(y.drop_first(), w);
        if is_ws(y[0]) {
            if exists|i: int| 0 <= i < y.len() && !is_ws(#[trigger] y[i]) {
                let i = choose|i: int| 0 <= i < y.len() && !is_ws(#[trigger] y[i]);
                assert(i > 0);
                assert(y.drop_first()[i - 1] == y[i]);
            }
            if forall|i: int| 0 <= i < y.len() ==> is_ws(#[trigger] y[i]) {
                assert forall|i: int| 0 <= i < y.drop_first().len() implies is_ws(#[trigger] y.drop_first()[i]) by {
                    assert(y.drop_first()[i] == y[i + 1]);
                }
            }
        }
    } else {
        assert(y + w =~= w);
    }
}

/// Trimming ignores a space on either side.
pub proof fn lemma_trim_padded(y: Seq<char>)
    ensures
        trim_seq(seq![' '] + y + seq![' ']) == trim_seq(y),
{
    let w = seq![' '];
    assert(seq![' '] + y + w =~= seq![' '] + (y + w));
    lemma_trim_start_space(y + w);
    lemma_trim_start_append(y, w);
    if exists|i: int| 0 <= i < y.len() && !is_ws(#[trigger] y[i]) {
        let t = trim_start_seq(y);
        assert((t + w).drop_last() =~= t);
    } else {
        assert(w[0] == ' ');
        assert(w.drop_first() =~= Seq::<char>::empty());
        assert(trim_start_seq(w.drop_first()) == Seq::<char>::empty());
        assert(trim_start_seq(w) == Seq::<char>::empty());
        assert(trim_start_seq(y) =~= Seq::<char>::empty());
    }
}


/// Trimming brings in no character that was not there.
pub proof fn lemma_trim_chars(s: Seq<char>, c: char)
    ensures
        trim_seq(s).contains(c) ==> s.contains(c),
{
    lemma_trim_start_ends(s);
    let t = trim_start_seq(s);
    lemma_trim_end_ends(t);
    if trim_seq(s).contains(c) {
        let i = choose|i: int| 0 <= i < trim_seq(s).len() && trim_seq(s)[i] == c;
        assert(trim_seq(s)[i] == t[i]);
        assert(t[i] == s[s.len() - t.len() + i]);
    }
}

/// A character that does not occur is not found.
pub proof fn lemma_find_absent_char(s: Seq<char>, c: char)
    requires
        !s.contains(c),
    ensures
        find_seq(s, seq![c]) is None,
{
    lemma_find_from(s, seq![c], 0);
    if let Some(j) = find_seq(s, seq![c]) {
        assert(s.subrange(j as int, (j + 1) as int) == seq![c]);
        assert(s[j as int] == s.subrange(j as int, (j + 1) as int)[0]);
    }
}

/// The last piece of a split holds no separator.
pub proof fn lemma_split_last_free(s: Seq<char>, c: char)
    ensures
        split_seq(s, c).len() > 0,
        !split_seq(s, c).last().contains(c),
    decreases s.len(),
{
    lemma_find_from(s, seq![c], 0);
    match find_seq(s, seq![c]) {
        Some(i) => {
            lemma_split_last_free(s.skip((i + 1) as int), c);
            assert(split_seq(s, c).last() == split_seq(s.skip((i + 1) as int), c).last());
        },
        None => {
            if s.contains(c) {
                let k = choose|k: int| 0 <= k < s.len() && s[k] == c;
                assert(s.subrange(k, k + 1) =~= seq![c]);
                assert(occurs_at(s, seq![c], k));
            }
        },
    }
}

/// A text without the separator splits into itself alone.
pub proof fn lemma_split_absent(s: Seq<char>, c: char)
    requires
        !s.contains(c),
    ensures
        split_seq(s, c) == seq![s],
{
    lemma_find_absent_char(s, c);
}


/// Replacing a character that does not occur changes nothing.
pub proof fn lemma_replace_absent_char(s: Seq<char>, c: char, r: Seq<char>)
    requires
        !s.contains(c),
    ensures
        replace_seq(s, seq![c], r) == s,
{
    lemma_find_absent_char(s, c);
}

/// Where `s` starts with `p`, the replacement begins with `r`.
pub proof fn lemma_replace_at_start(s: Seq<char>, p: Seq<char>, r: Seq<char>)
    requires
        p.len() > 0,
        occurs_at(s, p, 0),
    ensures
        replace_seq(s, p, r) == r + replace_seq(s.skip(p.len() as int), p, r),
{
    assert(s.take(0) + r == r);
}

/// Where `s` does not start with `p`, its first character stays as it is.
pub proof fn lemma_replace_past_start(s: Seq<char>, p: Seq<char>, r: Seq<char>)
    requires
        p.len() > 0,
        s.len() > 0,
        !occurs_at(s, p, 0),
    ensures
        replace_seq(s, p, r) == seq![s[0]] + replace_seq(s.skip(1), p, r),
{
    let t = s.skip(1);
    lemma_find_skip(s, p, 1, 0);
    lemma_find_from(s, p, 0);
    lemma_find_from(t, p, 0);
    if p.len() > s.len() {
        assert(s == seq![s[0]] + t);
    } else {
        match find_seq(t, p) {
            Some(j) => {
                let a: int = j as int + 1;
                let b: int = j as int + 1 + p.len() as int;
                let c: int = j as int + p.len() as int;
                assert(s.take(a) == seq![s[0]] + t.take(j as int));
                assert(s.skip(b) == t.skip(c));
                assert(s.take(a) + r + replace_seq(s.skip(b), p, r) == seq![s[0]]
                    + (t.take(j as int) + r + replace_seq(t.skip(c), p, r)));
            },
            None => {
                assert(s == seq![s[0]] + t);
            },
        }
    }
}

/// A prefix without the first character of `p` passes through a
/// replacement unchanged.
pub proof fn lemma_replace_free_prefix(t: Seq<char>, x: Seq<char>, p: Seq<char>, r: Seq<char>)
    requires
        p.len() > 0,
        forall|i: int| 0 <= i < t.len() ==> t[i] != p[0],
    ensures
        replace_seq(t + x, p, r) == t + replace_seq(x, p, r),
    decreases t.len(),
{
    if t.len() == 0 {
        assert(t + x == x);
        assert(t + replace_seq(x, p, r) == replace_seq(x, p, r));
    } else {
        let s = t + x;
        assert(s[0] == t[0]);
        if occurs_at(s, p, 0) {
            assert(s.subrange(0, p.len() as int)[0] == p[0]);
        }
        lemma_replace_past_start(s, p, r);
        assert(s.skip(1) == t.skip(1) + x);
        lemma_replace_free_prefix(t.skip(1), x, p, r);
        assert(seq![t[0]] + (t.skip(1) + replace_seq(x, p, r)) == t + replace_seq(x, p, r));
    }
}

/// A replacement works piece by piece across a joint that no occurrence
/// of `p` straddles.
pub proof fn lemma_replace_concat(t: Seq<char>, x: Seq<char>, p: Seq<char>, r: Seq<char>)
    requires
        p.len() > 0,
        forall|k: int| 0 <= k < t.len() && t.len() < k + p.len() ==> !occurs_at(t + x, p, k),
    ensures
        replace_seq(t + x, p, r) == replace_seq(t, p, r) + replace_seq(x, p, r),
    decreases t.len(),
{
    let s = t + x;
    if t.len() == 0 {
        lemma_find_from(t, p, 0);
        assert(s =~= x);
        assert(replace_seq(t, p, r) + replace_seq(x, p, r) =~= replace_seq(x, p, r));
    } else if occurs_at(s, p, 0) {
        assert(p.len() <= t.len());
        assert(t.subrange(0, p.len() as int) =~= s.subrange(0, p.len() as int));
        lemma_replace_at_start(s, p, r);
        lemma_replace_at_start(t, p, r);
        let u = t.skip(p.len() as int);
        assert(s.skip(p.len() as int) =~= u + x);
        assert forall|k: int| 0 <= k < u.len() && u.len() < k + p.len() implies !occurs_at(u + x, p, k) by {
            if occurs_at(u + x, p, k) {
                assert((u + x).subrange(k, k + p.len()) =~= s.subrange(k + p.len(), k + p.len() + p.len()));
                assert(occurs_at(s, p, k + p.len()));
            }
        }
        lemma_replace_concat(u, x, p, r);
        assert(r + (replace_seq(u, p, r) + replace_seq(x, p, r)) =~= (r + replace_seq(u, p, r))
            + replace_seq(x, p, r));
    } else {
        if occurs_at(t, p, 0) {
            assert(t.subrange(0, p.len() as int) =~= s.subrange(0, p.len() as int));
        }
        lemma_replace_past_start(s, p, r);
        lemma_replace_past_start(t, p, r);
        let u = t.skip(1);
        assert(s.skip(1) =~= u + x);
        assert(s[0] == t[0]);
        assert forall|k: int| 0 <= k < u.len() && u.len() < k + p.len() implies !occurs_at(u + x, p, k) by {
            if occurs_at(u + x, p, k) {
                assert((u + x).subrange(k, k + p.len()) =~= s.subrange(k + 1, k + 1 + p.len()));
                assert(occurs_at(s, p, k + 1));
            }
        }
        lemma_replace_concat(u, x, p, r);
        assert(seq![t[0]] + (replace_seq(u, p, r) + replace_seq(x, p, r)) =~= (seq![t[0]] + replace_seq(
            u,
            p,
            r,
        )) + replace_seq(x, p, r));
    }
}

/// A replacement works piece by piece across a joint where the last
/// character before it, or the first after it, is not in `p`.
pub proof fn lemma_replace_split(t: Seq<char>, x: Seq<char>, p: Seq<char>, r: Seq<char>)
    requires
        p.len() > 0,
        (t.len() > 0 && !p.contains(t.last())) || (x.len() > 0 && !p.contains(x[0])),
    ensures
        replace_seq(t + x, p, r) == replace_seq(t, p, r) + replace_seq(x, p, r),
{
    let s = t + x;
    assert forall|k: int| 0 <= k < t.len() && t.len() < k + p.len() implies !occurs_at(s, p, k) by {
        if occurs_at(s, p, k) {
            let w = s.subrange(k, k + p.len());
            if t.len() > 0 && !p.contains(t.last()) {
                let m = t.len() - 1 - k;
                assert(w[m] == s[t.len() - 1]);
                assert(p[m] == t.last());
            } else {
                let m = t.len() - k;
                assert(w[m] == s[t.len() as int]);
                assert(p[m] == x[0]);
            }
        }
    }
    lemma_replace_concat(t, x, p, r);
}

/// A text without the first character of `p` is left as it is.
pub proof fn lemma_replace_free(t: Seq<char>, p: Seq<char>, r: Seq<char>)
    requires
        p.len() > 0,
        forall|i: int| 0 <= i < t.len() ==> t[i] != p[0],
    ensures
        replace_seq(t, p, r) == t,
{
    let e = Seq::<char>::empty();
    lemma_replace_free_prefix(t, e, p, r);
    lemma_find_from(e, p, 0);
    assert(t + e =~= t);
    assert(t + replace_seq(e, p, r) =~= t);
}

/// `p` itself is replaced by `r`.
pub proof fn lemma_replace_whole(p: Seq<char>, r: Seq<char>)
    requires
        p.len() > 0,
    ensures
        replace_seq(p, p, r) == r,
{
    assert(p.subrange(0, p.len() as int) =~= p);
    lemma_replace_at_start(p, p, r);
    let e = p.skip(p.len() as int);
    assert(e =~= Seq::<char>::empty());
    lemma_find_from(e, p, 0);
    assert(r + replace_seq(e, p, r) =~= r);
}

} // verus!
