use vstd::prelude::*;
use vstd::utf8::{decode_utf8, valid_utf8};

verus! {

/// The characters of `s`, in order.
pub fn chars_of(s: &str) -> (out: Vec<char>)
    ensures
        out@ == s@,
{
    let mut out: Vec<char> = Vec::new();
    for c in it: s.chars()
        invariant
            out@ == it.seq().take(it.index() as int),
    {
        out.push(c);
    }
    out
}

/// Whether two strings hold the same characters.
pub fn str_eq(a: &str, b: &str) -> (r: bool)
    ensures
        r == (a@ == b@),
{
    let x = a.to_owned();
    let y = b.to_owned();
    x == y
}

/// An owned copy of `s`.
pub fn owned(s: &str) -> (r: String)
    ensures
        r@ == s@,
{
    s.to_owned()
}

/// `a` followed by `b`.
pub fn join2(a: &str, b: &str) -> (r: String)
    ensures
        r@ == a@ + b@,
{
    let mut r = a.to_owned();
    r.append(b);
    r
}

/// The text of an optional string, the empty string when there is none.
pub open spec fn or_empty_spec(o: Option<Seq<char>>) -> Seq<char> {
    match o {
        Some(s) => s,
        None => Seq::empty(),
    }
}

pub fn or_empty(o: Option<String>) -> (r: String)
    ensures
        r@ == or_empty_spec(o.deep_view()),
{
    match o {
        Some(s) => s,
        None => String::new(),
    }
}

pub fn clone_opt(o: &Option<String>) -> (r: Option<String>)
    ensures
        r == *o,
{
    match o {
        Some(s) => Some(s.clone()),
        None => None,
    }
}

/// Appends one character. Trusted: `String::push` adds `c` at the end.
#[verifier::external_body]
pub(crate) fn push_char(s: &mut String, c: char)
    ensures
        final(s)@ == old(s)@.push(c),
{
    s.push(c);
}

/// The string made of the characters `cs`.
pub fn string_from_chars(cs: &Vec<char>) -> (r: String)
    ensures
        r@ == cs@,
{
    let mut r = String::new();
    let mut i: usize = 0;
    while i < cs.len()
        invariant
            i <= cs.len(),
            r@ == cs@.take(i as int),
        decreases cs.len() - i,
    {
        push_char(&mut r, cs[i]);
        assert(cs@.take(i as int + 1) =~= cs@.take(i as int).push(cs@[i as int]));
        i = i + 1;
    }
    assert(cs@.take(cs.len() as int) =~= cs@);
    r
}

/// The text of `{:?}` on an optional string slice: `None`, or `Some("…")` with Rust's escaping.
pub uninterp spec fn debug_text_of_opt_str(o: Option<Seq<char>>) -> Seq<char>;

/// Formats an optional string slice with `{:?}`. Trusted: the result is
/// `debug_text_of_opt_str` of the argument.
#[verifier::external_body]
pub(crate) fn debug_opt_str(o: Option<&str>) -> (r: String)
    ensures
        r@ == debug_text_of_opt_str(match o { Some(s) => Some(s@), None => None }),
{
    format!("{o:?}")
}

} // verus!

verus! {

/// Whether `needle` occurs in `hay` as a run of consecutive characters.
pub open spec fn has_infix(hay: Seq<char>, needle: Seq<char>) -> bool {
    exists|i: int| 0 <= i && i + needle.len() <= hay.len() && #[trigger] hay.subrange(i, i + needle.len()) == needle
}

fn matches_at(h: &Vec<char>, n: &Vec<char>, i: usize) -> (r: bool)
    requires
        i + n.len() <= h.len(),
    ensures
        r == (h@.subrange(i as int, i + n.len()) == n@),
{
    let mut j: usize = 0;
    while j < n.len()
        invariant
            i + n.len() <= h.len(),
            j <= n.len(),
            forall|q: int| 0 <= q < j ==> h@[i + q] == n@[q],
        decreases n.len() - j,
    {
        if h[i + j] != n[j] {
            assert(h@.subrange(i as int, i + n.len())[j as int] != n@[j as int]);
            return false;
        }
        j = j + 1;
    }
    assert(h@.subrange(i as int, i + n.len()) =~= n@);
    true
}

/// Whether `needle` occurs in `hay`.
pub fn contains_str(hay: &str, needle: &str) -> (r: bool)
    ensures
        r == has_infix(hay@, needle@),
{
    let h = chars_of(hay);
    let n = chars_of(needle);
    if n.len() > h.len() {
        assert forall|q: int| 0 <= q && q + needle@.len() <= hay@.len() implies #[trigger] hay@.subrange(q, q + needle@.len()) != needle@ by {}
        return false;
    }
    let last = h.len() - n.len();
    let mut i: usize = 0;
    while i <= last
        invariant
            h@ == hay@,
            n@ == needle@,
            last == h.len() - n.len(),
            n.len() <= h.len(),
            i <= last + 1,
            forall|q: int| 0 <= q < i ==> #[trigger] h@.subrange(q, q + n.len()) != n@,
        decreases last + 1 - i,
    {
        if matches_at(&h, &n, i) {
            assert(hay@.subrange(i as int, i + needle@.len()) == needle@);
            return true;
        }
        if i == last {
            assert forall|q: int| 0 <= q && q + needle@.len() <= hay@.len() implies #[trigger] hay@.subrange(q, q + needle@.len()) != needle@ by {
                assert(q <= i);
                assert(h@.subrange(q, q + n.len()) != n@);
            }
            return false;
        }
        i = i + 1;
    }
    false
}

} // verus!

verus! {

/// Unicode `White_Space`, the property `char::is_whitespace` tests.
pub open spec fn is_ws(c: char) -> bool {
    ||| ('\t' <= c && c <= '\r')
    ||| c == ' '
    ||| c == '\u{85}'
    ||| c == '\u{a0}'
    ||| c == '\u{1680}'
    ||| ('\u{2000}' <= c && c <= '\u{200a}')
    ||| c == '\u{2028}'
    ||| c == '\u{2029}'
    ||| c == '\u{202f}'
    ||| c == '\u{205f}'
    ||| c == '\u{3000}'
}

pub fn white_space(c: char) -> (r: bool)
    ensures
        r == is_ws(c),
{
    ('\t' <= c && c <= '\r') || c == ' ' || c == '\u{85}' || c == '\u{a0}' || c == '\u{1680}'
        || ('\u{2000}' <= c && c <= '\u{200a}') || c == '\u{2028}' || c == '\u{2029}'
        || c == '\u{202f}' || c == '\u{205f}' || c == '\u{3000}'
}

/// Which characters a trim removes: white space, or every copy of one character.
#[derive(Debug, Clone, Copy, PartialEq, Eq)]
pub enum Trimmed {
    WhiteSpace,
    Char(char),
}

pub open spec fn trims(p: Trimmed, c: char) -> bool {
    match p {
        Trimmed::WhiteSpace => is_ws(c),
        Trimmed::Char(d) => c == d,
    }
}

fn trims_exec(p: Trimmed, c: char) -> (r: bool)
    ensures
        r == trims(p, c),
{
    match p {
        Trimmed::WhiteSpace => white_space(c),
        Trimmed::Char(d) => c == d,
    }
}

/// `s` without the characters `p` removes at its start.
pub open spec fn trim_start_by(p: Trimmed, s: Seq<char>) -> Seq<char>
    decreases s.len(),
{
    if s.len() > 0 && trims(p, s[0]) {
        trim_start_by(p, s.drop_first())
    } else {
        s
    }
}

/// `s` without the characters `p` removes at its end.
pub open spec fn trim_end_by(p: Trimmed, s: Seq<char>) -> Seq<char>
    decreases s.len(),
{
    if s.len() > 0 && trims(p, s.last()) {
        trim_end_by(p, s.drop_last())
    } else {
        s
    }
}

/// `s` without the characters `p` removes at either end.
pub open spec fn trim_by(p: Trimmed, s: Seq<char>) -> Seq<char> {
    trim_end_by(p, trim_start_by(p, s))
}

/// `s` with white space at both ends removed, as `str::trim` does.
pub open spec fn trimmed(s: Seq<char>) -> Seq<char> {
    trim_by(Trimmed::WhiteSpace, s)
}

/// Whether `s` holds nothing but white space.
pub open spec fn is_blank(s: Seq<char>) -> bool {
    forall|i: int| 0 <= i < s.len() ==> is_ws(#[trigger] s[i])
}

fn trim_start_chars(p: Trimmed, s: &Vec<char>) -> (r: Vec<char>)
    ensures
        r@ == trim_start_by(p, s@),
{
    let mut i: usize = 0;
    assert(s@.skip(0) =~= s@);
    while i < s.len() && trims_exec(p, s[i])
        invariant
            i <= s.len(),
            trim_start_by(p, s@) == trim_start_by(p, s@.skip(i as int)),
        decreases s.len() - i,
    {
        assert(s@.skip(i as int).drop_first() =~= s@.skip(i as int + 1));
        i = i + 1;
    }
    let mut r: Vec<char> = Vec::new();
    let mut j: usize = i;
    while j < s.len()
        invariant
            i <= j <= s.len(),
            r@ == s@.subrange(i as int, j as int),
        decreases s.len() - j,
    {
        r.push(s[j]);
        assert(s@.subrange(i as int, j + 1) =~= s@.subrange(i as int, j as int).push(s@[j as int]));
        j = j + 1;
    }
    assert(r@ =~= s@.skip(i as int));
    r
}

fn trim_end_chars(p: Trimmed, s: &Vec<char>) -> (r: Vec<char>)
    ensures
        r@ == trim_end_by(p, s@),
{
    let mut n: usize = s.len();
    assert(s@.take(n as int) =~= s@);
    while n > 0 && trims_exec(p, s[n - 1])
        invariant
            n <= s.len(),
            trim_end_by(p, s@) == trim_end_by(p, s@.take(n as int)),
        decreases n,
    {
        assert(s@.take(n as int).drop_last() =~= s@.take(n - 1));
        n = n - 1;
    }
    let mut r: Vec<char> = Vec::new();
    let mut j: usize = 0;
    while j < n
        invariant
            j <= n <= s.len(),
            r@ == s@.take(j as int),
        decreases n - j,
    {
        r.push(s[j]);
        assert(s@.take(j + 1) =~= s@.take(j as int).push(s@[j as int]));
        j = j + 1;
    }
    r
}

/// `s` without the characters `p` removes at either end.
pub fn trim_with(p: Trimmed, s: &str) -> (r: String)
    ensures
        r@ == trim_by(p, s@),
{
    let cs = chars_of(s);
    let a = trim_start_chars(p, &cs);
    let b = trim_end_chars(p, &a);
    string_from_chars(&b)
}

/// `s` with white space at both ends removed.
pub fn trim(s: &str) -> (r: String)
    ensures
        r@ == trimmed(s@),
{
    trim_with(Trimmed::WhiteSpace, s)
}

/// `s` with white space at its end removed.
pub fn trim_end(s: &str) -> (r: String)
    ensures
        r@ == trim_end_by(Trimmed::WhiteSpace, s@),
{
    let cs = chars_of(s);
    let b = trim_end_chars(Trimmed::WhiteSpace, &cs);
    string_from_chars(&b)
}

proof fn lemma_trim_start_blank(p: Trimmed, s: Seq<char>)
    ensures
        trim_start_by(p, s).len() == 0 <==> (forall|i: int| 0 <= i < s.len() ==> trims(p, #[trigger] s[i])),
        trim_start_by(p, s).len() > 0 ==> !trims(p, trim_start_by(p, s)[0]),
    decreases s.len(),
{
    if s.len() > 0 && trims(p, s[0]) {
        lemma_trim_start_blank(p, s.drop_first());
        if trim_start_by(p, s).len() == 0 {
            assert forall|i: int| 0 <= i < s.len() implies trims(p, #[trigger] s[i]) by {
                if i > 0 {
                    assert(s[i] == s.drop_first()[i - 1]);
                }
            }
        }
        if forall|i: int| 0 <= i < s.len() ==> trims(p, #[trigger] s[i]) {
            assert forall|i: int| 0 <= i < s.drop_first().len() implies trims(p, #[trigger] s.drop_first()[i]) by {
                assert(s.drop_first()[i] == s[i + 1]);
            }
        }
    } else if s.len() > 0 {
        assert(!trims(p, s[0]));
    }
}

proof fn lemma_trim_end_keeps_first(p: Trimmed, s: Seq<char>)
    requires
        s.len() > 0,
        !trims(p, s[0]),
    ensures
        trim_end_by(p, s).len() > 0,
    decreases s.len(),
{
    if trims(p, s.last()) {
        if s.len() == 1 {
            assert(s.last() == s[0]);
        } else {
            lemma_trim_end_keeps_first(p, s.drop_last());
        }
    }
}

/// Trimming leaves nothing exactly when everything was trimmed away.
pub proof fn lemma_trimmed_empty_iff_blank(s: Seq<char>)
    ensures
        trimmed(s).len() == 0 <==> is_blank(s),
{
    lemma_trim_start_blank(Trimmed::WhiteSpace, s);
    let t = trim_start_by(Trimmed::WhiteSpace, s);
    if t.len() > 0 {
        lemma_trim_end_keeps_first(Trimmed::WhiteSpace, t);
    }
}

/// Whether `s` is empty once trimmed, as `s.trim().is_empty()` tells.
pub fn blank(s: &str) -> (r: bool)
    ensures
        r == is_blank(s@),
{
    let cs = chars_of(s);
    let mut i: usize = 0;
    while i < cs.len()
        invariant
            cs@ == s@,
            i <= cs.len(),
            forall|j: int| 0 <= j < i ==> is_ws(#[trigger] cs@[j]),
        decreases cs.len() - i,
    {
        if !white_space(cs[i]) {
            return false;
        }
        i = i + 1;
    }
    true
}

} // verus!

verus! {

/// The position of the last `c` in `s`, if any.
pub open spec fn last_index_of(s: Seq<char>, c: char) -> Option<int>
    decreases s.len(),
{
    if s.len() == 0 {
        None
    } else if s.last() == c {
        Some(s.len() - 1)
    } else {
        last_index_of(s.drop_last(), c)
    }
}

pub proof fn lemma_last_index_in_range(s: Seq<char>, c: char)
    ensures
        last_index_of(s, c) matches Some(i) ==> 0 <= i < s.len() && s[i] == c,
    decreases s.len(),
{
    if s.len() > 0 && s.last() != c {
        lemma_last_index_in_range(s.drop_last(), c);
    }
}

pub fn rfind_char(s: &Vec<char>, c: char) -> (r: Option<usize>)
    ensures
        match r {
            Some(i) => last_index_of(s@, c) == Some(i as int) && i < s@.len(),
            None => last_index_of(s@, c) is None,
        },
{
    proof {
        lemma_last_index_in_range(s@, c);
    }
    let mut n: usize = s.len();
    assert(s@.take(n as int) =~= s@);
    while n > 0
        invariant
            n <= s.len(),
            last_index_of(s@, c) == last_index_of(s@.take(n as int), c),
        decreases n,
    {
        if s[n - 1] == c {
            return Some(n - 1);
        }
        assert(s@.take(n as int).drop_last() =~= s@.take(n - 1));
        n = n - 1;
    }
    None
}

/// The first `n` characters of `s` (all of it when shorter).
pub fn take_chars(s: &Vec<char>, n: usize) -> (r: Vec<char>)
    ensures
        r@ == s@.take(if n <= s.len() { n as int } else { s.len() as int }),
{
    let m = if n <= s.len() { n } else { s.len() };
    let mut r: Vec<char> = Vec::new();
    let mut j: usize = 0;
    while j < m
        invariant
            m <= s.len(),
            j <= m,
            r@ == s@.take(j as int),
        decreases m - j,
    {
        r.push(s[j]);
        assert(s@.take(j + 1) =~= s@.take(j as int).push(s@[j as int]));
        j = j + 1;
    }
    r
}

/// Whether a word (a run of non-white-space characters) starts at `i`.
pub open spec fn word_starts_at(s: Seq<char>, i: int) -> bool {
    0 <= i < s.len() && !is_ws(s[i]) && (i == 0 || is_ws(s[i - 1]))
}

/// Whether `s` holds at least two words, as `s.split_whitespace().count() >= 2` tells.
pub open spec fn has_two_words(s: Seq<char>) -> bool {
    exists|i: int, j: int| i < j && #[trigger] word_starts_at(s, i) && #[trigger] word_starts_at(s, j)
}

pub fn two_words(s: &str) -> (r: bool)
    ensures
        r == has_two_words(s@),
{
    let cs = chars_of(s);
    let mut first: Option<usize> = None;
    let mut i: usize = 0;
    while i < cs.len()
        invariant
            cs@ == s@,
            i <= cs.len(),
            match first {
                Some(a) => a < i && word_starts_at(s@, a as int),
                None => forall|q: int| 0 <= q < i ==> !#[trigger] word_starts_at(s@, q),
            },
            first is Some ==> forall|q: int, t: int| q < t < i ==> !(#[trigger] word_starts_at(s@, q) && #[trigger] word_starts_at(s@, t)),
        decreases cs.len() - i,
    {
        let starts = !white_space(cs[i]) && (i == 0 || white_space(cs[i - 1]));
        assert(starts == word_starts_at(s@, i as int));
        if starts {
            match first {
                Some(a) => {
                    assert(word_starts_at(s@, a as int) && word_starts_at(s@, i as int));
                    return true;
                },
                None => {
                    first = Some(i);
                },
            }
        }
        i = i + 1;
    }
    proof {
        if has_two_words(s@) {
            let (q, t) = choose|q: int, t: int| q < t && #[trigger] word_starts_at(s@, q) && #[trigger] word_starts_at(s@, t);
            assert(t < i);
        }
    }
    false
}

/// What follows `prefix` in `s`, when `s` starts with it.
pub open spec fn after_prefix(s: Seq<char>, prefix: Seq<char>) -> Option<Seq<char>> {
    if prefix.len() <= s.len() && s.take(prefix.len() as int) == prefix {
        Some(s.skip(prefix.len() as int))
    } else {
        None
    }
}

/// What precedes `suffix` in `s`, when `s` ends with it.
pub open spec fn before_suffix(s: Seq<char>, suffix: Seq<char>) -> Option<Seq<char>> {
    if suffix.len() <= s.len() && s.skip(s.len() - suffix.len()) == suffix {
        Some(s.take(s.len() - suffix.len()))
    } else {
        None
    }
}

/// `s` without `prefix`, as `str::strip_prefix` gives it.
pub fn strip_prefix(s: &str, prefix: &str) -> (r: Option<String>)
    ensures
        r.deep_view() == after_prefix(s@, prefix@),
{
    let cs = chars_of(s);
    let ps = chars_of(prefix);
    if ps.len() > cs.len() {
        return None;
    }
    let mut i: usize = 0;
    while i < ps.len()
        invariant
            cs@ == s@,
            ps@ == prefix@,
            ps.len() <= cs.len(),
            i <= ps.len(),
            forall|q: int| 0 <= q < i ==> cs@[q] == ps@[q],
        decreases ps.len() - i,
    {
        if cs[i] != ps[i] {
            assert(s@.take(prefix@.len() as int)[i as int] != prefix@[i as int]);
            return None;
        }
        i = i + 1;
    }
    assert(s@.take(prefix@.len() as int) =~= prefix@);
    let mut r: Vec<char> = Vec::new();
    let mut j: usize = ps.len();
    while j < cs.len()
        invariant
            cs@ == s@,
            ps.len() <= j <= cs.len(),
            r@ == s@.subrange(ps.len() as int, j as int),
        decreases cs.len() - j,
    {
        r.push(cs[j]);
        assert(s@.subrange(ps.len() as int, j + 1) =~= s@.subrange(ps.len() as int, j as int).push(s@[j as int]));
        j = j + 1;
    }
    assert(r@ =~= s@.skip(prefix@.len() as int));
    Some(string_from_chars(&r))
}

/// `s` without `suffix`, as `str::strip_suffix` gives it.
pub fn strip_suffix(s: &str, suffix: &str) -> (r: Option<String>)
    ensures
        r.deep_view() == before_suffix(s@, suffix@),
{
    let cs = chars_of(s);
    let xs = chars_of(suffix);
    if xs.len() > cs.len() {
        return None;
    }
    let base = cs.len() - xs.len();
    let mut i: usize = 0;
    while i < xs.len()
        invariant
            cs@ == s@,
            xs@ == suffix@,
            base == cs.len() - xs.len(),
            i <= xs.len(),
            forall|q: int| 0 <= q < i ==> cs@[base + q] == xs@[q],
        decreases xs.len() - i,
    {
        if cs[base + i] != xs[i] {
            assert(s@.skip(base as int)[i as int] != suffix@[i as int]);
            return None;
        }
        i = i + 1;
    }
    assert(s@.skip(base as int) =~= suffix@);
    let r = take_chars(&cs, base);
    Some(string_from_chars(&r))
}

/// The parts of `s` before and after the first `c`, as `str::split_once` gives them.
pub open spec fn split_at_first(s: Seq<char>, c: char) -> Option<(Seq<char>, Seq<char>)> {
    if exists|i: int| 0 <= i < s.len() && s[i] == c {
        let i = choose|i: int| 0 <= i < s.len() && s[i] == c && forall|j: int| 0 <= j < i ==> s[j] != c;
        Some((s.take(i), s.skip(i + 1)))
    } else {
        None
    }
}

pub fn split_once(s: &str, c: char) -> (r: Option<(String, String)>)
    ensures
        match r {
            Some((a, b)) => split_at_first(s@, c) == Some((a@, b@)),
            None => split_at_first(s@, c) is None,
        },
{
    let cs = chars_of(s);
    let mut i: usize = 0;
    while i < cs.len()
        invariant
            cs@ == s@,
            i <= cs.len(),
            forall|j: int| 0 <= j < i ==> cs@[j] != c,
        decreases cs.len() - i,
    {
        if cs[i] == c {
            let a = take_chars(&cs, i);
            let mut b: Vec<char> = Vec::new();
            let mut j: usize = i + 1;
            while j < cs.len()
                invariant
                    cs@ == s@,
                    i < cs.len(),
                    i + 1 <= j <= cs.len(),
                    b@ == s@.subrange(i + 1, j as int),
                decreases cs.len() - j,
            {
                b.push(cs[j]);
                assert(s@.subrange(i + 1, j + 1) =~= s@.subrange(i + 1, j as int).push(s@[j as int]));
                j = j + 1;
            }
            proof {
                let w = choose|w: int| 0 <= w < s@.len() && s@[w] == c && forall|j: int| 0 <= j < w ==> s@[j] != c;
                assert(s@[i as int] == c);
                if w < i {
                    assert(cs@[w] != c);
                } else if w > i {
                    assert(s@[i as int] != c);
                }
                assert(b@ =~= s@.skip(i + 1));
            }
            return Some((string_from_chars(&a), string_from_chars(&b)));
        }
        i = i + 1;
    }
    None
}

} // verus!

verus! {

/// The text of the error `String::from_utf8` reports for bytes that are not UTF-8.
pub uninterp spec fn utf8_error_text(bytes: Seq<u8>) -> Seq<char>;

/// `String::from_utf8`. Trusted: the standard library accepts exactly the valid UTF-8 sequences
/// and decodes them; otherwise its error's text is `utf8_error_text` of the bytes.
#[verifier::external_body]
pub(crate) fn decode_utf8_bytes(bytes: Vec<u8>) -> (r: Result<String, String>)
    ensures
        match r {
            Ok(s) => valid_utf8(bytes@) && s@ == decode_utf8(bytes@),
            Err(m) => !valid_utf8(bytes@) && m@ == utf8_error_text(bytes@),
        },
{
    String::from_utf8(bytes).map_err(|e| e.to_string())
}

} // verus!

verus! {

/// Trimming the end keeps a prefix, never lengthens, and leaves no trimmed character last.
pub proof fn lemma_trim_end_shorter(p: Trimmed, s: Seq<char>)
    ensures
        trim_end_by(p, s).len() <= s.len(),
        trim_end_by(p, s) =~= s.take(trim_end_by(p, s).len() as int),
        trim_end_by(p, s).len() > 0 ==> !trims(p, trim_end_by(p, s).last()),
    decreases s.len(),
{
    if s.len() > 0 && trims(p, s.last()) {
        let r = trim_end_by(p, s.drop_last());
        lemma_trim_end_shorter(p, s.drop_last());
        assert(s.drop_last().take(r.len() as int) =~= s.take(r.len() as int));
    } else {
        assert(s.take(s.len() as int) =~= s);
    }
}

} // verus!
