//! Character-level text utilities shared by the rest of the library.
//!
//! Strings are modelled by their character sequences (`Seq<char>`); byte
//! offsets never appear in a contract.

use vstd::prelude::*;

verus! {

/// Whether a character has the Unicode `White_Space` property: the
/// controls from tab to carriage return, the space, next line, the
/// no-break spaces, the Ogham space mark, the spaces from en quad to hair
/// space, the line and paragraph separators, the medium mathematical
/// space and the ideographic space.
pub open spec fn char_is_whitespace(c: char) -> bool {
    ('\u{9}' <= c && c <= '\u{d}') || c == ' ' || c == '\u{85}' || c == '\u{a0}' || c == '\u{1680}'
        || ('\u{2000}' <= c && c <= '\u{200a}') || c == '\u{2028}' || c == '\u{2029}' || c
        == '\u{202f}' || c == '\u{205f}' || c == '\u{3000}'
}

/// The lower-case form of a text, as `str::to_lowercase` computes it.
pub uninterp spec fn lowercase_of(s: Seq<char>) -> Seq<char>;

/// `char::is_whitespace`: the result is the character's `White_Space`
/// property, which [`char_is_whitespace`] writes out.
pub assume_specification[ char::is_whitespace ](c: char) -> (b: bool)
    ensures
        b == char_is_whitespace(c),
;

/// `str::to_lowercase`: the result is the lower-case form of the text, a
/// function of the text alone, which this library only names.
pub assume_specification[ str::to_lowercase ](s: &str) -> (r: String)
    ensures
        r@ == lowercase_of(s@),
;

/// `String::push`: appends exactly one character.
pub assume_specification[ String::push ](s: &mut String, c: char)
    ensures
        final(s)@ == old(s)@.push(c),
;

/// Index of the first non-whitespace character at or after `from`, or the
/// length of `s` when there is none.
pub open spec fn first_non_ws(s: Seq<char>, from: int) -> int
    decreases s.len() - from,
{
    if 0 <= from < s.len() && char_is_whitespace(s[from]) {
        first_non_ws(s, from + 1)
    } else {
        from
    }
}

/// One past the index of the last non-whitespace character before `to`, or
/// zero when there is none.
pub open spec fn last_non_ws_end(s: Seq<char>, to: int) -> int
    decreases to,
{
    if 0 < to <= s.len() && char_is_whitespace(s[to - 1]) {
        last_non_ws_end(s, to - 1)
    } else {
        to
    }
}

/// `s` without its leading whitespace.
pub open spec fn trim_start_spec(s: Seq<char>) -> Seq<char> {
    s.subrange(first_non_ws(s, 0), s.len() as int)
}

/// `s` without its trailing whitespace.
pub open spec fn trim_end_spec(s: Seq<char>) -> Seq<char> {
    s.subrange(0, last_non_ws_end(s, s.len() as int))
}

/// `s` without leading and trailing whitespace.
pub open spec fn trim_spec(s: Seq<char>) -> Seq<char> {
    trim_end_spec(trim_start_spec(s))
}

/// Whether every character of `s` is whitespace.
pub open spec fn is_blank(s: Seq<char>) -> bool {
    forall|i: int| 0 <= i < s.len() ==> char_is_whitespace(#[trigger] s[i])
}

/// Whether `p` occurs in `s` starting at index `i`.
pub open spec fn occurs_at(s: Seq<char>, p: Seq<char>, i: int) -> bool {
    0 <= i && i + p.len() <= s.len() && s.subrange(i, i + p.len()) == p
}

/// Whether `p` occurs somewhere in `s`.
pub open spec fn contains_spec(s: Seq<char>, p: Seq<char>) -> bool {
    exists|i: int| occurs_at(s, p, i)
}

/// The decimal digits of `n`, most significant first.
pub open spec fn decimal_spec(n: nat) -> Seq<char>
    decreases n,
{
    if n < 10 {
        seq![digit_char(n)]
    } else {
        decimal_spec(n / 10).push(digit_char(n % 10))
    }
}

/// The character for a single decimal digit.
pub open spec fn digit_char(d: nat) -> char {
    if d == 0 {
        '0'
    } else if d == 1 {
        '1'
    } else if d == 2 {
        '2'
    } else if d == 3 {
        '3'
    } else if d == 4 {
        '4'
    } else if d == 5 {
        '5'
    } else if d == 6 {
        '6'
    } else if d == 7 {
        '7'
    } else if d == 8 {
        '8'
    } else {
        '9'
    }
}

pub proof fn lemma_first_non_ws_bounds(s: Seq<char>, from: int)
    requires
        0 <= from <= s.len(),
    ensures
        from <= first_non_ws(s, from) <= s.len(),
        forall|k: int| from <= k < first_non_ws(s, from) ==> char_is_whitespace(#[trigger] s[k]),
        first_non_ws(s, from) < s.len() ==> !char_is_whitespace(s[first_non_ws(s, from)]),
    decreases s.len() - from,
{
    if from < s.len() && char_is_whitespace(s[from]) {
        lemma_first_non_ws_bounds(s, from + 1);
    }
}

pub proof fn lemma_last_non_ws_bounds(s: Seq<char>, to: int)
    requires
        0 <= to <= s.len(),
    ensures
        0 <= last_non_ws_end(s, to) <= to,
        forall|k: int| last_non_ws_end(s, to) <= k < to ==> char_is_whitespace(#[trigger] s[k]),
        last_non_ws_end(s, to) > 0 ==> !char_is_whitespace(s[last_non_ws_end(s, to) - 1]),
    decreases to,
{
    if 0 < to && char_is_whitespace(s[to - 1]) {
        lemma_last_non_ws_bounds(s, to - 1);
    }
}

/// A text is blank exactly when trimming it leaves nothing.
pub proof fn lemma_blank_iff_trim_empty(s: Seq<char>)
    ensures
        is_blank(s) <==> trim_spec(s).len() == 0,
        is_blank(s) <==> first_non_ws(s, 0) == s.len(),
{
    lemma_first_non_ws_bounds(s, 0);
    let t = trim_start_spec(s);
    lemma_last_non_ws_bounds(t, t.len() as int);
    let f = first_non_ws(s, 0);
    if f < s.len() {
        assert(!char_is_whitespace(s[f]));
        assert(t[0] == s[f]);
        if last_non_ws_end(t, t.len() as int) == 0 {
            assert(char_is_whitespace(t[0]));
        }
    }
}

/// The characters of a string slice.
pub fn chars_of(s: &str) -> (v: Vec<char>)
    ensures
        v@ == s@,
{
    let mut v: Vec<char> = Vec::new();
    for c in it: s.chars()
        invariant
            it.seq() == s@,
            v@ == s@.take(it.index() as int),
    {
        v.push(c);
        assert(s@.take(it.index() + 1) == s@.take(it.index() as int).push(s@[it.index() as int]));
    }
    assert(s@.take(s@.len() as int) == s@);
    v
}

/// The string made of the given characters.
pub fn string_of(v: &[char]) -> (s: String)
    ensures
        s@ == v@,
{
    let mut s = String::new();
    let mut i: usize = 0;
    while i < v.len()
        invariant
            i <= v.len(),
            s@ == v@.take(i as int),
        decreases v.len() - i,
    {
        s.push(v[i]);
        assert(v@.take(i + 1) == v@.take(i as int).push(v@[i as int]));
        i += 1;
    }
    assert(v@.take(v@.len() as int) == v@);
    s
}

/// Whether two character slices hold the same text.
pub fn chars_eq(a: &[char], b: &[char]) -> (r: bool)
    ensures
        r == (a@ == b@),
{
    if a.len() != b.len() {
        return false;
    }
    let mut i: usize = 0;
    while i < a.len()
        invariant
            i <= a.len(),
            a.len() == b.len(),
            forall|k: int| 0 <= k < i ==> a@[k] == b@[k],
        decreases a.len() - i,
    {
        if a[i] != b[i] {
            return false;
        }
        i += 1;
    }
    assert(a@ =~= b@);
    true
}

/// Whether two string slices hold the same text.
pub fn str_eq(a: &str, b: &str) -> (r: bool)
    ensures
        r == (a@ == b@),
{
    let x = chars_of(a);
    let y = chars_of(b);
    chars_eq(x.as_slice(), y.as_slice())
}

/// `a` followed by `b`.
pub fn concat(a: &str, b: &str) -> (r: String)
    ensures
        r@ == a@ + b@,
{
    let mut r = a.to_owned();
    r.append(b);
    r
}

/// Whether `p` occurs in `s` at index `i`.
pub fn matches_at(s: &[char], p: &[char], i: usize) -> (r: bool)
    ensures
        r == occurs_at(s@, p@, i as int),
{
    if p.len() > s.len() || i > s.len() - p.len() {
        return false;
    }
    let mut k: usize = 0;
    while k < p.len()
        invariant
            k <= p.len(),
            i + p.len() <= s.len(),
            forall|j: int| 0 <= j < k ==> s@[i + j] == p@[j],
        decreases p.len() - k,
    {
        if s[i + k] != p[k] {
            assert(s@.subrange(i as int, i + p.len())[k as int] != p@[k as int]);
            return false;
        }
        k += 1;
    }
    assert(s@.subrange(i as int, i + p.len()) =~= p@);
    true
}

/// Whether `s` begins with `p`.
pub fn starts_with(s: &[char], p: &[char]) -> (r: bool)
    ensures
        r == p@.is_prefix_of(s@),
{
    let r = matches_at(s, p, 0);
    proof {
        if r {
            assert(s@.subrange(0, p@.len() as int) == p@);
        }
        if p@.is_prefix_of(s@) {
            assert(s@.subrange(0, p@.len() as int) =~= p@);
        }
    }
    r
}

/// Whether `s` ends with `p`.
pub fn ends_with(s: &[char], p: &[char]) -> (r: bool)
    ensures
        r == p@.is_suffix_of(s@),
{
    if p.len() > s.len() {
        return false;
    }
    let start = s.len() - p.len();
    let r = matches_at(s, p, start);
    proof {
        if p@.is_suffix_of(s@) {
            assert(s@.subrange(start as int, s@.len() as int) =~= p@);
        }
    }
    r
}

/// Index of the first occurrence of `p` in `s` at or after `from`.
pub fn find_from(s: &[char], p: &[char], from: usize) -> (r: Option<usize>)
    ensures
        match r {
            Some(i) => from <= i && occurs_at(s@, p@, i as int) && forall|j: int|
                from <= j < i ==> !occurs_at(s@, p@, j),
            None => forall|j: int| from <= j ==> !occurs_at(s@, p@, j),
        },
{
    if p.len() > s.len() {
        return None;
    }
    let last = s.len() - p.len();
    let mut i: usize = from;
    while i <= last
        invariant
            from <= i,
            last == s.len() - p.len(),
            forall|j: int| from <= j < i ==> !occurs_at(s@, p@, j),
        decreases last + 1 - i,
    {
        if matches_at(s, p, i) {
            return Some(i);
        }
        if i == last {
            return None;
        }
        i += 1;
    }
    None
}

/// Whether `p` occurs somewhere in `s`.
pub fn contains(s: &[char], p: &[char]) -> (r: bool)
    ensures
        r == contains_spec(s@, p@),
{
    match find_from(s, p, 0) {
        Some(_) => true,
        None => false,
    }
}

/// Whether `p` occurs somewhere in `s`.
pub fn str_contains(s: &str, p: &str) -> (r: bool)
    ensures
        r == contains_spec(s@, p@),
{
    let x = chars_of(s);
    let y = chars_of(p);
    contains(x.as_slice(), y.as_slice())
}

/// Whether every character of `s` is whitespace.
pub fn is_blank_chars(s: &[char]) -> (r: bool)
    ensures
        r == is_blank(s@),
{
    let mut i: usize = 0;
    while i < s.len()
        invariant
            i <= s.len(),
            forall|k: int| 0 <= k < i ==> char_is_whitespace(#[trigger] s@[k]),
        decreases s.len() - i,
    {
        if !s[i].is_whitespace() {
            return false;
        }
        i += 1;
    }
    true
}

/// Whether every character of `s` is whitespace.
pub fn str_is_blank(s: &str) -> (r: bool)
    ensures
        r == is_blank(s@),
{
    let x = chars_of(s);
    is_blank_chars(x.as_slice())
}

/// Copies `s[from..to]`.
pub fn slice_chars(s: &[char], from: usize, to: usize) -> (v: Vec<char>)
    requires
        from <= to <= s.len(),
    ensures
        v@ == s@.subrange(from as int, to as int),
{
    let mut v: Vec<char> = Vec::new();
    let mut i: usize = from;
    while i < to
        invariant
            from <= i <= to <= s.len(),
            v@ == s@.subrange(from as int, i as int),
        decreases to - i,
    {
        v.push(s[i]);
        assert(s@.subrange(from as int, i + 1) == s@.subrange(from as int, i as int).push(
            s@[i as int],
        ));
        i += 1;
    }
    v
}

/// Appends all of `src` to `dst`.
pub fn extend_chars(dst: &mut Vec<char>, src: &[char])
    ensures
        final(dst)@ == old(dst)@ + src@,
{
    let mut i: usize = 0;
    while i < src.len()
        invariant
            i <= src.len(),
            dst@ == old(dst)@ + src@.take(i as int),
        decreases src.len() - i,
    {
        dst.push(src[i]);
        assert(src@.take(i + 1) == src@.take(i as int).push(src@[i as int]));
        i += 1;
    }
    assert(src@.take(src@.len() as int) == src@);
}

/// Start of the text that remains after leading whitespace is dropped.
pub fn trim_start_index(s: &[char]) -> (i: usize)
    ensures
        i == first_non_ws(s@, 0),
        i <= s.len(),
{
    let mut i: usize = 0;
    while i < s.len() && s[i].is_whitespace()
        invariant
            i <= s.len(),
            first_non_ws(s@, i as int) == first_non_ws(s@, 0),
        decreases s.len() - i,
    {
        i += 1;
    }
    i
}

/// End of the text that remains after trailing whitespace is dropped.
pub fn trim_end_index(s: &[char]) -> (i: usize)
    ensures
        i == last_non_ws_end(s@, s@.len() as int),
        i <= s.len(),
{
    let mut i: usize = s.len();
    while i > 0 && s[i - 1].is_whitespace()
        invariant
            i <= s.len(),
            last_non_ws_end(s@, i as int) == last_non_ws_end(s@, s@.len() as int),
        decreases i,
    {
        i -= 1;
    }
    i
}

/// `s` without leading and trailing whitespace.
pub fn trim_chars(s: &[char]) -> (v: Vec<char>)
    ensures
        v@ == trim_spec(s@),
{
    let start = trim_start_index(s);
    let rest = slice_chars(s, start, s.len());
    let end = trim_end_index(rest.as_slice());
    slice_chars(rest.as_slice(), 0, end)
}

/// `s` without leading and trailing whitespace.
pub fn str_trim(s: &str) -> (r: String)
    ensures
        r@ == trim_spec(s@),
{
    let x = chars_of(s);
    let t = trim_chars(x.as_slice());
    string_of(t.as_slice())
}

/// The decimal digits of `n`.
pub fn decimal_chars(n: u64) -> (v: Vec<char>)
    ensures
        v@ == decimal_spec(n as nat),
    decreases n,
{
    let d = n % 10;
    let c = if d == 0 {
        '0'
    } else if d == 1 {
        '1'
    } else if d == 2 {
        '2'
    } else if d == 3 {
        '3'
    } else if d == 4 {
        '4'
    } else if d == 5 {
        '5'
    } else if d == 6 {
        '6'
    } else if d == 7 {
        '7'
    } else if d == 8 {
        '8'
    } else {
        '9'
    };
    if n < 10 {
        let mut v: Vec<char> = Vec::new();
        v.push(c);
        assert(v@ =~= seq![c]);
        v
    } else {
        let mut v = decimal_chars(n / 10);
        v.push(c);
        v
    }
}

/// The decimal digits of `n`, as a string.
pub fn decimal(n: u64) -> (r: String)
    ensures
        r@ == decimal_spec(n as nat),
{
    let v = decimal_chars(n);
    string_of(v.as_slice())
}

/// The lower-case form of an ASCII letter; any other character unchanged.
pub open spec fn ascii_lower(c: char) -> char {
    if 'A' <= c && c <= 'Z' {
        ((c as u8) + 32) as char
    } else {
        c
    }
}

/// `s` with every ASCII letter in lower case.
pub open spec fn ascii_lowercase(s: Seq<char>) -> Seq<char> {
    Seq::new(s.len(), |i: int| ascii_lower(s[i]))
}

/// Whether two texts are equal but for the case of their ASCII letters.
pub open spec fn eq_ignoring_ascii_case(a: Seq<char>, b: Seq<char>) -> bool {
    ascii_lowercase(a) == ascii_lowercase(b)
}

/// `s` with every ASCII letter in lower case.
pub fn ascii_lowercase_chars(s: &[char]) -> (r: Vec<char>)
    ensures
        r@ == ascii_lowercase(s@),
{
    let mut out: Vec<char> = Vec::new();
    let mut i: usize = 0;
    while i < s.len()
        invariant
            i <= s.len(),
            out@.len() == i,
            forall|k: int| 0 <= k < i ==> out@[k] == ascii_lower(s@[k]),
        decreases s.len() - i,
    {
        let c = s[i];
        let lowered = if 'A' <= c && c <= 'Z' {
            ((c as u8) + 32) as char
        } else {
            c
        };
        out.push(lowered);
        i += 1;
    }
    assert(out@ =~= ascii_lowercase(s@));
    out
}

/// Whether two texts are equal but for the case of their ASCII letters.
pub fn str_eq_ignore_ascii_case(a: &str, b: &str) -> (r: bool)
    ensures
        r == eq_ignoring_ascii_case(a@, b@),
{
    let x = chars_of(a);
    let y = chars_of(b);
    let lx = ascii_lowercase_chars(x.as_slice());
    let ly = ascii_lowercase_chars(y.as_slice());
    chars_eq(lx.as_slice(), ly.as_slice())
}

/// The texts from index `i` on, joined by `separator` and added to `out`.
pub open spec fn joined_from(
    items: Seq<Seq<char>>,
    separator: Seq<char>,
    i: int,
    out: Seq<char>,
) -> Seq<char>
    decreases items.len() - i,
{
    if 0 <= i < items.len() {
        if i > 0 {
            joined_from(items, separator, i + 1, out + separator + items[i])
        } else {
            joined_from(items, separator, i + 1, out + items[i])
        }
    } else {
        out
    }
}

/// The texts joined by `separator`.
pub open spec fn joined(items: Seq<Seq<char>>, separator: Seq<char>) -> Seq<char> {
    joined_from(items, separator, 0, Seq::empty())
}

/// The models of a sequence of texts.
pub open spec fn text_views(items: Seq<String>) -> Seq<Seq<char>> {
    Seq::new(items.len(), |i: int| items[i]@)
}

/// The texts joined by `separator`.
pub fn join(items: &Vec<String>, separator: &str) -> (r: String)
    ensures
        r@ == joined(text_views(items@), separator@),
{
    let ghost views = text_views(items@);
    let mut out = String::new();
    let mut i: usize = 0;
    while i < items.len()
        invariant
            i <= items.len(),
            views == text_views(items@),
            joined_from(views, separator@, i as int, out@) == joined(views, separator@),
        decreases items.len() - i,
    {
        if i > 0 {
            out.append(separator);
        }
        out.append(items[i].as_str());
        i += 1;
    }
    out
}

/// Copies a list of texts.
pub fn duplicate_texts(items: &Vec<String>) -> (r: Vec<String>)
    ensures
        text_views(r@) == text_views(items@),
{
    let mut out: Vec<String> = Vec::new();
    let mut i: usize = 0;
    while i < items.len()
        invariant
            i <= items.len(),
            out@.len() == i,
            forall|k: int| 0 <= k < i ==> out@[k]@ == items@[k]@,
        decreases items.len() - i,
    {
        out.push(items[i].clone());
        i += 1;
    }
    assert(text_views(out@) =~= text_views(items@));
    out
}

/// Whether `a` comes before `b` in the order of strings, compared from
/// index `i` on: character by character, a proper prefix first.
pub open spec fn text_lt_from(a: Seq<char>, b: Seq<char>, i: int) -> bool
    decreases a.len() - i,
{
    if i >= b.len() {
        false
    } else if i >= a.len() {
        true
    } else if i < 0 {
        false
    } else if a[i] != b[i] {
        a[i] < b[i]
    } else {
        text_lt_from(a, b, i + 1)
    }
}

/// Whether `a` comes before `b` in the order of strings.
pub open spec fn text_lt(a: Seq<char>, b: Seq<char>) -> bool {
    text_lt_from(a, b, 0)
}

/// Whether each text comes before the next one.
pub open spec fn strictly_sorted(items: Seq<Seq<char>>) -> bool {
    forall|i: int| 0 <= i && i + 1 < items.len() ==> text_lt(#[trigger] items[i], items[i + 1])
}

/// Whether `text` is one of `items`.
pub open spec fn has_text(items: Seq<Seq<char>>, text: Seq<char>) -> bool {
    exists|i: int| 0 <= i < items.len() && #[trigger] items[i] == text
}

proof fn lemma_text_order_total(a: Seq<char>, b: Seq<char>, i: int)
    requires
        0 <= i,
        i <= a.len(),
        i <= b.len(),
        forall|k: int| 0 <= k < i ==> a[k] == b[k],
        !text_lt_from(a, b, i),
        a != b,
    ensures
        text_lt_from(b, a, i),
    decreases a.len() - i,
{
    if i >= b.len() {
        if i >= a.len() {
            assert(a =~= b);
        }
    } else if i >= a.len() {
    } else if a[i] != b[i] {
    } else {
        lemma_text_order_total(a, b, i + 1);
    }
}

/// Whether `a` comes before `b` in the order of strings.
pub fn chars_less(a: &[char], b: &[char]) -> (r: bool)
    ensures
        r == text_lt(a@, b@),
{
    let mut i: usize = 0;
    while i < a.len() && i < b.len()
        invariant
            i <= a.len(),
            i <= b.len(),
            text_lt_from(a@, b@, i as int) == text_lt(a@, b@),
        decreases a.len() - i,
    {
        if a[i] != b[i] {
            return a[i] < b[i];
        }
        i += 1;
    }
    i < b.len()
}

/// Whether `a` comes before `b` in the order of strings.
pub fn str_less(a: &str, b: &str) -> (r: bool)
    ensures
        r == text_lt(a@, b@),
{
    let x = chars_of(a);
    let y = chars_of(b);
    chars_less(x.as_slice(), y.as_slice())
}

proof fn lemma_insert_keeps_order(before: Seq<Seq<char>>, p: int, x: Seq<char>)
    requires
        strictly_sorted(before),
        0 <= p <= before.len(),
        p > 0 ==> text_lt(before[p - 1], x),
        p < before.len() ==> text_lt(x, before[p]),
    ensures
        strictly_sorted(before.insert(p, x)),
{
    let after = before.insert(p, x);
    assert forall|k: int| 0 <= k && k + 1 < after.len() implies text_lt(
        #[trigger] after[k],
        after[k + 1],
    ) by {
        if k + 1 < p {
            assert(after[k] == before[k]);
            assert(after[k + 1] == before[k + 1]);
        } else if k + 1 == p {
            assert(after[k] == before[k]);
            assert(after[k + 1] == x);
        } else if k == p {
            assert(after[k] == x);
            assert(after[k + 1] == before[k]);
        } else {
            assert(after[k] == before[k - 1]);
            assert(after[k + 1] == before[k]);
            assert(text_lt(before[k - 1], before[k - 1 + 1]));
        }
    }
}

proof fn lemma_insert_members(before: Seq<Seq<char>>, p: int, x: Seq<char>, t: Seq<char>)
    requires
        0 <= p <= before.len(),
    ensures
        has_text(before.insert(p, x), t) <==> (has_text(before, t) || t == x),
{
    let after = before.insert(p, x);
    if has_text(after, t) {
        let k = choose|k: int| 0 <= k < after.len() && #[trigger] after[k] == t;
        if k < p {
            assert(before[k] == t);
        } else if k > p {
            assert(before[k - 1] == t);
        }
    }
    if has_text(before, t) {
        let k = choose|k: int| 0 <= k < before.len() && #[trigger] before[k] == t;
        if k < p {
            assert(after[k] == t);
        } else {
            assert(after[k + 1] == t);
        }
    }
    if t == x {
        assert(after[p] == t);
    }
}

/// Puts `name` into a sorted list of names unless the list holds it.
pub fn insert_sorted(out: &mut Vec<String>, name: &str)
    requires
        strictly_sorted(text_views(old(out)@)),
    ensures
        strictly_sorted(text_views(final(out)@)),
        forall|t: Seq<char>|
            has_text(text_views(final(out)@), t) <==> (has_text(text_views(old(out)@), t) || t
                == name@),
{
    let ghost before = text_views(out@);
    let mut p: usize = 0;
    while p < out.len() && str_less(out[p].as_str(), name)
        invariant
            p <= out.len(),
            out@ == old(out)@,
            before == text_views(out@),
            p > 0 ==> text_lt(before[p - 1], name@),
        decreases out.len() - p,
    {
        p += 1;
    }
    if p < out.len() && str_eq(out[p].as_str(), name) {
        assert(before[p as int] == name@);
        assert(has_text(before, name@));
        return ;
    }
    proof {
        if p < out.len() {
            lemma_text_order_total(before[p as int], name@, 0);
        }
        lemma_insert_keeps_order(before, p as int, name@);
        assert forall|t: Seq<char>| has_text(before.insert(p as int, name@), t) <==> (has_text(
            before,
            t,
        ) || t == name@) by {
            lemma_insert_members(before, p as int, name@, t);
        }
    }
    out.insert(p, name.to_owned());
    assert(text_views(out@) =~= before.insert(p as int, name@));
    assert(before == text_views(old(out)@));
    assert forall|t: Seq<char>|
        has_text(text_views(out@), t) <==> (has_text(text_views(old(out)@), t) || t == name@) by {
        lemma_insert_members(before, p as int, name@, t);
    }
}

/// The given names in the order of strings, each once.
pub fn sorted_unique(names: &Vec<String>) -> (r: Vec<String>)
    ensures
        strictly_sorted(text_views(r@)),
        forall|t: Seq<char>| has_text(text_views(r@), t) <==> has_text(text_views(names@), t),
{
    let mut out: Vec<String> = Vec::new();
    let ghost all = text_views(names@);
    let mut i: usize = 0;
    while i < names.len()
        invariant
            i <= names.len(),
            all == text_views(names@),
            strictly_sorted(text_views(out@)),
            forall|t: Seq<char>|
                has_text(text_views(out@), t) <==> has_text(all.subrange(0, i as int), t),
        decreases names.len() - i,
    {
        let ghost before = text_views(out@);
        insert_sorted(&mut out, names[i].as_str());
        proof {
            let prefix = all.subrange(0, i as int);
            let longer = all.subrange(0, i + 1);
            assert forall|t: Seq<char>| has_text(text_views(out@), t) <==> has_text(longer, t) by {
                if has_text(prefix, t) {
                    let m = choose|m: int| 0 <= m < prefix.len() && #[trigger] prefix[m] == t;
                    assert(longer[m] == t);
                }
                if t == all[i as int] {
                    assert(longer[i as int] == t);
                }
                if has_text(longer, t) {
                    let m = choose|m: int| 0 <= m < longer.len() && #[trigger] longer[m] == t;
                    if m < i {
                        assert(prefix[m] == t);
                    }
                }
            }
        }
        i += 1;
    }
    assert(all.subrange(0, names@.len() as int) =~= all);
    out
}

} // verus!
