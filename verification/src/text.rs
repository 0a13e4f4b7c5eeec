//! Character-level text primitives shared by the whole library.
//!
//! Every exec function here works on `Vec<char>` (or `&str` at the edges) and
//! is specified over `Seq<char>`.
use vstd::prelude::*;

verus! {

// ---------------------------------------------------------------------------
// Specifications
// ---------------------------------------------------------------------------

/// Unicode `White_Space`: exactly the characters for which `char::is_whitespace` holds.
pub open spec fn is_ws(c: char) -> bool {
    ||| c == '\t' || c == '\n' || c == '\u{0B}' || c == '\u{0C}' || c == '\r' || c == ' '
    ||| c == '\u{85}' || c == '\u{A0}' || c == '\u{1680}'
    ||| ('\u{2000}' <= c && c <= '\u{200A}')
    ||| c == '\u{2028}' || c == '\u{2029}' || c == '\u{202F}' || c == '\u{205F}' || c == '\u{3000}'
}

/// `s` with every leading whitespace character removed.
pub open spec fn trim_start(s: Seq<char>) -> Seq<char>
    decreases s.len(),
{
    if s.len() > 0 && is_ws(s[0]) {
        trim_start(s.drop_first())
    } else {
        s
    }
}

/// `s` with every trailing whitespace character removed.
pub open spec fn trim_end(s: Seq<char>) -> Seq<char>
    decreases s.len(),
{
    if s.len() > 0 && is_ws(s.last()) {
        trim_end(s.drop_last())
    } else {
        s
    }
}

/// `str::trim`.
pub open spec fn trim(s: Seq<char>) -> Seq<char> {
    trim_end(trim_start(s))
}

/// `s` with every leading `c` removed.
pub open spec fn strip_start_char(s: Seq<char>, c: char) -> Seq<char>
    decreases s.len(),
{
    if s.len() > 0 && s[0] == c {
        strip_start_char(s.drop_first(), c)
    } else {
        s
    }
}

/// `s` with every trailing `c` removed.
pub open spec fn strip_end_char(s: Seq<char>, c: char) -> Seq<char>
    decreases s.len(),
{
    if s.len() > 0 && s.last() == c {
        strip_end_char(s.drop_last(), c)
    } else {
        s
    }
}

/// The contents of a sequence of character vectors.
pub open spec fn vviews(v: Seq<Vec<char>>) -> Seq<Seq<char>> {
    v.map_values(|x: Vec<char>| x@)
}

/// The contents of a sequence of strings.
pub open spec fn strs(v: Seq<String>) -> Seq<Seq<char>> {
    v.map_values(|x: String| x@)
}

/// `str::trim_matches(c)` for a single character.
pub open spec fn trim_char(s: Seq<char>, c: char) -> Seq<char> {
    strip_end_char(strip_start_char(s, c), c)
}

/// `p` is a prefix of `s`.
pub open spec fn starts(s: Seq<char>, p: Seq<char>) -> bool {
    p.len() <= s.len() && s.subrange(0, p.len() as int) == p
}

/// `p` is a suffix of `s`.
pub open spec fn ends(s: Seq<char>, p: Seq<char>) -> bool {
    p.len() <= s.len() && s.subrange(s.len() - p.len(), s.len() as int) == p
}

/// `p` occurs in `s` starting at index `i`.
pub open spec fn occurs_at(s: Seq<char>, p: Seq<char>, i: int) -> bool {
    0 <= i && i + p.len() <= s.len() && s.subrange(i, i + p.len()) == p
}

/// `str::contains` with a string pattern.
pub open spec fn has_sub(s: Seq<char>, p: Seq<char>) -> bool {
    exists|i: int| #[trigger] occurs_at(s, p, i)
}

/// Index of the first `c` in `s`, or `s.len()` when there is none.
pub open spec fn char_pos(s: Seq<char>, c: char) -> nat
    decreases s.len(),
{
    if s.len() == 0 {
        0
    } else if s[0] == c {
        0
    } else {
        1 + char_pos(s.drop_first(), c)
    }
}

/// `str::split(c)`: the pieces between the occurrences of `c` (always at least one).
pub open spec fn split_char(s: Seq<char>, c: char) -> Seq<Seq<char>>
    decreases s.len(),
{
    let p = char_pos(s, c);
    if p >= s.len() {
        seq![s]
    } else {
        seq![s.subrange(0, p as int)] + split_char(s.subrange(p as int + 1, s.len() as int), c)
    }
}

/// The items of `ss` joined with `sep` between consecutive items.
pub open spec fn join(ss: Seq<Seq<char>>, sep: Seq<char>) -> Seq<char>
    decreases ss.len(),
{
    if ss.len() == 0 {
        Seq::empty()
    } else if ss.len() == 1 {
        ss[0]
    } else {
        join(ss.drop_last(), sep) + sep + ss.last()
    }
}

/// Decimal digits of `n` (no sign, no leading zeros; `"0"` for zero).
pub open spec fn dec(n: nat) -> Seq<char>
    decreases n,
{
    if n < 10 {
        seq![digit(n)]
    } else {
        dec(n / 10).push(digit(n % 10))
    }
}

/// The ASCII digit for `d < 10`.
pub open spec fn digit(d: nat) -> char {
    if d == 0 { '0' }
    else if d == 1 { '1' }
    else if d == 2 { '2' }
    else if d == 3 { '3' }
    else if d == 4 { '4' }
    else if d == 5 { '5' }
    else if d == 6 { '6' }
    else if d == 7 { '7' }
    else if d == 8 { '8' }
    else { '9' }
}

/// `format!("{:.2}", n / 100)` for a non-negative number of hundredths.
pub open spec fn hundredths_str(n: nat) -> Seq<char> {
    let frac: nat = n % 100;
    dec(n / 100) + seq!['.', digit(frac / 10), digit(frac % 10)]
}

/// What `str::to_lowercase` returns for a string.
pub uninterp spec fn lowercase(s: Seq<char>) -> Seq<char>;

/// What `str::to_uppercase` returns for a string.
pub uninterp spec fn uppercase(s: Seq<char>) -> Seq<char>;

/// What `char::to_uppercase` yields for one character, collected into a string.
pub uninterp spec fn char_uppercase(c: char) -> Seq<char>;

/// Every character of `s` is ASCII.
pub open spec fn all_ascii(s: Seq<char>) -> bool {
    forall|i: int| 0 <= i < s.len() ==> (#[trigger] s[i] as int) < 128
}

/// ASCII lowercase of one character: `A`..`Z` become `a`..`z`, others stay.
pub open spec fn ascii_lower_char(c: char) -> char {
    if 65 <= (c as int) <= 90 { ((c as int) + 32) as char } else { c }
}

/// ASCII uppercase of one character: `a`..`z` become `A`..`Z`, others stay.
pub open spec fn ascii_upper_char(c: char) -> char {
    if 97 <= (c as int) <= 122 { ((c as int) - 32) as char } else { c }
}

pub open spec fn ascii_lower(s: Seq<char>) -> Seq<char> {
    s.map_values(|c: char| ascii_lower_char(c))
}

pub open spec fn ascii_upper(s: Seq<char>) -> Seq<char> {
    s.map_values(|c: char| ascii_upper_char(c))
}

// ---------------------------------------------------------------------------
// Trusted calls into std
// ---------------------------------------------------------------------------

/// `str::to_lowercase`. The contract names the result (`lowercase`); of the
/// Unicode case mapping it states only the ASCII case, where every letter
/// `A`..`Z` maps to its lowercase and every other character stays.
#[verifier::external_body]
pub(crate) fn to_lower(s: &str) -> (res: String)
    ensures
        res@ == lowercase(s@),
        all_ascii(s@) ==> res@ == ascii_lower(s@),
{
    s.to_lowercase()
}

/// `str::to_uppercase`. The contract names the result (`uppercase`); of the
/// Unicode case mapping it states only the ASCII case.
#[verifier::external_body]
pub(crate) fn to_upper(s: &str) -> (res: String)
    ensures
        res@ == uppercase(s@),
        all_ascii(s@) ==> res@ == ascii_upper(s@),
{
    s.to_uppercase()
}

/// `char::to_uppercase`, collected into a `String`. The contract names the
/// result (`char_uppercase`); for an ASCII character it is that character's
/// ASCII uppercase, alone.
#[verifier::external_body]
pub(crate) fn char_to_upper(c: char) -> (res: String)
    ensures
        res@ == char_uppercase(c),
        (c as int) < 128 ==> res@ == seq![ascii_upper_char(c)],
{
    c.to_uppercase().collect()
}

/// `String::from_iter` over characters: the string holds exactly `v`, in order.
#[verifier::external_body]
pub(crate) fn string_of(v: &Vec<char>) -> (res: String)
    ensures
        res@ == v@,
{
    v.iter().collect()
}

// ---------------------------------------------------------------------------
// Exec helpers
// ---------------------------------------------------------------------------

/// The characters of `s`, in order.
pub fn chars_of(s: &str) -> (res: Vec<char>)
    ensures
        res@ == s@,
{
    let mut res: Vec<char> = Vec::new();
    for c in it: s.chars()
        invariant
            res@ == it.seq().take(it.index() as int),
            it.seq() == s@,
    {
        res.push(c);
    }
    res
}

/// Lowercase of `s`, as characters.
pub fn lower_chars(s: &str) -> (res: Vec<char>)
    ensures
        res@ == lowercase(s@),
{
    let l = to_lower(s);
    chars_of(l.as_str())
}

/// `char::is_whitespace`.
pub fn is_ws_exec(c: char) -> (b: bool)
    ensures
        b == is_ws(c),
{
    c == '\t' || c == '\n' || c == '\u{0B}' || c == '\u{0C}' || c == '\r' || c == ' ' || c
        == '\u{85}' || c == '\u{A0}' || c == '\u{1680}' || ('\u{2000}' <= c && c <= '\u{200A}')
        || c == '\u{2028}' || c == '\u{2029}' || c == '\u{202F}' || c == '\u{205F}' || c
        == '\u{3000}'
}

/// The characters of `s` in `[lo, hi)`.
pub fn slice_chars(s: &Vec<char>, lo: usize, hi: usize) -> (res: Vec<char>)
    requires
        lo <= hi <= s.len(),
    ensures
        res@ == s@.subrange(lo as int, hi as int),
{
    let mut res: Vec<char> = Vec::new();
    let mut i: usize = lo;
    while i < hi
        invariant
            lo <= i <= hi <= s.len(),
            res@ == s@.subrange(lo as int, i as int),
        decreases hi - i,
    {
        res.push(s[i]);
        i += 1;
    }
    res
}

/// `a == b`.
pub fn seq_eq(a: &Vec<char>, b: &Vec<char>) -> (r: bool)
    ensures
        r == (a@ == b@),
{
    if a.len() != b.len() {
        return false;
    }
    let mut i: usize = 0;
    while i < a.len()
        invariant
            a.len() == b.len(),
            i <= a.len(),
            a@.subrange(0, i as int) == b@.subrange(0, i as int),
        decreases a.len() - i,
    {
        if a[i] != b[i] {
            assert(a@[i as int] != b@[i as int]);
            return false;
        }
        assert(a@.subrange(0, i + 1) == a@.subrange(0, i as int).push(a@[i as int]));
        assert(b@.subrange(0, i + 1) == b@.subrange(0, i as int).push(b@[i as int]));
        i += 1;
    }
    assert(a@ == a@.subrange(0, a.len() as int));
    assert(b@ == b@.subrange(0, b.len() as int));
    true
}

/// `a == lit`.
pub fn eq_lit(a: &Vec<char>, lit: &str) -> (r: bool)
    ensures
        r == (a@ == lit@),
{
    let l = chars_of(lit);
    seq_eq(a, &l)
}

/// `p` occurs in `s` at `i`.
pub fn occurs_at_exec(s: &Vec<char>, p: &Vec<char>, i: usize) -> (r: bool)
    ensures
        r == occurs_at(s@, p@, i as int),
{
    if p.len() > s.len() || i > s.len() - p.len() {
        return false;
    }
    let mut k: usize = 0;
    while k < p.len()
        invariant
            i + p.len() <= s.len(),
            k <= p.len(),
            s@.subrange(i as int, i + k) == p@.subrange(0, k as int),
        decreases p.len() - k,
    {
        if s[i + k] != p[k] {
            assert(s@.subrange(i as int, i + p.len())[k as int] != p@[k as int]);
            return false;
        }
        assert(s@.subrange(i as int, i + k + 1) == s@.subrange(i as int, i + k).push(s@[i + k]));
        assert(p@.subrange(0, k + 1) == p@.subrange(0, k as int).push(p@[k as int]));
        k += 1;
    }
    assert(p@ == p@.subrange(0, p.len() as int));
    true
}

/// `s` starts with `p`.
pub fn starts_with(s: &Vec<char>, p: &Vec<char>) -> (r: bool)
    ensures
        r == starts(s@, p@),
{
    occurs_at_exec(s, p, 0)
}

/// `s` ends with `p`.
pub fn ends_with(s: &Vec<char>, p: &Vec<char>) -> (r: bool)
    ensures
        r == ends(s@, p@),
{
    if p.len() > s.len() {
        return false;
    }
    occurs_at_exec(s, p, s.len() - p.len())
}

/// `s` starts with the literal `lit`.
pub fn starts_lit(s: &Vec<char>, lit: &str) -> (r: bool)
    ensures
        r == starts(s@, lit@),
{
    let p = chars_of(lit);
    starts_with(s, &p)
}

/// `s` ends with the literal `lit`.
pub fn ends_lit(s: &Vec<char>, lit: &str) -> (r: bool)
    ensures
        r == ends(s@, lit@),
{
    let p = chars_of(lit);
    ends_with(s, &p)
}

/// `s` contains `p`.
pub fn contains(s: &Vec<char>, p: &Vec<char>) -> (r: bool)
    ensures
        r == has_sub(s@, p@),
{
    if p.len() > s.len() {
        assert forall|i: int| !occurs_at(s@, p@, i) by {}
        return false;
    }
    let last: usize = s.len() - p.len();
    let mut i: usize = 0;
    loop
        invariant
            p.len() <= s.len(),
            last == s.len() - p.len(),
            i <= last,
            forall|j: int| 0 <= j < i ==> !occurs_at(s@, p@, j),
        ensures
            forall|j: int| 0 <= j <= last ==> !occurs_at(s@, p@, j),
        decreases last - i,
    {
        if occurs_at_exec(s, p, i) {
            return true;
        }
        if i == last {
            break;
        }
        i += 1;
    }
    assert forall|j: int| !occurs_at(s@, p@, j) by {
        if 0 <= j <= last {
        }
    }
    false
}

/// A letter, digit or non-ASCII character: part of a word.
pub open spec fn word_char(c: char) -> bool {
    ('a' <= c && c <= 'z') || ('A' <= c && c <= 'Z') || ('0' <= c && c <= '9') || (c as u32) >= 128
}

/// `p` occurs in `s` at `i` at the start of a word: no word character
/// comes right before it.
pub open spec fn word_at(s: Seq<char>, p: Seq<char>, i: int) -> bool {
    &&& occurs_at(s, p, i)
    &&& (i == 0 || !word_char(s[i - 1]))
}

/// `p` occurs in `s` at the start of a word.
pub open spec fn has_word(s: Seq<char>, p: Seq<char>) -> bool {
    exists|i: int| #[trigger] word_at(s, p, i)
}

fn word_char_exec(c: char) -> (b: bool)
    ensures
        b == word_char(c),
{
    ('a' <= c && c <= 'z') || ('A' <= c && c <= 'Z') || ('0' <= c && c <= '9') || (c as u32) >= 128
}

/// Whether `p` occurs in `s` at the start of a word.
pub fn contains_word(s: &Vec<char>, p: &Vec<char>) -> (r: bool)
    ensures
        r == has_word(s@, p@),
{
    if p.len() > s.len() {
        assert forall|i: int| !word_at(s@, p@, i) by {}
        return false;
    }
    let last: usize = s.len() - p.len();
    let mut i: usize = 0;
    loop
        invariant
            p.len() <= s.len(),
            last == s.len() - p.len(),
            i <= last,
            forall|j: int| 0 <= j < i ==> !word_at(s@, p@, j),
        ensures
            forall|j: int| 0 <= j <= last ==> !word_at(s@, p@, j),
        decreases last - i,
    {
        if occurs_at_exec(s, p, i) {
            let before_ok = i == 0 || !word_char_exec(s[i - 1]);
            if before_ok {
                assert(word_at(s@, p@, i as int));
                return true;
            }
        }
        if i == last {
            break;
        }
        i += 1;
    }
    assert forall|j: int| !word_at(s@, p@, j) by {
        if 0 <= j <= last {
        }
    }
    false
}

/// `s` contains the literal `lit`.
pub fn contains_lit(s: &Vec<char>, lit: &str) -> (r: bool)
    ensures
        r == has_sub(s@, lit@),
{
    let p = chars_of(lit);
    contains(s, &p)
}

proof fn lemma_trim_start_skip(s: Seq<char>, i: int)
    requires
        0 <= i <= s.len(),
        forall|j: int| 0 <= j < i ==> is_ws(s[j]),
    ensures
        trim_start(s) == trim_start(s.subrange(i, s.len() as int)),
    decreases i,
{
    if i > 0 {
        assert(s.drop_first() == s.subrange(1, s.len() as int));
        lemma_trim_start_skip(s.drop_first(), i - 1);
        assert(s.drop_first().subrange(i - 1, s.drop_first().len() as int) == s.subrange(
            i,
            s.len() as int,
        ));
    } else {
        assert(s.subrange(0, s.len() as int) == s);
    }
}

proof fn lemma_trim_end_take(s: Seq<char>, j: int)
    requires
        0 <= j <= s.len(),
        forall|k: int| j <= k < s.len() ==> is_ws(s[k]),
    ensures
        trim_end(s) == trim_end(s.subrange(0, j)),
    decreases s.len() - j,
{
    if j < s.len() {
        assert(s.drop_last() == s.subrange(0, s.len() - 1));
        lemma_trim_end_take(s.drop_last(), j);
        assert(s.drop_last().subrange(0, j) == s.subrange(0, j));
    } else {
        assert(s.subrange(0, s.len() as int) == s);
    }
}

proof fn lemma_strip_start_skip(s: Seq<char>, c: char, i: int)
    requires
        0 <= i <= s.len(),
        forall|j: int| 0 <= j < i ==> s[j] == c,
    ensures
        strip_start_char(s, c) == strip_start_char(s.subrange(i, s.len() as int), c),
    decreases i,
{
    if i > 0 {
        assert(s.drop_first() == s.subrange(1, s.len() as int));
        lemma_strip_start_skip(s.drop_first(), c, i - 1);
        assert(s.drop_first().subrange(i - 1, s.drop_first().len() as int) == s.subrange(
            i,
            s.len() as int,
        ));
    } else {
        assert(s.subrange(0, s.len() as int) == s);
    }
}

proof fn lemma_strip_end_take(s: Seq<char>, c: char, j: int)
    requires
        0 <= j <= s.len(),
        forall|k: int| j <= k < s.len() ==> s[k] == c,
    ensures
        strip_end_char(s, c) == strip_end_char(s.subrange(0, j), c),
    decreases s.len() - j,
{
    if j < s.len() {
        assert(s.drop_last() == s.subrange(0, s.len() - 1));
        lemma_strip_end_take(s.drop_last(), c, j);
        assert(s.drop_last().subrange(0, j) == s.subrange(0, j));
    } else {
        assert(s.subrange(0, s.len() as int) == s);
    }
}

/// `str::trim`.
pub fn trim_exec(s: &Vec<char>) -> (r: Vec<char>)
    ensures
        r@ == trim(s@),
{
    let mut i: usize = 0;
    while i < s.len() && is_ws_exec(s[i])
        invariant
            i <= s.len(),
            forall|j: int| 0 <= j < i ==> is_ws(s@[j]),
        decreases s.len() - i,
    {
        i += 1;
    }
    proof {
        lemma_trim_start_skip(s@, i as int);
    }
    let ghost t = s@.subrange(i as int, s.len() as int);
    assert(trim_start(t) == t);
    let mut j: usize = s.len();
    while j > i && is_ws_exec(s[j - 1])
        invariant
            i <= j <= s.len(),
            forall|k: int| j <= k < s.len() ==> is_ws(s@[k]),
        decreases j,
    {
        j -= 1;
    }
    proof {
        assert forall|k: int| j - i <= k < t.len() implies is_ws(t[k]) by {
            assert(t[k] == s@[k + i]);
        }
        lemma_trim_end_take(t, j - i);
        assert(t.subrange(0, j - i) == s@.subrange(i as int, j as int));
    }
    slice_chars(s, i, j)
}

/// `str::trim_matches(c)`.
pub fn trim_char_exec(s: &Vec<char>, c: char) -> (r: Vec<char>)
    ensures
        r@ == trim_char(s@, c),
{
    let mut i: usize = 0;
    while i < s.len() && s[i] == c
        invariant
            i <= s.len(),
            forall|j: int| 0 <= j < i ==> s@[j] == c,
        decreases s.len() - i,
    {
        i += 1;
    }
    proof {
        lemma_strip_start_skip(s@, c, i as int);
    }
    let ghost t = s@.subrange(i as int, s.len() as int);
    assert(strip_start_char(t, c) == t);
    let mut j: usize = s.len();
    while j > i && s[j - 1] == c
        invariant
            i <= j <= s.len(),
            forall|k: int| j <= k < s.len() ==> s@[k] == c,
        decreases j,
    {
        j -= 1;
    }
    proof {
        assert forall|k: int| j - i <= k < t.len() implies t[k] == c by {
            assert(t[k] == s@[k + i]);
        }
        lemma_strip_end_take(t, c, j - i);
        assert(t.subrange(0, j - i) == s@.subrange(i as int, j as int));
    }
    slice_chars(s, i, j)
}

proof fn lemma_char_pos(s: Seq<char>, c: char, k: int)
    requires
        0 <= k <= s.len(),
        forall|j: int| 0 <= j < k ==> s[j] != c,
        k == s.len() || s[k] == c,
    ensures
        char_pos(s, c) == k,
    decreases k,
{
    if k > 0 {
        lemma_char_pos(s.drop_first(), c, k - 1);
    }
}

/// Index of the first `c` in `s`, or `s.len()` when there is none.
pub fn find_char(s: &Vec<char>, c: char) -> (r: usize)
    ensures
        r == char_pos(s@, c),
        r <= s.len(),
{
    let mut i: usize = 0;
    while i < s.len() && s[i] != c
        invariant
            i <= s.len(),
            forall|j: int| 0 <= j < i ==> s@[j] != c,
        decreases s.len() - i,
    {
        i += 1;
    }
    proof {
        lemma_char_pos(s@, c, i as int);
    }
    i
}

/// `str::split(c)`.
pub fn split_exec(s: &Vec<char>, c: char) -> (r: Vec<Vec<char>>)
    ensures
        vviews(r@) == split_char(s@, c),
{
    let mut out: Vec<Vec<char>> = Vec::new();
    assert(vviews(out@) == Seq::<Seq<char>>::empty());
    assert(s@.subrange(0, s.len() as int) == s@);
    let mut st: usize = 0;
    let mut i: usize = 0;
    while i < s.len()
        invariant
            st <= i <= s.len(),
            forall|j: int| st <= j < i ==> s@[j] != c,
            split_char(s@, c) == vviews(out@) + split_char(s@.subrange(st as int, s.len() as int), c),
        decreases s.len() - i,
    {
        if s[i] == c {
            proof {
                let t = s@.subrange(st as int, s.len() as int);
                assert forall|j: int| 0 <= j < i - st implies t[j] != c by {
                    assert(t[j] == s@[j + st]);
                }
                lemma_char_pos(t, c, i - st);
                assert(t.subrange(0, i - st) == s@.subrange(st as int, i as int));
                assert(t.subrange(i - st + 1, t.len() as int) == s@.subrange(i + 1, s.len() as int));
            }
            let piece = slice_chars(s, st, i);
            let ghost before = vviews(out@);
            out.push(piece);
            assert(vviews(out@) == before.push(piece@));
            st = i + 1;
        }
        i += 1;
    }
    proof {
        let t = s@.subrange(st as int, s.len() as int);
        assert forall|j: int| 0 <= j < t.len() implies t[j] != c by {
            assert(t[j] == s@[j + st]);
        }
        lemma_char_pos(t, c, t.len() as int);
    }
    let last = slice_chars(s, st, s.len());
    let ghost before = vviews(out@);
    out.push(last);
    assert(vviews(out@) == before.push(last@));
    assert(split_char(s@, c) == before + seq![last@]);
    out
}

/// Decimal digit character for `d < 10`.
pub fn digit_exec(d: u128) -> (c: char)
    requires
        d < 10,
    ensures
        c == digit(d as nat),
{
    if d == 0 { '0' }
    else if d == 1 { '1' }
    else if d == 2 { '2' }
    else if d == 3 { '3' }
    else if d == 4 { '4' }
    else if d == 5 { '5' }
    else if d == 6 { '6' }
    else if d == 7 { '7' }
    else if d == 8 { '8' }
    else { '9' }
}

/// Decimal representation of `n`, as characters.
pub fn dec_chars(n: u128) -> (r: Vec<char>)
    ensures
        r@ == dec(n as nat),
    decreases n,
{
    if n < 10 {
        let mut v = Vec::new();
        v.push(digit_exec(n));
        v
    } else {
        let mut v = dec_chars(n / 10);
        v.push(digit_exec(n % 10));
        v
    }
}

/// `format!("{:.2}", n as f64 / 100.0)`, computed exactly.
pub fn hundredths_chars(n: u128) -> (r: Vec<char>)
    ensures
        r@ == hundredths_str(n as nat),
{
    let mut v = dec_chars(n / 100);
    let frac: u128 = n % 100;
    v.push('.');
    v.push(digit_exec(frac / 10));
    v.push(digit_exec(frac % 10));
    v
}

/// Append the characters of `b` to `a`.
pub fn append(a: &mut Vec<char>, b: &Vec<char>)
    ensures
        final(a)@ == old(a)@ + b@,
{
    let mut i: usize = 0;
    while i < b.len()
        invariant
            i <= b.len(),
            a@ == old(a)@ + b@.subrange(0, i as int),
        decreases b.len() - i,
    {
        a.push(b[i]);
        assert(b@.subrange(0, i + 1) == b@.subrange(0, i as int).push(b@[i as int]));
        i += 1;
    }
    assert(b@.subrange(0, b.len() as int) == b@);
}

/// Append the characters of the literal `lit` to `a`.
pub fn append_lit(a: &mut Vec<char>, lit: &str)
    ensures
        final(a)@ == old(a)@ + lit@,
{
    let l = chars_of(lit);
    append(a, &l);
}

/// Append the characters of `s` to `a`.
pub fn append_str(a: &mut Vec<char>, s: &String)
    ensures
        final(a)@ == old(a)@ + s@,
{
    let l = chars_of(s.as_str());
    append(a, &l);
}

/// The items of `ss` joined with `sep`.
pub fn join_exec(ss: &Vec<String>, sep: &str) -> (r: Vec<char>)
    ensures
        r@ == join(strs(ss@), sep@),
{
    let mut out: Vec<char> = Vec::new();
    let mut i: usize = 0;
    while i < ss.len()
        invariant
            i <= ss.len(),
            out@ == join(strs(ss@).subrange(0, i as int), sep@),
        decreases ss.len() - i,
    {
        let ghost pre = strs(ss@).subrange(0, i as int);
        let ghost nxt = strs(ss@).subrange(0, i + 1);
        assert(nxt.drop_last() == pre);
        assert(nxt.last() == ss[i as int]@);
        if i > 0 {
            append_lit(&mut out, sep);
        }
        append_str(&mut out, &ss[i]);
        i += 1;
    }
    assert(strs(ss@).subrange(0, ss.len() as int) == strs(ss@));
    out
}

/// The character vectors of `ss` joined with `sep`.
pub fn join_chars(ss: &Vec<Vec<char>>, sep: &str) -> (r: Vec<char>)
    ensures
        r@ == join(vviews(ss@), sep@),
{
    let mut out: Vec<char> = Vec::new();
    let mut i: usize = 0;
    while i < ss.len()
        invariant
            i <= ss.len(),
            out@ == join(vviews(ss@).subrange(0, i as int), sep@),
        decreases ss.len() - i,
    {
        let ghost pre = vviews(ss@).subrange(0, i as int);
        let ghost nxt = vviews(ss@).subrange(0, i + 1);
        assert(nxt.drop_last() == pre);
        assert(nxt.last() == ss[i as int]@);
        if i > 0 {
            append_lit(&mut out, sep);
        }
        append(&mut out, &ss[i]);
        i += 1;
    }
    assert(vviews(ss@).subrange(0, ss.len() as int) == vviews(ss@));
    out
}

/// `s` with every `from` character replaced by `to`.
pub open spec fn replace_char(s: Seq<char>, from: char, to: char) -> Seq<char> {
    s.map_values(|c: char| if c == from { to } else { c })
}

/// `s.replace(from, to)` for single characters.
pub fn replace_char_exec(s: &Vec<char>, from: char, to: char) -> (r: Vec<char>)
    ensures
        r@ == replace_char(s@, from, to),
{
    let mut out: Vec<char> = Vec::new();
    let mut i: usize = 0;
    while i < s.len()
        invariant
            i <= s.len(),
            out@ == replace_char(s@.subrange(0, i as int), from, to),
        decreases s.len() - i,
    {
        out.push(if s[i] == from { to } else { s[i] });
        assert(replace_char(s@.subrange(0, i + 1), from, to) == replace_char(s@.subrange(0, i as int), from, to).push(if s@[i as int] == from { to } else { s@[i as int] }));
        i += 1;
    }
    assert(s@.subrange(0, s.len() as int) == s@);
    out
}

/// `str::replace(p, "")`: every leftmost non-overlapping occurrence of `p` removed.
pub open spec fn remove_all(s: Seq<char>, p: Seq<char>) -> Seq<char>
    decreases s.len(),
{
    if p.len() == 0 || s.len() < p.len() {
        s
    } else if s.subrange(0, p.len() as int) == p {
        remove_all(s.subrange(p.len() as int, s.len() as int), p)
    } else {
        seq![s[0]] + remove_all(s.drop_first(), p)
    }
}

/// `s.replace(p, "")`.
pub fn remove_all_exec(s: &Vec<char>, p: &Vec<char>) -> (r: Vec<char>)
    requires
        p.len() > 0,
    ensures
        r@ == remove_all(s@, p@),
{
    let mut out: Vec<char> = Vec::new();
    let mut i: usize = 0;
    assert(s@.subrange(0, s.len() as int) == s@);
    while i < s.len()
        invariant
            p.len() > 0,
            i <= s.len(),
            remove_all(s@, p@) == out@ + remove_all(s@.subrange(i as int, s.len() as int), p@),
        decreases s.len() - i,
    {
        let ghost t = s@.subrange(i as int, s.len() as int);
        if occurs_at_exec(s, p, i) {
            assert(t.subrange(0, p.len() as int) == s@.subrange(i as int, i + p.len()));
            assert(t.subrange(p.len() as int, t.len() as int) == s@.subrange(i + p.len(), s.len() as int));
            i += p.len();
        } else {
            proof {
                if t.len() >= p@.len() {
                    assert(t.subrange(0, p.len() as int) == s@.subrange(i as int, i + p.len()));
                }
                assert(t.drop_first() == s@.subrange(i + 1, s.len() as int));
                assert(t[0] == s@[i as int]);
                if t.len() < p@.len() {
                    assert(remove_all(t, p@) == t);
                    assert(t == seq![t[0]] + t.drop_first());
                    assert(remove_all(t.drop_first(), p@) == t.drop_first());
                }
            }
            let ghost before = out@;
            out.push(s[i]);
            assert(out@ == before + seq![s@[i as int]]);
            i += 1;
        }
    }
    assert(remove_all(s@.subrange(s.len() as int, s.len() as int), p@) == Seq::<char>::empty());
    out
}

} // verus!
