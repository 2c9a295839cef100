//! Character-level text operations with their mathematical models.

use vstd::prelude::*;

verus! {

/// Whether `c` carries the Unicode `White_Space` property.
pub open spec fn is_whitespace(c: char) -> bool {
    let n = c as u32;
    ||| 0x09 <= n <= 0x0D
    ||| n == 0x20
    ||| n == 0x85
    ||| n == 0xA0
    ||| n == 0x1680
    ||| 0x2000 <= n <= 0x200A
    ||| n == 0x2028
    ||| n == 0x2029
    ||| n == 0x202F
    ||| n == 0x205F
    ||| n == 0x3000
}

/// Tests a character for the Unicode `White_Space` property.
pub fn char_is_whitespace(c: char) -> (b: bool)
    ensures
        b == is_whitespace(c),
{
    let n: u32 = c as u32;
    (0x09 <= n && n <= 0x0D) || n == 0x20 || n == 0x85 || n == 0xA0 || n == 0x1680 || (0x2000 <= n
        && n <= 0x200A) || n == 0x2028 || n == 0x2029 || n == 0x202F || n == 0x205F || n == 0x3000
}

/// `String::push` appends one character to the end of the string and
/// leaves what was there before in place.
pub assume_specification[ String::push ](s: &mut String, ch: char)
    ensures
        final(s)@ == old(s)@.push(ch),
;

/// The characters of a string slice, in order.
#[verifier::loop_isolation(false)]
pub fn chars_of(s: &str) -> (v: Vec<char>)
    ensures
        v@ == s@,
{
    broadcast use vstd::string::group_string_axioms;

    let mut v: Vec<char> = Vec::new();
    let chars = s.chars();
    for c in it: chars
        invariant
            v@ == it.seq().take(it.index()),
    {
        v.push(c);
    }
    v
}

/// The string made of the given characters, in order.
pub fn string_of(chars: &[char]) -> (s: String)
    ensures
        s@ == chars@,
{
    let mut s = String::new();
    let mut i: usize = 0;
    while i < chars.len()
        invariant
            i <= chars.len(),
            s@ == chars@.take(i as int),
        decreases chars.len() - i,
    {
        s.push(chars[i]);
        i += 1;
    }
    s
}

/// A fresh vector holding `s[from..to]`.
pub(crate) fn copy_range(s: &[char], from: usize, to: usize) -> (v: Vec<char>)
    requires
        from <= to <= s.len(),
    ensures
        v@ == s@.subrange(from as int, to as int),
{
    vstd::slice::slice_to_vec(vstd::slice::slice_subrange(s, from, to))
}

/// `s` without its leading whitespace.
pub open spec fn spec_trim_start(s: Seq<char>) -> Seq<char>
    decreases s.len(),
{
    if s.len() > 0 && is_whitespace(s[0]) {
        spec_trim_start(s.drop_first())
    } else {
        s
    }
}

/// `s` without its trailing whitespace.
pub open spec fn spec_trim_end(s: Seq<char>) -> Seq<char>
    decreases s.len(),
{
    if s.len() > 0 && is_whitespace(s.last()) {
        spec_trim_end(s.drop_last())
    } else {
        s
    }
}

/// `s` without leading and trailing whitespace.
pub open spec fn spec_trim(s: Seq<char>) -> Seq<char> {
    spec_trim_end(spec_trim_start(s))
}

/// Removes leading and trailing whitespace.
pub fn trim(s: &[char]) -> (t: Vec<char>)
    ensures
        t@ == spec_trim(s@),
{
    let n = s.len();
    let mut i: usize = 0;
    assert(s@.skip(0) =~= s@);
    while i < n && char_is_whitespace(s[i])
        invariant
            i <= n,
            n == s.len(),
            spec_trim_start(s@) == spec_trim_start(s@.skip(i as int)),
        decreases n - i,
    {
        assert(s@.skip(i as int).drop_first() =~= s@.skip(i + 1));
        i += 1;
    }
    let mut j: usize = n;
    while j > i && char_is_whitespace(s[j - 1])
        invariant
            i <= j <= n,
            n == s.len(),
            spec_trim(s@) == spec_trim_end(s@.subrange(i as int, j as int)),
        decreases j,
    {
        assert(s@.subrange(i as int, j as int).drop_last() =~= s@.subrange(i as int, j - 1));
        j -= 1;
    }
    copy_range(s, i, j)
}

/// Whether `pat` is not empty and stands in `s` at index `i`.
pub open spec fn occurs_at(s: Seq<char>, pat: Seq<char>, i: int) -> bool {
    &&& pat.len() > 0
    &&& 0 <= i
    &&& i + pat.len() <= s.len()
    &&& s.subrange(i, i + pat.len()) == pat
}

/// The least index at or after `from` where `pat` occurs in `s`. An empty
/// pattern occurs nowhere.
pub open spec fn spec_find_from(s: Seq<char>, pat: Seq<char>, from: int) -> Option<int>
    decreases s.len() - from,
{
    if from < 0 || from >= s.len() {
        None
    } else if occurs_at(s, pat, from) {
        Some(from)
    } else {
        spec_find_from(s, pat, from + 1)
    }
}

/// The least index where `pat` occurs in `s`.
pub open spec fn spec_find(s: Seq<char>, pat: Seq<char>) -> Option<int> {
    spec_find_from(s, pat, 0)
}

/// Whether `pat` occurs somewhere in `s`.
pub open spec fn spec_contains(s: Seq<char>, pat: Seq<char>) -> bool {
    exists|i: int| occurs_at(s, pat, i)
}

/// Whether `s` begins with `pat`.
pub open spec fn spec_starts_with(s: Seq<char>, pat: Seq<char>) -> bool {
    pat.len() <= s.len() && s.subrange(0, pat.len() as int) == pat
}

/// `spec_find_from` gives the first occurrence at or after `from`, and
/// `None` exactly when there is none.
pub proof fn lemma_find_from(s: Seq<char>, pat: Seq<char>, from: int)
    requires
        0 <= from,
    ensures
        match spec_find_from(s, pat, from) {
            Some(i) => {
                &&& from <= i
                &&& occurs_at(s, pat, i)
                &&& forall|j: int| from <= j < i ==> !occurs_at(s, pat, j)
            },
            None => forall|j: int| from <= j ==> !occurs_at(s, pat, j),
        },
    decreases s.len() - from,
{
    if from < s.len() && !occurs_at(s, pat, from) {
        lemma_find_from(s, pat, from + 1);
    }
}

/// An occurrence is found exactly when the pattern is contained.
pub proof fn lemma_find_contains(s: Seq<char>, pat: Seq<char>)
    ensures
        spec_find(s, pat) is Some <==> spec_contains(s, pat),
{
    lemma_find_from(s, pat, 0);
}

/// Whether `pat` stands in `s` at index `i`, for a pattern that fits there.
fn matches_at(s: &[char], pat: &[char], i: usize) -> (b: bool)
    requires
        i + pat.len() <= s.len(),
    ensures
        b == (s@.subrange(i as int, i + pat.len()) == pat@),
{
    let m = pat.len();
    let mut k: usize = 0;
    while k < m
        invariant
            k <= m,
            m == pat.len(),
            i + m <= s.len(),
            forall|j: int| 0 <= j < k ==> s@[i + j] == pat@[j],
        decreases m - k,
    {
        if s[i + k] != pat[k] {
            return false;
        }
        k += 1;
    }
    assert(s@.subrange(i as int, i + m) =~= pat@);
    true
}

/// Whether `s` begins with `pat`.
pub fn starts_with(s: &[char], pat: &[char]) -> (b: bool)
    ensures
        b == spec_starts_with(s@, pat@),
{
    pat.len() <= s.len() && matches_at(s, pat, 0)
}

/// Finds the first occurrence of `pat` in `s` at or after `from`.
pub fn find_from(s: &[char], pat: &[char], from: usize) -> (r: Option<usize>)
    ensures
        match r {
            Some(i) => spec_find_from(s@, pat@, from as int) == Some(i as int),
            None => spec_find_from(s@, pat@, from as int) is None,
        },
{
    let n = s.len();
    let m = pat.len();
    if m == 0 || m > n {
        proof {
            lemma_find_from(s@, pat@, from as int);
        }
        return None;
    }
    let mut i: usize = from;
    while i <= n - m
        invariant
            from <= i,
            n == s.len(),
            m == pat.len(),
            0 < m <= n,
            spec_find_from(s@, pat@, from as int) == spec_find_from(s@, pat@, i as int),
        decreases n - i,
    {
        if matches_at(s, pat, i) {
            return Some(i);
        }
        i += 1;
    }
    proof {
        lemma_find_from(s@, pat@, i as int);
    }
    None
}

/// Finds the first occurrence of `pat` in `s`.
pub fn find(s: &[char], pat: &[char]) -> (r: Option<usize>)
    ensures
        match r {
            Some(i) => spec_find(s@, pat@) == Some(i as int),
            None => spec_find(s@, pat@) is None,
        },
{
    find_from(s, pat, 0)
}

/// Whether `pat` occurs somewhere in `s`.
pub fn contains(s: &[char], pat: &[char]) -> (b: bool)
    ensures
        b == spec_contains(s@, pat@),
{
    proof {
        lemma_find_contains(s@, pat@);
    }
    find(s, pat).is_some()
}

/// The character sequences that a sequence of vectors holds.
pub open spec fn texts(v: Seq<Vec<char>>) -> Seq<Seq<char>> {
    v.map_values(|x: Vec<char>| x@)
}

/// The character sequences that a sequence of strings holds.
pub open spec fn strings(v: Seq<String>) -> Seq<Seq<char>> {
    v.map_values(|x: String| x@)
}

/// Appends `s[from..to]` to `out`.
pub(crate) fn append_range(out: &mut Vec<char>, s: &[char], from: usize, to: usize)
    requires
        from <= to <= s.len(),
    ensures
        final(out)@ == old(out)@ + s@.subrange(from as int, to as int),
{
    let mut k: usize = from;
    while k < to
        invariant
            from <= k <= to <= s.len(),
            out@ == old(out)@ + s@.subrange(from as int, k as int),
        decreases to - k,
    {
        out.push(s[k]);
        k += 1;
    }
}

/// Appends the characters of `s` to `out`.
pub fn append(out: &mut Vec<char>, s: &[char])
    ensures
        final(out)@ == old(out)@ + s@,
{
    append_range(out, s, 0, s.len());
}

/// Appends the characters of the string `s` to `out`.
pub fn append_str(out: &mut Vec<char>, s: &str)
    ensures
        final(out)@ == old(out)@ + s@,
{
    let chars = chars_of(s);
    append(out, chars.as_slice());
}

/// A line without the carriage return that may end it.
pub open spec fn strip_cr(line: Seq<char>) -> Seq<char> {
    if line.len() > 0 && line.last() == '\r' {
        line.drop_last()
    } else {
        line
    }
}

/// The lines of `s[from..]`: the text is cut after each line feed, the
/// line feed and a carriage return before it are dropped, and what follows
/// the last line feed is a line only when it is not empty.
pub open spec fn spec_lines_from(s: Seq<char>, from: int) -> Seq<Seq<char>>
    decreases s.len() - from,
{
    if from < 0 || from >= s.len() {
        Seq::empty()
    } else {
        match spec_find_from(s, seq!['\n'], from) {
            Some(i) => if from <= i < s.len() {
                seq![strip_cr(s.subrange(from, i))] + spec_lines_from(s, i + 1)
            } else {
                Seq::empty()
            },
            None => seq![s.subrange(from, s.len() as int)],
        }
    }
}

/// The lines of `s`.
pub open spec fn spec_lines(s: Seq<char>) -> Seq<Seq<char>> {
    spec_lines_from(s, 0)
}

/// Splits a text into its lines.
pub fn lines(s: &[char]) -> (out: Vec<Vec<char>>)
    ensures
        texts(out@) == spec_lines(s@),
{
    let n = s.len();
    let newline: Vec<char> = vec!['\n'];
    let mut out: Vec<Vec<char>> = Vec::new();
    let mut a: usize = 0;
    while a < n
        invariant
            a <= n,
            n == s.len(),
            newline@ == seq!['\n'],
            spec_lines(s@) == texts(out@) + spec_lines_from(s@, a as int),
        decreases n - a,
    {
        proof {
            lemma_find_from(s@, newline@, a as int);
        }
        match find_from(s, newline.as_slice(), a) {
            Some(b) => {
                let mut line = copy_range(s, a, b);
                if line.len() > 0 && line[line.len() - 1] == '\r' {
                    line.pop();
                }
                out.push(line);
                a = b + 1;
            },
            None => {
                out.push(copy_range(s, a, n));
                a = n;
            },
        }
    }
    out
}

/// The pieces of `s[from..]` between the occurrences of `pat`, found from
/// left to right without overlap.
pub open spec fn spec_split_from(s: Seq<char>, pat: Seq<char>, from: int) -> Seq<Seq<char>>
    decreases s.len() - from,
{
    if from < 0 || from > s.len() {
        Seq::empty()
    } else {
        match spec_find_from(s, pat, from) {
            Some(i) => if from <= i && i + pat.len() <= s.len() && pat.len() > 0 {
                seq![s.subrange(from, i)] + spec_split_from(s, pat, i + pat.len())
            } else {
                Seq::empty()
            },
            None => seq![s.subrange(from, s.len() as int)],
        }
    }
}

/// The pieces of `s` between the occurrences of `pat`.
pub open spec fn spec_split(s: Seq<char>, pat: Seq<char>) -> Seq<Seq<char>> {
    spec_split_from(s, pat, 0)
}

/// Splits `s` at each occurrence of `pat`. An empty pattern occurs nowhere,
/// so the text then stays in one piece.
pub fn split(s: &[char], pat: &[char]) -> (out: Vec<Vec<char>>)
    ensures
        texts(out@) == spec_split(s@, pat@),
{
    let n = s.len();
    let m = pat.len();
    let mut out: Vec<Vec<char>> = Vec::new();
    let mut a: usize = 0;
    loop
        invariant
            a <= n,
            n == s.len(),
            m == pat.len(),
            spec_split(s@, pat@) == texts(out@) + spec_split_from(s@, pat@, a as int),
        decreases n - a,
    {
        proof {
            lemma_find_from(s@, pat@, a as int);
        }
        match find_from(s, pat, a) {
            Some(b) => {
                out.push(copy_range(s, a, b));
                a = b + m;
            },
            None => {
                out.push(copy_range(s, a, n));
                return out;
            },
        }
    }
}

/// `s[from..]` with each occurrence of `pat`, found from left to right
/// without overlap, replaced by `with`.
pub open spec fn spec_replace_from(
    s: Seq<char>,
    pat: Seq<char>,
    with: Seq<char>,
    from: int,
) -> Seq<char>
    decreases s.len() - from,
{
    if from < 0 || from > s.len() {
        Seq::empty()
    } else {
        match spec_find_from(s, pat, from) {
            Some(i) => if from <= i && i + pat.len() <= s.len() && pat.len() > 0 {
                s.subrange(from, i) + with + spec_replace_from(s, pat, with, i + pat.len())
            } else {
                Seq::empty()
            },
            None => s.subrange(from, s.len() as int),
        }
    }
}

/// `s` with each occurrence of `pat` replaced by `with`.
pub open spec fn spec_replace(s: Seq<char>, pat: Seq<char>, with: Seq<char>) -> Seq<char> {
    spec_replace_from(s, pat, with, 0)
}

/// Replaces each occurrence of `pat` in `s` by `with`. An empty pattern
/// occurs nowhere, so the text then stays as it is.
pub fn replace(s: &[char], pat: &[char], with: &[char]) -> (out: Vec<char>)
    ensures
        out@ == spec_replace(s@, pat@, with@),
{
    let n = s.len();
    let m = pat.len();
    let mut out: Vec<char> = Vec::new();
    let mut a: usize = 0;
    loop
        invariant
            a <= n,
            n == s.len(),
            m == pat.len(),
            spec_replace(s@, pat@, with@) == out@ + spec_replace_from(s@, pat@, with@, a as int),
        decreases n - a,
    {
        proof {
            lemma_find_from(s@, pat@, a as int);
        }
        match find_from(s, pat, a) {
            Some(b) => {
                append_range(&mut out, s, a, b);
                append_range(&mut out, with, 0, with.len());
                a = b + m;
            },
            None => {
                append_range(&mut out, s, a, n);
                return out;
            },
        }
    }
}

/// `s` after `pat` has been taken from its front as often as it stands
/// there.
pub open spec fn spec_trim_start_matches(s: Seq<char>, pat: Seq<char>) -> Seq<char>
    decreases s.len(),
{
    if pat.len() > 0 && spec_starts_with(s, pat) {
        spec_trim_start_matches(s.skip(pat.len() as int), pat)
    } else {
        s
    }
}

/// Takes `pat` from the front of `s` as often as it stands there.
pub fn trim_start_matches(s: &[char], pat: &[char]) -> (out: Vec<char>)
    ensures
        out@ == spec_trim_start_matches(s@, pat@),
{
    let n = s.len();
    let m = pat.len();
    if m == 0 {
        return copy_range(s, 0, n);
    }
    let mut a: usize = 0;
    assert(s@.skip(0) =~= s@);
    while m <= n - a && matches_at(s, pat, a)
        invariant
            a <= n,
            n == s.len(),
            m == pat.len(),
            m > 0,
            spec_trim_start_matches(s@, pat@) == spec_trim_start_matches(s@.skip(a as int), pat@),
        decreases n - a,
    {
        assert(s@.skip(a as int).subrange(0, m as int) =~= s@.subrange(a as int, a + m));
        assert(s@.skip(a as int).skip(m as int) =~= s@.skip(a + m));
        a += m;
    }
    proof {
        if m <= n - a {
            assert(s@.skip(a as int).subrange(0, m as int) =~= s@.subrange(a as int, a + m));
        }
    }
    copy_range(s, a, n)
}

/// `s` without the run of `c` that ends it.
pub open spec fn spec_trim_end_char(s: Seq<char>, c: char) -> Seq<char>
    decreases s.len(),
{
    if s.len() > 0 && s.last() == c {
        spec_trim_end_char(s.drop_last(), c)
    } else {
        s
    }
}

/// Takes the run of `c` from the end of `s`.
pub fn trim_end_char(s: &[char], c: char) -> (out: Vec<char>)
    ensures
        out@ == spec_trim_end_char(s@, c),
{
    let mut j: usize = s.len();
    assert(s@.subrange(0, j as int) =~= s@);
    while j > 0 && s[j - 1] == c
        invariant
            j <= s.len(),
            spec_trim_end_char(s@, c) == spec_trim_end_char(s@.subrange(0, j as int), c),
        decreases j,
    {
        assert(s@.subrange(0, j as int).drop_last() =~= s@.subrange(0, j - 1));
        j -= 1;
    }
    copy_range(s, 0, j)
}

/// Whether two texts hold the same characters.
pub fn same(a: &[char], b: &[char]) -> (r: bool)
    ensures
        r == (a@ == b@),
{
    assert(a@.subrange(0, a@.len() as int) =~= a@);
    a.len() == b.len() && matches_at(a, b, 0)
}

/// Whether `c` is one of the ten ASCII digits.
pub open spec fn is_digit(c: char) -> bool {
    0x30 <= c as u32 <= 0x39
}

/// The number that an ASCII digit stands for.
pub open spec fn digit_value(c: char) -> nat {
    (c as u32 - 0x30) as nat
}

/// The ASCII digit for a number below ten.
pub open spec fn digit_char(d: nat) -> char {
    (d + 0x30) as char
}

/// Whether every character of `s` is an ASCII digit.
pub open spec fn all_digits(s: Seq<char>) -> bool {
    forall|i: int| 0 <= i < s.len() ==> is_digit(#[trigger] s[i])
}

/// The number that a run of ASCII digits denotes in base ten.
pub open spec fn digits_value(s: Seq<char>) -> nat
    decreases s.len(),
{
    if s.len() == 0 {
        0
    } else {
        digits_value(s.drop_last()) * 10 + digit_value(s.last())
    }
}

/// `s` without the `+` that may lead it.
pub open spec fn signless(s: Seq<char>) -> Seq<char> {
    if s.len() > 0 && s[0] == '+' {
        s.drop_first()
    } else {
        s
    }
}

/// The number that `s` denotes as a `u16`: an optional `+`, then at least
/// one ASCII digit and nothing else, with a value that fits.
pub open spec fn spec_parse_u16(s: Seq<char>) -> Option<u16> {
    let digits = signless(s);
    if digits.len() > 0 && all_digits(digits) && digits_value(digits) <= u16::MAX {
        Some(digits_value(digits) as u16)
    } else {
        None
    }
}

/// The value of a run of digits is at least the value of each of its
/// prefixes.
proof fn lemma_digits_value_prefix(s: Seq<char>, k: int)
    requires
        0 <= k <= s.len(),
    ensures
        digits_value(s.take(k)) <= digits_value(s),
    decreases s.len() - k,
{
    if k == s.len() {
        assert(s.take(k) =~= s);
    } else {
        lemma_digits_value_prefix(s, k + 1);
        assert(s.take(k + 1).drop_last() =~= s.take(k));
    }
}

/// Reads a `u16` in base ten.
pub fn parse_u16(s: &[char]) -> (r: Option<u16>)
    ensures
        r == spec_parse_u16(s@),
{
    let n = s.len();
    let start: usize = if n > 0 && s[0] == '+' {
        1
    } else {
        0
    };
    let ghost digits = s@.subrange(start as int, n as int);
    if start == n {
        return None;
    }
    let mut value: u32 = 0;
    let mut i: usize = start;
    while i < n
        invariant
            start <= i <= n,
            n == s.len(),
            digits == s@.subrange(start as int, n as int),
            digits == signless(s@),
            all_digits(digits.take(i - start)),
            value == digits_value(digits.take(i - start)),
            value <= u16::MAX,
        decreases n - i,
    {
        let c = s[i];
        let code: u32 = c as u32;
        if code < 0x30 || code > 0x39 {
            assert(!is_digit(digits[i - start]));
            return None;
        }
        let ghost shorter = digits.take(i - start);
        let ghost longer = digits.take(i - start + 1);
        assert(longer.drop_last() =~= shorter);
        assert forall|j: int| 0 <= j < longer.len() implies is_digit(#[trigger] longer[j]) by {
            if j < shorter.len() {
                assert(longer[j] == shorter[j]);
            }
        }
        value = value * 10 + (code - 0x30);
        if value > 0xFFFF {
            proof {
                lemma_digits_value_prefix(digits, i - start + 1);
            }
            return None;
        }
        i += 1;
    }
    assert(digits.take(n - start) =~= digits);
    Some(value as u16)
}

/// The digits of `n` in base ten, without leading zeros.
pub open spec fn spec_decimal(n: nat) -> Seq<char>
    decreases n,
{
    if n < 10 {
        seq![digit_char(n)]
    } else {
        spec_decimal(n / 10).push(digit_char(n % 10))
    }
}

/// The ASCII digit for a number below ten.
fn digit_of(d: u32) -> (c: char)
    requires
        d < 10,
    ensures
        c == digit_char(d as nat),
{
    ((d + 0x30) as u8) as char
}

/// Writes `n` in base ten.
pub fn decimal(n: u32) -> (v: Vec<char>)
    ensures
        v@ == spec_decimal(n as nat),
    decreases n,
{
    if n < 10 {
        let v = vec![digit_of(n)];
        v
    } else {
        let mut v = decimal(n / 10);
        v.push(digit_of(n % 10));
        v
    }
}

/// The texts of `items` in order, with `sep` between each two.
pub open spec fn spec_join(items: Seq<Seq<char>>, sep: Seq<char>) -> Seq<char>
    decreases items.len(),
{
    if items.len() == 0 {
        Seq::empty()
    } else if items.len() == 1 {
        items[0]
    } else {
        spec_join(items.drop_last(), sep) + sep + items.last()
    }
}

/// Joins `items` with `sep` between each two.
pub fn join(items: &Vec<Vec<char>>, sep: &[char]) -> (out: Vec<char>)
    ensures
        out@ == spec_join(texts(items@), sep@),
{
    let mut out: Vec<char> = Vec::new();
    let mut i: usize = 0;
    while i < items.len()
        invariant
            i <= items.len(),
            out@ == spec_join(texts(items@).take(i as int), sep@),
        decreases items.len() - i,
    {
        let ghost done = texts(items@).take(i as int);
        let ghost next = texts(items@).take(i + 1);
        assert(next.drop_last() =~= done);
        if i > 0 {
            append_range(&mut out, sep, 0, sep.len());
        }
        let item = &items[i];
        append_range(&mut out, item.as_slice(), 0, item.len());
        i += 1;
    }
    assert(texts(items@).take(items@.len() as int) =~= texts(items@));
    out
}

/// `line` with each occurrence of `label` taken out, then trimmed.
pub open spec fn spec_strip_label(line: Seq<char>, label: Seq<char>) -> Seq<char> {
    spec_trim(spec_replace(line, label, Seq::empty()))
}

/// Takes each occurrence of `label` out of `line` and trims what is left.
pub fn strip_label(line: &[char], label: &[char]) -> (out: Vec<char>)
    ensures
        out@ == spec_strip_label(line@, label@),
{
    let nothing: Vec<char> = Vec::new();
    let bare = replace(line, label, nothing.as_slice());
    trim(bare.as_slice())
}

/// A trimmed text neither begins nor ends with whitespace.
pub proof fn lemma_trim_shape(s: Seq<char>)
    ensures
        spec_trim(s).len() > 0 ==> !is_whitespace(spec_trim(s)[0]) && !is_whitespace(
            spec_trim(s).last(),
        ),
{
    lemma_trim_start_shape(s);
    lemma_trim_end_shape(spec_trim_start(s));
    lemma_trim_end_keeps_front(spec_trim_start(s));
}

/// Trimming a trimmed text changes nothing.
pub proof fn lemma_trim_idempotent(s: Seq<char>)
    ensures
        spec_trim(spec_trim(s)) == spec_trim(s),
{
    lemma_trim_shape(s);
}

/// No line holds a line feed.
pub proof fn lemma_lines_hold_no_line_feed(s: Seq<char>)
    ensures
        forall|k: int, j: int|
            0 <= k < spec_lines(s).len() && 0 <= j < spec_lines(s)[k].len()
                ==> #[trigger] spec_lines(s)[k][j] != '\n',
{
    lemma_lines_from_hold_no_line_feed(s, 0);
}

/// No line of `s[from..]` holds a line feed.
proof fn lemma_lines_from_hold_no_line_feed(s: Seq<char>, from: int)
    requires
        0 <= from,
    ensures
        forall|k: int, j: int|
            0 <= k < spec_lines_from(s, from).len() && 0 <= j < spec_lines_from(s, from)[k].len()
                ==> #[trigger] spec_lines_from(s, from)[k][j] != '\n',
    decreases s.len() - from,
{
    let newline = seq!['\n'];
    let all = spec_lines_from(s, from);
    if from < s.len() {
        lemma_find_from(s, newline, from);
        match spec_find_from(s, newline, from) {
            Some(i) => {
                lemma_lines_from_hold_no_line_feed(s, i + 1);
                let rest = spec_lines_from(s, i + 1);
                assert forall|k: int, j: int|
                    0 <= k < all.len() && 0 <= j < all[k].len() implies #[trigger] all[k][j]
                    != '\n' by {
                    if k == 0 {
                        if s[from + j] == '\n' {
                            assert(s.subrange(from + j, from + j + 1) =~= newline);
                            assert(occurs_at(s, newline, from + j));
                        }
                    } else {
                        assert(all[k] == rest[k - 1]);
                    }
                }
            },
            None => {
                assert forall|k: int, j: int|
                    0 <= k < all.len() && 0 <= j < all[k].len() implies #[trigger] all[k][j]
                    != '\n' by {
                    if s[from + j] == '\n' {
                        assert(s.subrange(from + j, from + j + 1) =~= newline);
                        assert(occurs_at(s, newline, from + j));
                    }
                }
            },
        }
    }
}

/// What is left after the leading whitespace has gone is empty or begins
/// with a character that is no whitespace.
proof fn lemma_trim_start_shape(s: Seq<char>)
    ensures
        spec_trim_start(s).len() == 0 || !is_whitespace(spec_trim_start(s)[0]),
    decreases s.len(),
{
    if s.len() > 0 && is_whitespace(s[0]) {
        lemma_trim_start_shape(s.drop_first());
    }
}

/// What is left after the trailing whitespace has gone is empty or ends
/// with a character that is no whitespace.
proof fn lemma_trim_end_shape(s: Seq<char>)
    ensures
        spec_trim_end(s).len() == 0 || !is_whitespace(spec_trim_end(s).last()),
    decreases s.len(),
{
    if s.len() > 0 && is_whitespace(s.last()) {
        lemma_trim_end_shape(s.drop_last());
    }
}

/// Taking the trailing whitespace away leaves a prefix, so what is left
/// begins as the text did.
proof fn lemma_trim_end_keeps_front(s: Seq<char>)
    ensures
        spec_trim_end(s).len() <= s.len(),
        spec_trim_end(s).len() > 0 ==> spec_trim_end(s)[0] == s[0],
    decreases s.len(),
{
    if s.len() > 0 && is_whitespace(s.last()) {
        lemma_trim_end_keeps_front(s.drop_last());
    }
}

/// The digits of a number denote that number.
pub proof fn lemma_decimal_value(n: nat)
    ensures
        spec_decimal(n).len() > 0,
        all_digits(spec_decimal(n)),
        digits_value(spec_decimal(n)) == n,
    decreases n,
{
    if n < 10 {
        let s = spec_decimal(n);
        assert(digits_value(s.drop_last()) == 0);
    } else {
        lemma_decimal_value(n / 10);
        let shorter = spec_decimal(n / 10);
        let s = spec_decimal(n);
        assert(s.drop_last() =~= shorter);
        assert forall|i: int| 0 <= i < s.len() implies is_digit(#[trigger] s[i]) by {
            if i < shorter.len() {
                assert(s[i] == shorter[i]);
            }
        }
    }
}

/// A number that fits in a `u16` is read back from its digits.
pub proof fn lemma_parse_decimal(n: u16)
    ensures
        spec_parse_u16(spec_decimal(n as nat)) == Some(n),
{
    lemma_decimal_value(n as nat);
}

/// A text put before a list that is not empty is joined to it by one
/// separator.
proof fn lemma_join_prepend(first: Seq<char>, rest: Seq<Seq<char>>, sep: Seq<char>)
    requires
        rest.len() > 0,
    ensures
        spec_join(seq![first] + rest, sep) == first + sep + spec_join(rest, sep),
    decreases rest.len(),
{
    let all = seq![first] + rest;
    if rest.len() == 1 {
        assert(all.drop_last() =~= seq![first]);
        assert(spec_join(seq![first], sep) == first);
    } else {
        lemma_join_prepend(first, rest.drop_last(), sep);
        assert(all.drop_last() =~= seq![first] + rest.drop_last());
    }
}

/// From any index on, replacing is splitting and joining with the
/// replacement.
proof fn lemma_replace_from_is_split_join(
    s: Seq<char>,
    pat: Seq<char>,
    with: Seq<char>,
    from: int,
)
    requires
        0 <= from <= s.len(),
    ensures
        spec_split_from(s, pat, from).len() > 0,
        spec_join(spec_split_from(s, pat, from), with) == spec_replace_from(s, pat, with, from),
    decreases s.len() - from,
{
    lemma_find_from(s, pat, from);
    match spec_find_from(s, pat, from) {
        Some(i) => {
            lemma_replace_from_is_split_join(s, pat, with, i + pat.len());
            lemma_join_prepend(
                s.subrange(from, i),
                spec_split_from(s, pat, i + pat.len()),
                with,
            );
        },
        None => {},
    }
}

/// Replacing each occurrence of a pattern is splitting at the pattern and
/// joining the pieces with the replacement.
pub proof fn lemma_replace_is_split_join(s: Seq<char>, pat: Seq<char>, with: Seq<char>)
    ensures
        spec_replace(s, pat, with) == spec_join(spec_split(s, pat), with),
{
    lemma_replace_from_is_split_join(s, pat, with, 0);
}

/// From any index on, replacing a pattern by itself changes nothing.
proof fn lemma_replace_from_by_itself(s: Seq<char>, pat: Seq<char>, from: int)
    requires
        0 <= from <= s.len(),
    ensures
        spec_replace_from(s, pat, pat, from) == s.subrange(from, s.len() as int),
    decreases s.len() - from,
{
    lemma_find_from(s, pat, from);
    match spec_find_from(s, pat, from) {
        Some(i) => {
            lemma_replace_from_by_itself(s, pat, i + pat.len());
        },
        None => {},
    }
}

/// Joining the pieces of a split with the pattern gives the text back.
pub proof fn lemma_split_join(s: Seq<char>, pat: Seq<char>)
    ensures
        spec_join(spec_split(s, pat), pat) == s,
{
    lemma_replace_from_is_split_join(s, pat, pat, 0);
    lemma_replace_from_by_itself(s, pat, 0);
}

/// What holds of everything that `f` gives holds of everything that is
/// kept when `f` is applied along a sequence.
pub proof fn lemma_filter_map_all<A, B>(
    s: Seq<A>,
    f: spec_fn(A) -> Option<B>,
    p: spec_fn(B) -> bool,
)
    requires
        forall|a: A| (#[trigger] f(a)) is Some ==> p(f(a).unwrap()),
    ensures
        forall|k: int| 0 <= k < s.filter_map(f).len() ==> p(#[trigger] s.filter_map(f)[k]),
    decreases s.len(),
{
    if s.len() > 0 {
        lemma_filter_map_all(s.drop_last(), f, p);
        let kept = s.filter_map(f);
        let before = s.drop_last().filter_map(f);
        assert forall|k: int| 0 <= k < kept.len() implies p(#[trigger] kept[k]) by {
            if k < before.len() {
                assert(kept[k] == before[k]);
            } else {
                assert(kept[k] == f(s.last()).unwrap());
            }
        }
    }
}

} // verus!
