//! Character-level helpers shared by the parsers and rule tables.

use vstd::prelude::*;

verus! {

/// `String::push`: appends one character at the end.
#[verifier::external_body]
pub(crate) fn push_char(s: &mut String, c: char)
    ensures
        final(s)@ == old(s)@.push(c),
{
    s.push(c)
}

/// What `str::to_lowercase` makes of a character sequence (Unicode default
/// lower-case mapping, independent of locale).
pub uninterp spec fn lowercased(s: Seq<char>) -> Seq<char>;

/// `str::to_lowercase`: the Unicode lower-case form of the slice.
/// The result is named by [`lowercased`]; the Unicode case tables are not
/// spelled out here.
#[verifier::external_body]
pub(crate) fn to_lowercase(s: &str) -> (r: String)
    ensures
        r@ == lowercased(s@),
{
    s.to_lowercase()
}

/// The characters of a string slice, in order.
pub fn chars_of(s: &str) -> (v: Vec<char>)
    ensures
        v@ == s@,
{
    let n = s.unicode_len();
    let mut v: Vec<char> = Vec::new();
    let mut i: usize = 0;
    while i < n
        invariant
            n == s@.len(),
            i <= n,
            v@ == s@.subrange(0, i as int),
        decreases n - i,
    {
        v.push(s.get_char(i));
        i = i + 1;
    }
    assert(v@ =~= s@);
    v
}

/// A string holding exactly the given characters.
pub fn string_of(v: &Vec<char>) -> (s: String)
    ensures
        s@ == v@,
{
    let mut s = String::new();
    let mut i: usize = 0;
    while i < v.len()
        invariant
            i <= v.len(),
            s@ == v@.subrange(0, i as int),
        decreases v.len() - i,
    {
        push_char(&mut s, v[i]);
        assert(v@.subrange(0, i as int).push(v@[i as int]) =~= v@.subrange(0, i + 1));
        i = i + 1;
    }
    assert(v@.subrange(0, v.len() as int) =~= v@);
    s
}

/// A fresh string with the characters of a slice.
pub fn owned(s: &str) -> (r: String)
    ensures
        r@ == s@,
{
    String::from_str(s)
}

/// ASCII lower-case of one character; every other character is unchanged.
pub open spec fn ascii_lower(c: char) -> char {
    if 'A' <= c && c <= 'Z' {
        ((c as u32) + 32) as char
    } else {
        c
    }
}

/// ASCII upper-case of one character; every other character is unchanged.
pub open spec fn ascii_upper(c: char) -> char {
    if 'a' <= c && c <= 'z' {
        ((c as u32) - 32) as char
    } else {
        c
    }
}

pub fn to_ascii_lower(c: char) -> (r: char)
    ensures
        r == ascii_lower(c),
{
    if 'A' <= c && c <= 'Z' {
        ((c as u8) + 32) as char
    } else {
        c
    }
}

pub fn to_ascii_upper(c: char) -> (r: char)
    ensures
        r == ascii_upper(c),
{
    if 'a' <= c && c <= 'z' {
        ((c as u8) - 32) as char
    } else {
        c
    }
}

/// ASCII lower-case of a whole sequence.
pub open spec fn ascii_lower_seq(s: Seq<char>) -> Seq<char> {
    s.map_values(|c: char| ascii_lower(c))
}

pub fn lower_ascii_chars(v: &Vec<char>) -> (r: Vec<char>)
    ensures
        r@ == ascii_lower_seq(v@),
{
    let mut r: Vec<char> = Vec::new();
    let mut i: usize = 0;
    while i < v.len()
        invariant
            i <= v.len(),
            r@ == ascii_lower_seq(v@.subrange(0, i as int)),
        decreases v.len() - i,
    {
        r.push(to_ascii_lower(v[i]));
        assert(ascii_lower_seq(v@.subrange(0, i + 1)) =~= ascii_lower_seq(
            v@.subrange(0, i as int),
        ).push(ascii_lower(v@[i as int])));
        i = i + 1;
    }
    assert(v@.subrange(0, v.len() as int) =~= v@);
    r
}

/// Whether two character vectors are equal.
pub fn chars_eq(a: &Vec<char>, b: &Vec<char>) -> (r: bool)
    ensures
        r == (a@ == b@),
{
    if a.len() != b.len() {
        return false;
    }
    let mut i: usize = 0;
    while i < a.len()
        invariant
            a.len() == b.len(),
            i <= a.len(),
            forall|j: int| 0 <= j < i ==> a@[j] == b@[j],
        decreases a.len() - i,
    {
        if a[i] != b[i] {
            return false;
        }
        i = i + 1;
    }
    assert(a@ =~= b@);
    true
}

/// Whether two string slices hold the same characters.
pub fn str_eq(a: &str, b: &str) -> (r: bool)
    ensures
        r == (a@ == b@),
{
    let av = chars_of(a);
    let bv = chars_of(b);
    chars_eq(&av, &bv)
}

/// Unicode `White_Space` (what `char::is_whitespace` and `str::trim` go by).
pub open spec fn is_white_space(c: char) -> bool {
    let v = c as u32;
    ||| 0x09 <= v <= 0x0D
    ||| v == 0x20
    ||| v == 0x85
    ||| v == 0xA0
    ||| v == 0x1680
    ||| 0x2000 <= v <= 0x200A
    ||| v == 0x2028
    ||| v == 0x2029
    ||| v == 0x202F
    ||| v == 0x205F
    ||| v == 0x3000
}

pub open spec fn trim_start(s: Seq<char>) -> Seq<char>
    decreases s.len(),
{
    if s.len() > 0 && is_white_space(s[0]) {
        trim_start(s.drop_first())
    } else {
        s
    }
}

pub open spec fn trim_end(s: Seq<char>) -> Seq<char>
    decreases s.len(),
{
    if s.len() > 0 && is_white_space(s.last()) {
        trim_end(s.drop_last())
    } else {
        s
    }
}

/// A character sequence without leading and trailing white space.
pub open spec fn trimmed(s: Seq<char>) -> Seq<char> {
    trim_end(trim_start(s))
}

fn white_space(c: char) -> (r: bool)
    ensures
        r == is_white_space(c),
{
    let v = c as u32;
    (0x09 <= v && v <= 0x0D) || v == 0x20 || v == 0x85 || v == 0xA0 || v == 0x1680 || (0x2000 <= v
        && v <= 0x200A) || v == 0x2028 || v == 0x2029 || v == 0x202F || v == 0x205F || v == 0x3000
}

/// The characters of `s` without leading and trailing white space (as
/// `str::trim`).
pub fn trim(s: &str) -> (r: String)
    ensures
        r@ == trimmed(s@),
{
    let c = chars_of(s);
    let n = c.len();
    let mut i: usize = 0;
    assert(s@.subrange(0, n as int) =~= s@);
    while i < n && white_space(c[i])
        invariant
            n == c@.len(),
            c@ == s@,
            i <= n,
            trim_start(s@) == trim_start(s@.subrange(i as int, n as int)),
        decreases n - i,
    {
        assert(s@.subrange(i as int, n as int).drop_first() =~= s@.subrange(i + 1, n as int));
        i = i + 1;
    }
    assert(trim_start(s@) == s@.subrange(i as int, n as int)) by {
        if i < n {
            assert(s@.subrange(i as int, n as int)[0] == s@[i as int]);
        }
    }
    let mut j: usize = n;
    while j > i && white_space(c[j - 1])
        invariant
            n == c@.len(),
            c@ == s@,
            i <= j <= n,
            trimmed(s@) == trim_end(s@.subrange(i as int, j as int)),
        decreases j - i,
    {
        assert(s@.subrange(i as int, j as int).drop_last() =~= s@.subrange(i as int, j - 1));
        assert(s@.subrange(i as int, j as int).last() == s@[j - 1]);
        j = j - 1;
    }
    assert(trimmed(s@) == s@.subrange(i as int, j as int)) by {
        if j > i {
            assert(s@.subrange(i as int, j as int).last() == s@[j - 1]);
        }
    }
    let sub = sub_chars(&c, i, j);
    string_of(&sub)
}

/// Whether a character vector spells the given literal-like slice.
pub fn chars_eq_str(a: &Vec<char>, b: &str) -> (r: bool)
    ensures
        r == (a@ == b@),
{
    let bv = chars_of(b);
    chars_eq(a, &bv)
}

/// The character of a decimal digit.
pub open spec fn digit_char(d: int) -> char {
    (48 + d) as char
}

/// Decimal text of a natural number (no leading zeros; `0` for zero).
pub open spec fn dec_text(n: nat) -> Seq<char>
    decreases n,
{
    if n < 10 {
        seq![digit_char(n as int)]
    } else {
        dec_text(n / 10).push(digit_char((n % 10) as int))
    }
}

/// Decimal text of a number (`u64`'s `Display`).
pub fn decimal_text(n: u64) -> (r: String)
    ensures
        r@ == dec_text(n as nat),
    decreases n,
{
    let d = ((n % 10) as u8 + 48) as char;
    if n < 10 {
        let mut s = String::new();
        push_char(&mut s, d);
        assert(s@ =~= dec_text(n as nat));
        s
    } else {
        let mut s = decimal_text(n / 10);
        push_char(&mut s, d);
        s
    }
}

/// Fraction digits of a rate: the three decimals of `f` (< 1000) without
/// trailing zeros (`500` → `5`, `250` → `25`, `5` → `005`).
pub open spec fn frac_text(f: int) -> Seq<char> {
    let d1 = digit_char(f / 100);
    let d2 = digit_char((f / 10) % 10);
    let d3 = digit_char(f % 10);
    if f % 10 != 0 {
        seq![d1, d2, d3]
    } else if (f / 10) % 10 != 0 {
        seq![d1, d2]
    } else {
        seq![d1]
    }
}

/// A rate in thousandths written as a decimal number the way `f64`'s
/// `Display` writes it: `5000` → `5`, `1250` → `1.25`, `250` → `0.25`.
pub open spec fn rate_text(r: nat) -> Seq<char> {
    if r % 1000 == 0 {
        dec_text(r / 1000)
    } else {
        dec_text(r / 1000) + "."@ + frac_text((r % 1000) as int)
    }
}

/// A rate in thousandths as JSON writes a float: always with a fraction
/// (`5000` → `5.0`, `1250` → `1.25`).
pub open spec fn float_text(r: nat) -> Seq<char> {
    if r % 1000 == 0 {
        dec_text(r / 1000) + ".0"@
    } else {
        rate_text(r)
    }
}

fn append_frac(s: &mut String, f: u32)
    requires
        0 < f < 1000,
    ensures
        final(s)@ == old(s)@ + frac_text(f as int),
{
    let d1 = ((f / 100) as u8 + 48) as char;
    let d2 = (((f / 10) % 10) as u8 + 48) as char;
    let d3 = ((f % 10) as u8 + 48) as char;
    push_char(s, d1);
    if f % 10 != 0 {
        push_char(s, d2);
        push_char(s, d3);
    } else if (f / 10) % 10 != 0 {
        push_char(s, d2);
    }
}

/// Decimal text of a rate (see [`rate_text`]).
pub fn rate_to_text(r: u32) -> (t: String)
    ensures
        t@ == rate_text(r as nat),
{
    let mut s = decimal_text((r / 1000) as u64);
    if r % 1000 != 0 {
        s.append(".");
        append_frac(&mut s, r % 1000);
    }
    s
}

/// JSON float text of a rate (see [`float_text`]).
pub fn rate_to_float_text(r: u32) -> (t: String)
    ensures
        t@ == float_text(r as nat),
{
    if r % 1000 == 0 {
        let mut s = decimal_text((r / 1000) as u64);
        s.append(".0");
        s
    } else {
        rate_to_text(r)
    }
}

/// Whether `pat` occurs in `s` at `i`.
pub open spec fn occurs_at(s: Seq<char>, pat: Seq<char>, i: int) -> bool {
    0 <= i && i + pat.len() <= s.len() && s.subrange(i, i + pat.len()) == pat
}

/// First position at or after `from` where `pat` occurs (`str::find`).
pub open spec fn find_from(s: Seq<char>, pat: Seq<char>, from: int) -> Option<int>
    decreases s.len() + 1 - from,
{
    if from < 0 || from + pat.len() > s.len() {
        None
    } else if occurs_at(s, pat, from) {
        Some(from)
    } else {
        find_from(s, pat, from + 1)
    }
}

fn occurs_at_exec(s: &Vec<char>, pat: &Vec<char>, i: usize) -> (r: bool)
    requires
        i + pat@.len() <= s@.len(),
    ensures
        r == occurs_at(s@, pat@, i as int),
{
    let n = s.len();
    let mut k: usize = 0;
    while k < pat.len()
        invariant
            n == s@.len(),
            i + pat@.len() <= s@.len(),
            k <= pat@.len(),
            forall|j: int| 0 <= j < k ==> s@[i + j] == pat@[j],
        decreases pat.len() - k,
    {
        if s[i + k] != pat[k] {
            assert(s@.subrange(i as int, i + pat@.len())[k as int] != pat@[k as int]);
            return false;
        }
        k = k + 1;
    }
    assert(s@.subrange(i as int, i + pat@.len()) =~= pat@);
    true
}

/// First position at or after `from` where `pat` occurs (see [`find_from`]).
pub fn find_chars(s: &Vec<char>, pat: &Vec<char>, from: usize) -> (r: Option<usize>)
    requires
        from <= s@.len(),
    ensures
        r matches Some(i) ==> find_from(s@, pat@, from as int) == Some(i as int) && from <= i && i
            + pat@.len() <= s@.len(),
        r is None ==> find_from(s@, pat@, from as int) is None,
{
    if pat.len() > s.len() {
        return None;
    }
    let last = s.len() - pat.len();
    if from > last {
        return None;
    }
    let mut i = from;
    loop
        invariant
            from <= i <= last,
            last + pat@.len() == s@.len(),
            find_from(s@, pat@, from as int) == find_from(s@, pat@, i as int),
        decreases last - i,
    {
        if occurs_at_exec(s, pat, i) {
            return Some(i);
        }
        if i == last {
            assert(find_from(s@, pat@, i + 1) is None);
            return None;
        }
        i = i + 1;
    }
}

/// A vector holding the characters of a range.
pub fn sub_chars(s: &Vec<char>, from: usize, to: usize) -> (r: Vec<char>)
    requires
        from <= to <= s@.len(),
    ensures
        r@ == s@.subrange(from as int, to as int),
{
    let mut r: Vec<char> = Vec::new();
    let mut i = from;
    while i < to
        invariant
            from <= i <= to <= s@.len(),
            r@ == s@.subrange(from as int, i as int),
        decreases to - i,
    {
        r.push(s[i]);
        assert(s@.subrange(from as int, i + 1) =~= s@.subrange(from as int, i as int).push(s@[i as int]));
        i = i + 1;
    }
    r
}

} // verus!
