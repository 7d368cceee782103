use vstd::prelude::*;
use vstd::string::StringSliceAdditionalSpecFns;

verus! {

/// The ASCII lowercase form of a character; other characters are unchanged.
pub open spec fn lower(c: char) -> char {
    if 'A' <= c && c <= 'Z' {
        ((c as u32) + 32) as char
    } else {
        c
    }
}

/// The ASCII lowercase form of every character of `s`.
pub open spec fn lower_seq(s: Seq<char>) -> Seq<char> {
    s.map_values(|c: char| lower(c))
}

/// Unicode `White_Space`, the set that `char::is_whitespace` and `str::trim` use.
pub open spec fn is_space(c: char) -> bool {
    ||| ('\u{9}' <= c && c <= '\u{d}')
    ||| c == ' '
    ||| c == '\u{85}'
    ||| c == '\u{a0}'
    ||| c == '\u{1680}'
    ||| ('\u{2000}' <= c && c <= '\u{200a}')
    ||| c == '\u{2028}'
    ||| c == '\u{2029}'
    ||| c == '\u{202f}'
    ||| c == '\u{205f}'
    ||| c == '\u{3000}'
}

/// `s` without its leading white space.
pub open spec fn trim_start(s: Seq<char>) -> Seq<char>
    decreases s.len(),
{
    if s.len() > 0 && is_space(s[0]) {
        trim_start(s.drop_first())
    } else {
        s
    }
}

/// `s` without its trailing white space.
pub open spec fn trim_end(s: Seq<char>) -> Seq<char>
    decreases s.len(),
{
    if s.len() > 0 && is_space(s.last()) {
        trim_end(s.drop_last())
    } else {
        s
    }
}

/// `s` without leading and trailing white space, as `str::trim` gives it.
pub open spec fn trim(s: Seq<char>) -> Seq<char> {
    trim_end(trim_start(s))
}

/// Whether `s` equals `pattern` when ASCII letters are compared without case.
pub open spec fn eq_ignore_case(s: Seq<char>, pattern: Seq<char>) -> bool {
    lower_seq(s) == lower_seq(pattern)
}

pub fn is_space_char(c: char) -> (r: bool)
    ensures
        r == is_space(c),
{
    ('\u{9}' <= c && c <= '\u{d}') || c == ' ' || c == '\u{85}' || c == '\u{a0}' || c
        == '\u{1680}' || ('\u{2000}' <= c && c <= '\u{200a}') || c == '\u{2028}' || c
        == '\u{2029}' || c == '\u{202f}' || c == '\u{205f}' || c == '\u{3000}'
}

pub fn lower_char(c: char) -> (r: char)
    ensures
        r == lower(c),
{
    if 'A' <= c && c <= 'Z' {
        let b: u8 = c as u8;
        (b + 32) as char
    } else {
        c
    }
}

/// The characters of `s`.
pub fn chars_of(s: &str) -> (v: Vec<char>)
    ensures
        v@ == s@,
{
    let mut v: Vec<char> = Vec::new();
    for c in it: s.chars()
        invariant
            v@ == it.seq().take(it.index() as int),
    {
        v.push(c);
    }
    v
}

/// The bounds of `text[lo..hi]` once white space is trimmed from both ends.
pub fn trim_range(text: &Vec<char>, lo: usize, hi: usize) -> (r: (usize, usize))
    requires
        lo <= hi <= text@.len(),
    ensures
        lo <= r.0 <= r.1 <= hi,
        text@.subrange(r.0 as int, r.1 as int) == trim(text@.subrange(lo as int, hi as int)),
{
    let mut start = lo;
    while start < hi && is_space_char(text[start])
        invariant
            lo <= start <= hi <= text@.len(),
            trim_start(text@.subrange(lo as int, hi as int)) == trim_start(
                text@.subrange(start as int, hi as int),
            ),
        decreases hi - start,
    {
        assert(text@.subrange(start as int, hi as int).drop_first() =~= text@.subrange(
            start + 1,
            hi as int,
        ));
        start = start + 1;
    }
    let mut end = hi;
    while end > start && is_space_char(text[end - 1])
        invariant
            lo <= start <= end <= hi <= text@.len(),
            trim_end(text@.subrange(start as int, hi as int)) == trim_end(
                text@.subrange(start as int, end as int),
            ),
        decreases end - start,
    {
        assert(text@.subrange(start as int, end as int).drop_last() =~= text@.subrange(
            start as int,
            end - 1,
        ));
        end = end - 1;
    }
    (start, end)
}

/// Whether `text[lo..hi]` equals `pattern` when ASCII letters are compared
/// without case.
pub fn range_eq_ignore_case(text: &Vec<char>, lo: usize, hi: usize, pattern: &[char]) -> (r: bool)
    requires
        lo <= hi <= text@.len(),
    ensures
        r == eq_ignore_case(text@.subrange(lo as int, hi as int), pattern@),
{
    let ghost s = text@.subrange(lo as int, hi as int);
    if hi - lo != pattern.len() {
        assert(lower_seq(s).len() != lower_seq(pattern@).len());
        return false;
    }
    let mut i: usize = 0;
    while i < pattern.len()
        invariant
            hi - lo == pattern@.len(),
            lo <= hi <= text@.len(),
            s == text@.subrange(lo as int, hi as int),
            i <= pattern@.len(),
            forall|j: int| 0 <= j < i ==> lower(#[trigger] s[j]) == lower(pattern@[j]),
        decreases pattern@.len() - i,
    {
        if lower_char(text[lo + i]) != lower_char(pattern[i]) {
            assert(lower_seq(s)[i as int] != lower_seq(pattern@)[i as int]);
            return false;
        }
        i = i + 1;
    }
    assert(lower_seq(s) =~= lower_seq(pattern@));
    true
}

} // verus!

verus! {

/// Whether `c` is an ASCII hexadecimal digit.
pub open spec fn is_hex_digit(c: char) -> bool {
    ('0' <= c && c <= '9') || ('a' <= c && c <= 'f') || ('A' <= c && c <= 'F')
}

/// The value of an ASCII hexadecimal digit.
pub open spec fn hex_value(c: char) -> nat {
    if '0' <= c && c <= '9' {
        (c as nat - '0' as nat) as nat
    } else if 'a' <= c && c <= 'f' {
        (c as nat - 'a' as nat + 10) as nat
    } else {
        (c as nat - 'A' as nat + 10) as nat
    }
}

/// The uppercase hexadecimal digit for `n`, which is below 16.
pub open spec fn hex_upper(n: nat) -> char {
    if n < 10 {
        ('0' as nat + n) as char
    } else {
        ('A' as nat + n - 10) as char
    }
}

/// Two uppercase hexadecimal digits for a byte, high nibble first.
pub open spec fn hex2(b: u8) -> Seq<char> {
    seq![hex_upper(b as nat / 16), hex_upper(b as nat % 16)]
}

/// An upper-case hex digit of a value below 16 reads back as that value.
pub proof fn lemma_hex_upper(n: nat)
    requires
        n < 16,
    ensures
        is_hex_digit(hex_upper(n)),
        hex_value(hex_upper(n)) == n,
        !is_space(hex_upper(n)),
{
}

/// The two hex digits of a byte read back as the byte.
pub proof fn lemma_hex2(b: u8)
    ensures
        is_hex_digit(hex2(b)[0]),
        is_hex_digit(hex2(b)[1]),
        hex_value(hex2(b)[0]) * 16 + hex_value(hex2(b)[1]) == b as nat,
        !is_space(hex2(b)[0]),
        !is_space(hex2(b)[1]),
{
    lemma_hex_upper(b as nat / 16);
    lemma_hex_upper(b as nat % 16);
}

pub fn is_hex_digit_char(c: char) -> (r: bool)
    ensures
        r == is_hex_digit(c),
{
    ('0' <= c && c <= '9') || ('a' <= c && c <= 'f') || ('A' <= c && c <= 'F')
}

pub fn hex_digit_value(c: char) -> (r: u8)
    requires
        is_hex_digit(c),
    ensures
        r as nat == hex_value(c),
        r < 16,
{
    let b: u8 = c as u8;
    if '0' <= c && c <= '9' {
        b - 48
    } else if 'a' <= c && c <= 'f' {
        b - 87
    } else {
        b - 55
    }
}

pub fn hex_upper_char(n: u8) -> (c: char)
    requires
        n < 16,
    ensures
        c == hex_upper(n as nat),
{
    if n < 10 {
        (48 + n) as char
    } else {
        (55 + n) as char
    }
}

/// `String::push`: appends one character.
#[verifier::external_body]
pub(crate) fn string_push(s: &mut String, c: char)
    ensures
        final(s)@ == old(s)@.push(c),
{
    s.push(c);
}

/// A string holding the characters of `chars`.
pub fn string_from_chars(chars: &Vec<char>) -> (s: String)
    ensures
        s@ == chars@,
{
    let mut s = String::new();
    let mut i: usize = 0;
    while i < chars.len()
        invariant
            i <= chars@.len(),
            s@ == chars@.take(i as int),
        decreases chars@.len() - i,
    {
        string_push(&mut s, chars[i]);
        assert(chars@.take(i + 1) =~= chars@.take(i as int).push(chars@[i as int]));
        i = i + 1;
    }
    assert(chars@.take(chars@.len() as int) =~= chars@);
    s
}

} // verus!

verus! {

/// Trimming leaves a sequence alone whose ends are not white space.
pub proof fn lemma_trim_no_space(s: Seq<char>)
    requires
        s.len() > 0 ==> !is_space(s[0]) && !is_space(s.last()),
    ensures
        trim(s) == s,
{
}

} // verus!

verus! {

/// The index of the first `c` in `s` at or after `i`, or `s.len()` if none.
pub open spec fn find_char(s: Seq<char>, c: char, i: int) -> int
    decreases s.len() - i,
{
    if i < 0 || i >= s.len() {
        s.len() as int
    } else if s[i] == c {
        i
    } else {
        find_char(s, c, i + 1)
    }
}

/// `find_char` gives a position at or after the start, holding `c` when
/// inside the sequence, with no `c` before it.
pub proof fn lemma_find_char_bounds(s: Seq<char>, c: char, i: int)
    requires
        0 <= i <= s.len(),
    ensures
        i <= find_char(s, c, i) <= s.len(),
        find_char(s, c, i) < s.len() ==> s[find_char(s, c, i)] == c,
        forall|j: int| i <= j < find_char(s, c, i) ==> s[j] != c,
    decreases s.len() - i,
{
    if i < s.len() && s[i] != c {
        lemma_find_char_bounds(s, c, i + 1);
    }
}

/// `find_char` gives the first position of `c` when every earlier position differs.
pub proof fn lemma_find_char_at(s: Seq<char>, c: char, i: int, e: int)
    requires
        0 <= i <= e <= s.len(),
        forall|j: int| i <= j < e ==> s[j] != c,
        e < s.len() ==> s[e] == c,
    ensures
        find_char(s, c, i) == e,
    decreases e - i,
{
    if i < e {
        lemma_find_char_at(s, c, i + 1, e);
    }
}

/// The first index of `c` in `v` at or after `from`.
pub fn find_char_from(v: &Vec<char>, c: char, from: usize) -> (r: usize)
    requires
        from <= v@.len(),
    ensures
        r as int == find_char(v@, c, from as int),
        from <= r <= v@.len(),
{
    let mut i = from;
    while i < v.len() && v[i] != c
        invariant
            from <= i <= v@.len(),
            find_char(v@, c, from as int) == find_char(v@, c, i as int),
        decreases v@.len() - i,
    {
        i = i + 1;
    }
    i
}

/// A copy of `v[lo..hi]`.
pub fn copy_range(v: &Vec<char>, lo: usize, hi: usize) -> (r: Vec<char>)
    requires
        lo <= hi <= v@.len(),
    ensures
        r@ == v@.subrange(lo as int, hi as int),
{
    let mut r: Vec<char> = Vec::new();
    let mut i = lo;
    while i < hi
        invariant
            lo <= i <= hi <= v@.len(),
            r@ == v@.subrange(lo as int, i as int),
        decreases hi - i,
    {
        r.push(v[i]);
        assert(v@.subrange(lo as int, i + 1) =~= v@.subrange(lo as int, i as int).push(
            v@[i as int],
        ));
        i = i + 1;
    }
    r
}

/// Appends every character of `chars`.
pub fn push_chars(s: &mut String, chars: &[char])
    ensures
        final(s)@ == old(s)@ + chars@,
{
    let mut i: usize = 0;
    while i < chars.len()
        invariant
            i <= chars@.len(),
            s@ == old(s)@ + chars@.take(i as int),
        decreases chars@.len() - i,
    {
        string_push(s, chars[i]);
        assert(chars@.take(i + 1) =~= chars@.take(i as int).push(chars@[i as int]));
        assert(old(s)@ + chars@.take(i + 1) =~= (old(s)@ + chars@.take(i as int)).push(
            chars@[i as int],
        ));
        i = i + 1;
    }
    assert(chars@.take(chars@.len() as int) =~= chars@);
}

} // verus!

verus! {

pub open spec fn is_digit(c: char) -> bool {
    '0' <= c && c <= '9'
}

/// The value of a sequence of decimal digits, most significant first.
pub open spec fn digits_value(d: Seq<char>) -> int
    decreases d.len(),
{
    if d.len() == 0 {
        0
    } else {
        digits_value(d.drop_last()) * 10 + (d.last() as int - '0' as int)
    }
}

/// Whether `s` starts with a `+` or `-` sign.
pub open spec fn has_sign(s: Seq<char>) -> bool {
    s.len() > 0 && (s[0] == '+' || s[0] == '-')
}

/// `s` without its leading sign, if it has one.
pub open spec fn unsigned_part(s: Seq<char>) -> Seq<char> {
    if has_sign(s) {
        s.drop_first()
    } else {
        s
    }
}

/// Whether every character of `d` is a decimal digit.
pub open spec fn all_digits(d: Seq<char>) -> bool {
    forall|i: int| 0 <= i < d.len() ==> is_digit(#[trigger] d[i])
}

/// What `str::parse::<i32>` gives: an optional `+` or `-`, then one or more
/// decimal digits whose value fits in `i32`.
pub open spec fn parse_i32_spec(s: Seq<char>) -> Option<i32> {
    let d = unsigned_part(s);
    if d.len() > 0 && all_digits(d) {
        let v = if s.len() > 0 && s[0] == '-' {
            -digits_value(d)
        } else {
            digits_value(d)
        };
        if i32::MIN <= v && v <= i32::MAX {
            Some(v as i32)
        } else {
            None
        }
    } else {
        None
    }
}

/// A run of decimal digits has a non-negative value.
pub proof fn lemma_digits_value_nonneg(d: Seq<char>)
    requires
        forall|i: int| 0 <= i < d.len() ==> is_digit(#[trigger] d[i]),
    ensures
        digits_value(d) >= 0,
    decreases d.len(),
{
    if d.len() > 0 {
        lemma_digits_value_nonneg(d.drop_last());
    }
}

/// Reads `v[lo..hi]` as `str::parse::<i32>` does.
pub fn parse_i32_range(v: &Vec<char>, lo: usize, hi: usize) -> (r: Option<i32>)
    requires
        lo <= hi <= v@.len(),
    ensures
        r == parse_i32_spec(v@.subrange(lo as int, hi as int)),
{
    let ghost s = v@.subrange(lo as int, hi as int);
    let mut i = lo;
    let mut negative = false;
    if i < hi && (v[i] == '+' || v[i] == '-') {
        negative = v[i] == '-';
        i = i + 1;
    }
    let start = i;
    let ghost d = v@.subrange(start as int, hi as int);
    assert(d =~= unsigned_part(s));
    if start == hi {
        return None;
    }
    let mut acc: u64 = 0;
    let mut big = false;
    while i < hi
        invariant
            lo <= start <= i <= hi <= v@.len(),
            d == v@.subrange(start as int, hi as int),
            s == v@.subrange(lo as int, hi as int),
            d == unsigned_part(s),
            negative == (s.len() > 0 && s[0] == '-'),
            forall|j: int| start <= j < i ==> is_digit(#[trigger] v@[j]),
            !big ==> acc == digits_value(v@.subrange(start as int, i as int)) && acc <= 2147483648,
            big ==> digits_value(v@.subrange(start as int, i as int)) > 2147483648,
        decreases hi - i,
    {
        let c = v[i];
        if !('0' <= c && c <= '9') {
            assert(d[i - start] == v@[i as int]);
            assert(!is_digit(d[i - start]));
            return None;
        }
        let digit: u8 = (c as u8) - 48;
        assert(v@.subrange(start as int, i + 1).drop_last() =~= v@.subrange(
            start as int,
            i as int,
        ));
        proof {
            lemma_digits_value_nonneg(v@.subrange(start as int, i as int));
        }
        if !big {
            let next = acc * 10 + digit as u64;
            if next > 2147483648 {
                big = true;
            } else {
                acc = next;
            }
        }
        i = i + 1;
    }
    assert(v@.subrange(start as int, hi as int) == d);
    assert forall|j: int| 0 <= j < d.len() implies is_digit(#[trigger] d[j]) by {
        assert(d[j] == v@[start + j]);
    }
    if big {
        return None;
    }
    if negative {
        let value: i64 = -(acc as i64);
        Some(value as i32)
    } else if acc <= 2147483647 {
        Some(acc as i32)
    } else {
        None
    }
}

} // verus!

verus! {

pub open spec fn is_high_surrogate(u: u16) -> bool {
    0xD800 <= u && u <= 0xDBFF
}

pub open spec fn is_low_surrogate(u: u16) -> bool {
    0xDC00 <= u && u <= 0xDFFF
}

/// The scalar value written by a UTF-16 surrogate pair.
pub open spec fn surrogate_pair_value(high: u16, low: u16) -> u32 {
    (0x10000 + (high - 0xD800) * 1024 + (low - 0xDC00)) as u32
}

/// UTF-16 decoding in which every unpaired surrogate becomes U+FFFD, as
/// `String::from_utf16_lossy` and `char::decode_utf16` with replacement give it.
pub open spec fn decode_utf16_lossy(u: Seq<u16>) -> Seq<char>
    decreases u.len(),
{
    if u.len() == 0 {
        seq![]
    } else if u.len() >= 2 && is_high_surrogate(u[0]) && is_low_surrogate(u[1]) {
        seq![surrogate_pair_value(u[0], u[1]) as char] + decode_utf16_lossy(
            u.subrange(2, u.len() as int),
        )
    } else if is_high_surrogate(u[0]) || is_low_surrogate(u[0]) {
        seq!['\u{FFFD}'] + decode_utf16_lossy(u.drop_first())
    } else {
        seq![(u[0] as u32) as char] + decode_utf16_lossy(u.drop_first())
    }
}

/// `char::from_u32`: the character whose scalar value is `v`, when `v` is a
/// Unicode scalar value (below 0xD800, or from 0xE000 through 0x10FFFF).
#[verifier::external_body]
pub(crate) fn char_from_u32(v: u32) -> (r: Option<char>)
    ensures
        r is Some <==> (v < 0xD800 || (0xE000 <= v && v <= 0x10FFFF)),
        r matches Some(c) ==> c as u32 == v,
{
    char::from_u32(v)
}

fn scalar_char(v: u32) -> (c: char)
    requires
        v < 0xD800 || (0xE000 <= v && v <= 0x10FFFF),
    ensures
        c == v as char,
{
    let c = char_from_u32(v).unwrap();
    proof {
        vstd::utf8::char_u32_cast(c, v);
    }
    c
}

/// The characters of UTF-16 `units`, unpaired surrogates replaced by U+FFFD.
pub fn decode_utf16_lossy_chars(units: &[u16]) -> (r: Vec<char>)
    ensures
        r@ == decode_utf16_lossy(units@),
{
    let n = units.len();
    let mut out: Vec<char> = Vec::new();
    let mut i: usize = 0;
    assert(units@.subrange(0, n as int) =~= units@);
    while i < n
        invariant
            n == units@.len(),
            i <= n,
            decode_utf16_lossy(units@) == out@ + decode_utf16_lossy(
                units@.subrange(i as int, n as int),
            ),
        decreases n - i,
    {
        let ghost rest = units@.subrange(i as int, n as int);
        let u = units[i];
        if i + 1 < n && 0xD800 <= u && u <= 0xDBFF && 0xDC00 <= units[i + 1] && units[i + 1]
            <= 0xDFFF {
            let low = units[i + 1];
            let v: u32 = 0x10000 + ((u as u32) - 0xD800) * 1024 + ((low as u32) - 0xDC00);
            assert(rest.subrange(2, rest.len() as int) =~= units@.subrange(i + 2, n as int));
            out.push(scalar_char(v));
            i = i + 2;
        } else if 0xD800 <= u && u <= 0xDFFF {
            assert(rest.drop_first() =~= units@.subrange(i + 1, n as int));
            out.push('\u{FFFD}');
            i = i + 1;
        } else {
            assert(rest.drop_first() =~= units@.subrange(i + 1, n as int));
            out.push(scalar_char(u as u32));
            i = i + 1;
        }
        assert(decode_utf16_lossy(units@) == out@ + decode_utf16_lossy(
            units@.subrange(i as int, n as int),
        ));
    }
    assert(out@ + decode_utf16_lossy(units@.subrange(n as int, n as int)) =~= out@);
    out
}

} // verus!

verus! {

/// Lowering ASCII case twice is the same as lowering it once.
pub proof fn lemma_lower_lower(s: Seq<char>)
    ensures
        lower_seq(lower_seq(s)) == lower_seq(s),
{
    assert(lower_seq(lower_seq(s)) =~= lower_seq(s));
}

/// `s` without its leading U+FEFF characters, as `trim_start_matches('\u{feff}')` gives it.
pub open spec fn strip_bom(s: Seq<char>) -> Seq<char>
    decreases s.len(),
{
    if s.len() > 0 && s[0] == '\u{feff}' {
        strip_bom(s.drop_first())
    } else {
        s
    }
}

} // verus!

verus! {

/// The text that `String::from_utf8_lossy` gives for `bytes`.
pub uninterp spec fn utf8_lossy(bytes: Seq<u8>) -> Seq<char>;

/// `String::from_utf8_lossy`: the text of `bytes` read as UTF-8, each invalid
/// sequence replaced by U+FFFD. The contract names the result and states that
/// valid UTF-8 is decoded exactly; how invalid sequences are replaced is left
/// unsaid.
#[verifier::external_body]
pub(crate) fn string_from_utf8_lossy(bytes: &[u8]) -> (s: String)
    ensures
        s@ == utf8_lossy(bytes@),
        vstd::utf8::valid_utf8(bytes@) ==> s@ == vstd::utf8::decode_utf8(bytes@),
{
    String::from_utf8_lossy(bytes).into_owned()
}

/// The UTF-16 code units of `bytes`, two bytes each, little-endian; an odd
/// last byte is ignored.
pub open spec fn le_units(bytes: Seq<u8>) -> Seq<u16> {
    Seq::new(bytes.len() / 2, |k: int| (bytes[2 * k] as int + 256 * bytes[2 * k + 1] as int) as u16)
}

/// The UTF-16 code units of `bytes`, two bytes each, big-endian; an odd last
/// byte is ignored.
pub open spec fn be_units(bytes: Seq<u8>) -> Seq<u16> {
    Seq::new(bytes.len() / 2, |k: int| (256 * bytes[2 * k] as int + bytes[2 * k + 1] as int) as u16)
}

/// The text of a settings file: UTF-16 after a little- or big-endian byte
/// order mark, UTF-8 otherwise; undecodable input becomes U+FFFD.
pub open spec fn decode_ini_spec(bytes: Seq<u8>) -> Seq<char> {
    if bytes.len() >= 2 && bytes[0] == 0xff && bytes[1] == 0xfe {
        decode_utf16_lossy(le_units(bytes.subrange(2, bytes.len() as int)))
    } else if bytes.len() >= 2 && bytes[0] == 0xfe && bytes[1] == 0xff {
        decode_utf16_lossy(be_units(bytes.subrange(2, bytes.len() as int)))
    } else {
        utf8_lossy(bytes)
    }
}

fn utf16_units(bytes: &[u8], little_endian: bool) -> (units: Vec<u16>)
    requires
        bytes@.len() >= 2,
    ensures
        little_endian ==> units@ == le_units(bytes@.subrange(2, bytes@.len() as int)),
        !little_endian ==> units@ == be_units(bytes@.subrange(2, bytes@.len() as int)),
{
    let ghost body = bytes@.subrange(2, bytes@.len() as int);
    let count = (bytes.len() - 2) / 2;
    let mut units: Vec<u16> = Vec::new();
    let mut k: usize = 0;
    while k < count
        invariant
            count == (bytes.len() - 2) / 2,
            bytes.len() >= 2,
            body == bytes@.subrange(2, bytes@.len() as int),
            k <= count,
            units@.len() == k,
            little_endian ==> forall|j: int|
                0 <= j < k ==> #[trigger] units@[j] == le_units(body)[j],
            !little_endian ==> forall|j: int|
                0 <= j < k ==> #[trigger] units@[j] == be_units(body)[j],
        decreases count - k,
    {
        let first = bytes[2 + 2 * k] as u16;
        let second = bytes[3 + 2 * k] as u16;
        assert(body[2 * k as int] == bytes@[2 + 2 * k]);
        assert(body[2 * k + 1] == bytes@[3 + 2 * k]);
        let unit = if little_endian {
            first + 256 * second
        } else {
            256 * first + second
        };
        units.push(unit);
        k = k + 1;
    }
    if little_endian {
        assert(units@ =~= le_units(body));
    } else {
        assert(units@ =~= be_units(body));
    }
    units
}

/// Valid UTF-8 never starts with a UTF-16 byte order mark: 0xfe and 0xff
/// are never leading bytes.
proof fn lemma_valid_utf8_has_no_bom(bytes: Seq<u8>)
    ensures
        vstd::utf8::valid_utf8(bytes) ==> !has_utf16_bom(bytes),
{
    if vstd::utf8::valid_utf8(bytes) && bytes.len() >= 2 {
        assert(vstd::utf8::valid_first_scalar(bytes));
        assert(bytes[0] <= 0xf7);
    }
}

/// The UTF-16 code units of one character: one unit below 0x10000, else a
/// surrogate pair.
pub open spec fn encode_utf16_char(c: char) -> Seq<u16> {
    let v = c as u32;
    if v < 0x10000 {
        seq![v as u16]
    } else {
        seq![(0xD800 + (v - 0x10000) / 1024) as u16, (0xDC00 + (v - 0x10000) % 1024) as u16]
    }
}

/// The UTF-16 encoding of `chars`, as `str::encode_utf16` gives it.
pub open spec fn encode_utf16(chars: Seq<char>) -> Seq<u16>
    decreases chars.len(),
{
    if chars.len() == 0 {
        seq![]
    } else {
        encode_utf16_char(chars[0]) + encode_utf16(chars.drop_first())
    }
}

/// The bytes of UTF-16 `units`, each as `u16::to_le_bytes` gives it.
pub open spec fn le_bytes(units: Seq<u16>) -> Seq<u8> {
    Seq::new(
        2 * units.len(),
        |k: int|
            if k % 2 == 0 {
                (units[k / 2] % 256) as u8
            } else {
                (units[k / 2] / 256) as u8
            },
    )
}

/// The bytes of UTF-16 `units`, each as `u16::to_be_bytes` gives it.
pub open spec fn be_bytes(units: Seq<u16>) -> Seq<u8> {
    Seq::new(
        2 * units.len(),
        |k: int|
            if k % 2 == 0 {
                (units[k / 2] / 256) as u8
            } else {
                (units[k / 2] % 256) as u8
            },
    )
}

proof fn lemma_units_of_bytes(units: Seq<u16>)
    ensures
        le_units(le_bytes(units)) == units,
        be_units(be_bytes(units)) == units,
{
    let lb = le_bytes(units);
    let bb = be_bytes(units);
    assert forall|k: int| 0 <= k < units.len() implies le_units(lb)[k] == units[k] && be_units(
        bb,
    )[k] == units[k] by {
        assert((2 * k) % 2 == 0 && (2 * k) / 2 == k);
        assert((2 * k + 1) % 2 == 1 && (2 * k + 1) / 2 == k);
        assert(lb[2 * k] == units[k] % 256 && lb[2 * k + 1] == units[k] / 256);
        assert(bb[2 * k] == units[k] / 256 && bb[2 * k + 1] == units[k] % 256);
    }
    assert(le_units(lb) =~= units);
    assert(be_units(bb) =~= units);
}

/// Decoding the UTF-16 encoding of a text gives the text back.
pub proof fn lemma_decode_encode_utf16(s: Seq<char>)
    ensures
        decode_utf16_lossy(encode_utf16(s)) == s,
    decreases s.len(),
{
    if s.len() > 0 {
        let c = s[0];
        let v = c as u32;
        let rest = s.drop_first();
        let u = encode_utf16(s);
        lemma_decode_encode_utf16(rest);
        vstd::utf8::char_is_scalar(c);
        if v < 0x10000 {
            assert(u[0] == v as u16);
            assert(u.drop_first() =~= encode_utf16(rest));
            vstd::utf8::char_u32_cast(c, u[0] as u32);
        } else {
            let w = v - 0x10000;
            assert(u[0] == (0xD800 + w / 1024) as u16);
            assert(u[1] == (0xDC00 + w % 1024) as u16);
            assert(w == (w / 1024) * 1024 + w % 1024);
            assert(surrogate_pair_value(u[0], u[1]) == v);
            assert(u.subrange(2, u.len() as int) =~= encode_utf16(rest));
            vstd::utf8::char_u32_cast(c, v);
        }
        assert(seq![c] + rest =~= s);
    }
}

/// A settings file reads back as the text written into it: as UTF-16 after
/// a little-endian or a big-endian byte order mark, and as UTF-8 (which
/// never starts with such a mark), whose decoding `decode_ini_text` gives
/// for valid UTF-8.
pub proof fn lemma_settings_text_round_trip(s: Seq<char>)
    ensures
        decode_ini_spec(seq![0xffu8, 0xfeu8] + le_bytes(encode_utf16(s))) == s,
        decode_ini_spec(seq![0xfeu8, 0xffu8] + be_bytes(encode_utf16(s))) == s,
        vstd::utf8::valid_utf8(vstd::utf8::encode_utf8(s)),
        !has_utf16_bom(vstd::utf8::encode_utf8(s)),
        vstd::utf8::decode_utf8(vstd::utf8::encode_utf8(s)) == s,
{
    let units = encode_utf16(s);
    lemma_units_of_bytes(units);
    lemma_decode_encode_utf16(s);
    let le = seq![0xffu8, 0xfeu8] + le_bytes(units);
    let be = seq![0xfeu8, 0xffu8] + be_bytes(units);
    assert(le.subrange(2, le.len() as int) =~= le_bytes(units));
    assert(be.subrange(2, be.len() as int) =~= be_bytes(units));
    vstd::utf8::encode_utf8_valid_utf8(s);
    vstd::utf8::encode_utf8_decode_utf8(s);
    lemma_valid_utf8_has_no_bom(vstd::utf8::encode_utf8(s));
}

/// Whether `bytes` start with a UTF-16 byte order mark, little- or big-endian.
pub open spec fn has_utf16_bom(bytes: Seq<u8>) -> bool {
    bytes.len() >= 2 && ((bytes[0] == 0xff && bytes[1] == 0xfe) || (bytes[0] == 0xfe && bytes[1]
        == 0xff))
}

/// The text of a settings file: UTF-16 after a little- or big-endian byte
/// order mark, UTF-8 otherwise; undecodable input becomes U+FFFD.
pub fn decode_ini_text(bytes: &[u8]) -> (text: String)
    ensures
        text@ == decode_ini_spec(bytes@),
        vstd::utf8::valid_utf8(bytes@) ==> text@ == vstd::utf8::decode_utf8(bytes@),
{
    proof {
        lemma_valid_utf8_has_no_bom(bytes@);
    }
    if bytes.len() >= 2 && bytes[0] == 0xff && bytes[1] == 0xfe {
        let units = utf16_units(bytes, true);
        let chars = decode_utf16_lossy_chars(units.as_slice());
        return string_from_chars(&chars);
    }
    if bytes.len() >= 2 && bytes[0] == 0xfe && bytes[1] == 0xff {
        let units = utf16_units(bytes, false);
        let chars = decode_utf16_lossy_chars(units.as_slice());
        return string_from_chars(&chars);
    }
    string_from_utf8_lossy(bytes)
}

} // verus!

verus! {

/// Whether `v` equals `pattern` exactly.
pub fn chars_equal(v: &Vec<char>, pattern: &[char]) -> (r: bool)
    ensures
        r == (v@ == pattern@),
{
    if v.len() != pattern.len() {
        return false;
    }
    let mut i: usize = 0;
    while i < v.len()
        invariant
            v@.len() == pattern@.len(),
            i <= v@.len(),
            forall|j: int| 0 <= j < i ==> v@[j] == pattern@[j],
        decreases v@.len() - i,
    {
        if v[i] != pattern[i] {
            return false;
        }
        i = i + 1;
    }
    assert(v@ =~= pattern@);
    true
}

/// The characters of `v` with ASCII letters lowered.
pub fn lower_chars(v: &Vec<char>) -> (r: Vec<char>)
    ensures
        r@ == lower_seq(v@),
{
    let mut r: Vec<char> = Vec::new();
    let mut i: usize = 0;
    while i < v.len()
        invariant
            i <= v@.len(),
            r@ == lower_seq(v@.take(i as int)),
        decreases v@.len() - i,
    {
        r.push(lower_char(v[i]));
        assert(lower_seq(v@.take(i + 1)) =~= lower_seq(v@.take(i as int)).push(lower(v@[i as int])));
        i = i + 1;
    }
    assert(v@.take(v@.len() as int) =~= v@);
    r
}

/// Whether `s` starts with `pattern` when ASCII letters are compared without
/// case.
pub open spec fn starts_with_ignore_case(s: Seq<char>, pattern: Seq<char>) -> bool {
    s.len() >= pattern.len() && eq_ignore_case(s.take(pattern.len() as int), pattern)
}

/// Whether `s` starts with `pattern` when ASCII letters are compared without
/// case.
pub fn str_starts_with_ignore_case(s: &str, pattern: &[char]) -> (r: bool)
    ensures
        r == starts_with_ignore_case(s@, pattern@),
{
    let chars = chars_of(s);
    if chars.len() < pattern.len() {
        return false;
    }
    assert(chars@.subrange(0, pattern@.len() as int) == chars@.take(pattern@.len() as int));
    range_eq_ignore_case(&chars, 0, pattern.len(), pattern)
}

/// Whether `s` equals `pattern` when ASCII letters are compared without case.
pub fn str_eq_ignore_case(s: &str, pattern: &[char]) -> (r: bool)
    ensures
        r == eq_ignore_case(s@, pattern@),
{
    let chars = chars_of(s);
    assert(chars@.subrange(0, chars@.len() as int) =~= chars@);
    range_eq_ignore_case(&chars, 0, chars.len(), pattern)
}


} // verus!

verus! {

/// The index of the first `unit` in `units` at or after `i`, or the length.
pub open spec fn find_unit(units: Seq<u16>, unit: u16, i: int) -> int
    decreases units.len() - i,
{
    if i < 0 || i >= units.len() {
        units.len() as int
    } else if units[i] == unit {
        i
    } else {
        find_unit(units, unit, i + 1)
    }
}

/// The units of `units` before its first NUL, or all of them.
pub fn units_until_nul(units: &[u16; 260]) -> (r: Vec<u16>)
    ensures
        r@ == units@.take(find_unit(units@, 0, 0)),
{
    let mut r: Vec<u16> = Vec::new();
    let mut i: usize = 0;
    while i < 260 && units[i] != 0
        invariant
            i <= 260,
            units@.len() == 260,
            find_unit(units@, 0, 0) == find_unit(units@, 0, i as int),
            r@ == units@.take(i as int),
        decreases 260 - i,
    {
        r.push(units[i]);
        assert(units@.take(i + 1) =~= units@.take(i as int).push(units@[i as int]));
        i = i + 1;
    }
    r
}

} // verus!

verus! {

/// ASCII white space, as `split_ascii_whitespace` uses it.
pub open spec fn is_ascii_space(c: char) -> bool {
    c == ' ' || c == '\t' || c == '\n' || c == '\u{c}' || c == '\r'
}

/// Whether `w` is one of the tokens of `s` separated by ASCII white space.
pub open spec fn has_token(s: Seq<char>, w: Seq<char>) -> bool {
    exists|i: int, j: int|
        0 <= i <= j <= s.len() && #[trigger] s.subrange(i, j) == w && (i == 0 || is_ascii_space(
            s[i - 1],
        )) && (j == s.len() || is_ascii_space(s[j]))
}

/// Whether `w` can be a token: it is not empty and holds no ASCII white space.
pub open spec fn is_word(w: Seq<char>) -> bool {
    w.len() > 0 && forall|k: int| 0 <= k < w.len() ==> !is_ascii_space(#[trigger] w[k])
}

fn is_ascii_space_char(c: char) -> (r: bool)
    ensures
        r == is_ascii_space(c),
{
    c == ' ' || c == '\t' || c == '\n' || c == '\u{c}' || c == '\r'
}

fn range_equals(v: &Vec<char>, lo: usize, hi: usize, pattern: &[char]) -> (r: bool)
    requires
        lo <= hi <= v@.len(),
    ensures
        r == (v@.subrange(lo as int, hi as int) == pattern@),
{
    if hi - lo != pattern.len() {
        return false;
    }
    let mut i: usize = 0;
    while i < pattern.len()
        invariant
            hi - lo == pattern@.len(),
            lo <= hi <= v@.len(),
            i <= pattern@.len(),
            forall|k: int| 0 <= k < i ==> v@[lo + k] == pattern@[k],
        decreases pattern@.len() - i,
    {
        if v[lo + i] != pattern[i] {
            return false;
        }
        i = i + 1;
    }
    assert(v@.subrange(lo as int, hi as int) =~= pattern@);
    true
}

/// Whether a token of `s`, split at ASCII white space, is one of `words`.
pub fn has_any_token(s: &str, words: &Vec<Vec<char>>) -> (r: bool)
    requires
        forall|k: int| 0 <= k < words@.len() ==> is_word(#[trigger] words@[k]@),
    ensures
        r == exists|k: int| 0 <= k < words@.len() && has_token(s@, #[trigger] words@[k]@),
{
    let v = chars_of(s);
    let n = v.len();
    let mut pos: usize = 0;
    while pos < n
        invariant
            n == v@.len(),
            v@ == s@,
            pos <= n,
            pos == 0 || pos == n || is_ascii_space(v@[pos - 1]) || is_ascii_space(v@[pos as int]),
            forall|k: int| 0 <= k < words@.len() ==> is_word(#[trigger] words@[k]@),
            forall|k: int, i: int, j: int|
                0 <= k < words@.len() && 0 <= i < pos && i <= j <= n && (i == 0
                    || is_ascii_space(v@[i - 1])) && (j == n || is_ascii_space(v@[j]))
                    ==> #[trigger] v@.subrange(i, j) != #[trigger] words@[k]@,
        decreases n - pos,
    {
        if is_ascii_space_char(v[pos]) {
            assert forall|k: int, i: int, j: int|
                0 <= k < words@.len() && 0 <= i < pos + 1 && i <= j <= n && (i == 0
                    || is_ascii_space(v@[i - 1])) && (j == n || is_ascii_space(v@[j]))
                    implies #[trigger] v@.subrange(i, j) != #[trigger] words@[k]@ by {
                if i == pos && v@.subrange(i, j) == words@[k]@ {
                    assert(is_word(words@[k]@));
                    assert(words@[k]@[0] == v@[i]);
                }
            }
            pos = pos + 1;
        } else {
            let start = pos;
            while pos < n && !is_ascii_space_char(v[pos])
                invariant
                    n == v@.len(),
                    start <= pos <= n,
                    forall|q: int| start <= q < pos ==> !is_ascii_space(v@[q]),
                decreases n - pos,
            {
                pos = pos + 1;
            }
            assert(start == 0 || is_ascii_space(v@[start - 1]));
            let mut k: usize = 0;
            while k < words.len()
                invariant
                    n == v@.len(),
                    v@ == s@,
                    start < pos <= n,
                    pos == n || is_ascii_space(v@[pos as int]),
                    start == 0 || is_ascii_space(v@[start - 1]),
                    forall|q: int| start <= q < pos ==> !is_ascii_space(v@[q]),
                    forall|kk: int| 0 <= kk < words@.len() ==> is_word(#[trigger] words@[kk]@),
                    forall|kk: int, i: int, j: int|
                        0 <= kk < words@.len() && 0 <= i < start && i <= j <= n && (i == 0
                            || is_ascii_space(v@[i - 1])) && (j == n || is_ascii_space(v@[j]))
                            ==> #[trigger] v@.subrange(i, j) != #[trigger] words@[kk]@,
                    k <= words@.len(),
                    forall|q: int| 0 <= q < k ==> v@.subrange(start as int, pos as int) != words@[q]@,
                decreases words@.len() - k,
            {
                if range_equals(&v, start, pos, words[k].as_slice()) {
                    assert(has_token(s@, words@[k as int]@)) by {
                        assert(v@.subrange(start as int, pos as int) == words@[k as int]@);
                    }
                    return true;
                }
                k = k + 1;
            }
            assert forall|kk: int, i: int, j: int|
                0 <= kk < words@.len() && 0 <= i < pos && i <= j <= n && (i == 0
                    || is_ascii_space(v@[i - 1])) && (j == n || is_ascii_space(v@[j]))
                    implies #[trigger] v@.subrange(i, j) != #[trigger] words@[kk]@ by {
                if i >= start && v@.subrange(i, j) == words@[kk]@ {
                    assert(is_word(words@[kk]@));
                    if i > start {
                        assert(!is_ascii_space(v@[i - 1]));
                    } else {
                        if j < pos {
                            assert(!is_ascii_space(v@[j]));
                        } else if j > pos {
                            assert(v@[pos as int] == words@[kk]@[pos - i]);
                            assert(is_ascii_space(v@[pos as int]));
                        }
                    }
                }
            }
        }
    }
    assert forall|k: int| 0 <= k < words@.len() implies !has_token(s@, #[trigger] words@[k]@) by {
        if has_token(s@, words@[k]@) {
            let (i, j) = choose|i: int, j: int|
                0 <= i <= j <= s@.len() && #[trigger] s@.subrange(i, j) == words@[k]@ && (i == 0
                    || is_ascii_space(s@[i - 1])) && (j == s@.len() || is_ascii_space(s@[j]));
            if i == n {
                assert(words@[k]@.len() == 0);
            }
        }
    }
    false
}

} // verus!

verus! {

/// UTF-16 decoding never yields more characters than units.
pub proof fn lemma_decode_utf16_len(u: Seq<u16>)
    ensures
        decode_utf16_lossy(u).len() <= u.len(),
    decreases u.len(),
{
    if u.len() > 0 {
        if u.len() >= 2 && is_high_surrogate(u[0]) && is_low_surrogate(u[1]) {
            lemma_decode_utf16_len(u.subrange(2, u.len() as int));
        } else {
            lemma_decode_utf16_len(u.drop_first());
        }
    }
}

} // verus!

verus! {

/// The value of an ASCII hexadecimal digit byte, `None` for any other byte.
pub open spec fn hex_nibble_spec(value: u8) -> Option<u8> {
    if 0x30 <= value <= 0x39 {
        Some((value - 0x30) as u8)
    } else if 0x61 <= value <= 0x66 {
        Some((value - 0x61 + 10) as u8)
    } else if 0x41 <= value <= 0x46 {
        Some((value - 0x41 + 10) as u8)
    } else {
        None
    }
}

/// The value of one hexadecimal digit byte, in either case.
pub fn hex_nibble(value: u8) -> (r: Option<u8>)
    ensures
        r == hex_nibble_spec(value),
{
    if 0x30 <= value && value <= 0x39 {
        Some(value - 0x30)
    } else if 0x61 <= value && value <= 0x66 {
        Some(value - 0x61 + 10)
    } else if 0x41 <= value && value <= 0x46 {
        Some(value - 0x41 + 10)
    } else {
        None
    }
}

/// Whether every byte of `bytes` is a hexadecimal digit.
pub open spec fn all_hex_bytes(bytes: Seq<u8>) -> bool {
    forall|i: int| 0 <= i < bytes.len() ==> (#[trigger] hex_nibble_spec(bytes[i])) is Some
}

/// The bytes that pairs of hexadecimal digits spell, high digit first.
pub open spec fn hex_pairs(bytes: Seq<u8>) -> Seq<u8> {
    Seq::new(
        bytes.len() / 2,
        |k: int|
            (16 * hex_nibble_spec(bytes[2 * k])->0 + hex_nibble_spec(bytes[2 * k + 1])->0) as u8,
    )
}

/// The bytes that a hexadecimal text spells: `None` unless its length is
/// even and every character is a hexadecimal digit.
pub open spec fn decode_hex_spec(bytes: Seq<u8>) -> Option<Seq<u8>> {
    if bytes.len() % 2 == 0 && all_hex_bytes(bytes) {
        Some(hex_pairs(bytes))
    } else {
        None
    }
}

/// Decodes a hexadecimal text, two digits to a byte.
pub fn decode_hex(hex: &str) -> (r: Option<Vec<u8>>)
    ensures
        r is Some <==> decode_hex_spec(hex.spec_bytes()) is Some,
        r matches Some(v) ==> decode_hex_spec(hex.spec_bytes()) == Some(v@),
{
    let bytes = hex.as_bytes();
    let n = bytes.len();
    if n % 2 != 0 {
        return None;
    }
    let mut output: Vec<u8> = Vec::new();
    let mut k: usize = 0;
    while k < n / 2
        invariant
            n == bytes@.len(),
            bytes@ == hex.spec_bytes(),
            n % 2 == 0,
            k <= n / 2,
            output@.len() == k,
            forall|i: int| 0 <= i < 2 * k ==> (#[trigger] hex_nibble_spec(bytes@[i])) is Some,
            forall|j: int| 0 <= j < k ==> #[trigger] output@[j] == hex_pairs(bytes@)[j],
        decreases n / 2 - k,
    {
        let high = hex_nibble(bytes[2 * k]);
        let low = hex_nibble(bytes[2 * k + 1]);
        match (high, low) {
            (Some(h), Some(l)) => {
                assert(h < 16 && l < 16);
                let value = (h << 4) | l;
                assert(value == 16 * h + l) by (bit_vector)
                    requires
                        value == (h << 4) | l,
                        h < 16,
                        l < 16,
                ;
                output.push(value);
                proof {
                    assert forall|i: int| 0 <= i < 2 * (k + 1) implies (#[trigger] hex_nibble_spec(
                        bytes@[i],
                    )) is Some by {
                        if i == 2 * k || i == 2 * k + 1 {
                        }
                    }
                }
                k = k + 1;
            },
            _ => {
                proof {
                    if hex_nibble_spec(bytes@[2 * k as int]) is None {
                        assert(!all_hex_bytes(bytes@));
                    } else {
                        assert(hex_nibble_spec(bytes@[2 * k + 1]) is None);
                        assert(!all_hex_bytes(bytes@));
                    }
                }
                return None;
            },
        }
    }
    assert(all_hex_bytes(bytes@)) by {
        assert forall|i: int| 0 <= i < bytes@.len() implies (#[trigger] hex_nibble_spec(
            bytes@[i],
        )) is Some by {
            assert(i < 2 * k);
        }
    }
    assert(output@ =~= hex_pairs(bytes@));
    Some(output)
}

/// The fixed buffer holding `source`, cut to leave room for a terminating
/// zero, and zero after it.
pub open spec fn wide_fixed_spec(source: Seq<u16>, n: nat) -> Seq<u16> {
    let count = if source.len() < n - 1 {
        source.len() as int
    } else {
        n - 1
    };
    Seq::new(n, |i: int| if i < count { source[i] } else { 0u16 })
}

/// Copies a UTF-16 text into a fixed, zero-terminated buffer, cutting it if
/// it does not fit and zeroing the rest.
pub fn copy_wide_to_fixed<const N: usize>(source: &[u16], destination: &mut [u16; N])
    ensures
        final(destination)@ == wide_fixed_spec(source@, N as nat),
{
    let limit: usize = if N == 0 {
        0
    } else {
        N - 1
    };
    let count: usize = if source.len() < limit {
        source.len()
    } else {
        limit
    };
    let mut i: usize = 0;
    while i < N
        invariant
            i <= N,
            count <= source@.len(),
            count == (if source@.len() < N - 1 { source@.len() as int } else if N == 0 { 0 } else { N - 1 }),
            destination@.len() == N,
            forall|j: int| 0 <= j < i ==> #[trigger] destination@[j] == (if j < count {
                source@[j]
            } else {
                0u16
            }),
        decreases N - i,
    {
        if i < count {
            destination[i] = source[i];
        } else {
            destination[i] = 0;
        }
        i = i + 1;
    }
    assert(destination@ =~= wide_fixed_spec(source@, N as nat));
}

} // verus!
