use vstd::prelude::*;

use vstd::utf8::{decode_utf8, encode_utf8, encode_utf8_decode_utf8, encode_utf8_valid_utf8, valid_utf8};
use vstd::string::StrSliceExecFns;
use crate::text::{
    decode_ini_spec, decode_ini_text, has_utf16_bom,
    string_from_chars,
    push_chars,
    copy_range, find_char_from,
    find_char, lemma_find_char_bounds, is_space, trim_start, trim_end, strip_bom, parse_i32_spec, parse_i32_range, lemma_lower_lower,
    chars_of, eq_ignore_case, hex2, hex_digit_value, hex_upper, hex_upper_char, hex_value,
    is_hex_digit, is_hex_digit_char, lemma_hex2, lower_seq, range_eq_ignore_case, string_push,
    trim, trim_range,
};

verus! {

/// A colour with 8-bit red, green, blue and alpha channels.
#[derive(Clone, Copy, Debug, PartialEq, Eq, Structural)]
pub struct RgbaColor {
    pub red: u8,
    pub green: u8,
    pub blue: u8,
    pub alpha: u8,
}

/// The byte written by two hexadecimal digits, high nibble first.
pub open spec fn hex_byte(high: char, low: char) -> u8 {
    (hex_value(high) * 16 + hex_value(low)) as u8
}

/// What `RgbaColor::parse` gives for `s`: exactly eight hexadecimal digits,
/// once surrounding white space is trimmed, read as `RRGGBBAA`.
pub open spec fn parse_rgba_spec(s: Seq<char>) -> Option<RgbaColor> {
    let t = trim(s);
    if t.len() == 8 && (forall|i: int| 0 <= i < 8 ==> is_hex_digit(#[trigger] t[i])) {
        Some(
            RgbaColor {
                red: hex_byte(t[0], t[1]),
                green: hex_byte(t[2], t[3]),
                blue: hex_byte(t[4], t[5]),
                alpha: hex_byte(t[6], t[7]),
            },
        )
    } else {
        None
    }
}

/// The `RRGGBBAA` text of a colour, in uppercase hexadecimal.
pub open spec fn rrggbbaa_spec(c: RgbaColor) -> Seq<char> {
    hex2(c.red) + hex2(c.green) + hex2(c.blue) + hex2(c.alpha)
}

fn hex_pair(chars: &Vec<char>, i: usize) -> (b: u8)
    requires
        i + 1 < chars.len(),
        is_hex_digit(chars@[i as int]),
        is_hex_digit(chars@[i + 1]),
    ensures
        b == hex_byte(chars@[i as int], chars@[i + 1]),
{
    let high = hex_digit_value(chars[i]);
    let low = hex_digit_value(chars[i + 1]);
    high * 16 + low
}

fn push_hex2(s: &mut String, b: u8)
    ensures
        final(s)@ == old(s)@ + hex2(b),
{
    string_push(s, hex_upper_char(b / 16));
    string_push(s, hex_upper_char(b % 16));
    assert(final(s)@ =~= old(s)@ + hex2(b));
}

/// Reads `v[from..to]` as `RgbaColor::parse` reads its text.
pub fn parse_rgba_range(v: &Vec<char>, from: usize, to: usize) -> (result: Option<RgbaColor>)
    requires
        from <= to <= v@.len(),
    ensures
        result == parse_rgba_spec(v@.subrange(from as int, to as int)),
{
    let chars = v;
    let (lo, hi) = trim_range(chars, from, to);
    let ghost t = chars@.subrange(lo as int, hi as int);
    if hi - lo != 8 {
        return None;
    }
    let mut i: usize = 0;
    while i < 8
        invariant
            hi - lo == 8,
            lo <= hi <= chars@.len(),
            t == chars@.subrange(lo as int, hi as int),
            t == trim(v@.subrange(from as int, to as int)),
            i <= 8,
            forall|j: int| 0 <= j < i ==> is_hex_digit(#[trigger] t[j]),
        decreases 8 - i,
    {
        if !is_hex_digit_char(chars[lo + i]) {
            assert(!is_hex_digit(t[i as int]));
            return None;
        }
        i = i + 1;
    }
    assert(is_hex_digit(t[0]) && is_hex_digit(t[1]) && is_hex_digit(t[2]) && is_hex_digit(t[3]));
    assert(is_hex_digit(t[4]) && is_hex_digit(t[5]) && is_hex_digit(t[6]) && is_hex_digit(t[7]));
    let red = hex_pair(chars, lo);
    let green = hex_pair(chars, lo + 2);
    let blue = hex_pair(chars, lo + 4);
    let alpha = hex_pair(chars, lo + 6);
    Some(RgbaColor { red, green, blue, alpha })
}

impl RgbaColor {
    /// Builds a colour from its four channels.
    pub fn new(red: u8, green: u8, blue: u8, alpha: u8) -> (color: Self)
        ensures
            color == (RgbaColor { red, green, blue, alpha }),
    {
        RgbaColor { red, green, blue, alpha }
    }

    /// Reads `RRGGBBAA` hexadecimal text, in either case, with white space
    /// allowed around it.
    pub fn parse(value: &str) -> (result: Option<Self>)
        ensures
            result == parse_rgba_spec(value@),
    {
        let chars = chars_of(value);
        assert(chars@.subrange(0, chars@.len() as int) =~= chars@);
        parse_rgba_range(&chars, 0, chars.len())
    }

    /// The colour as `RRGGBBAA` in uppercase hexadecimal.
    pub fn as_rrggbbaa(self) -> (text: String)
        ensures
            text@ == rrggbbaa_spec(self),
    {
        let mut s = String::new();
        push_hex2(&mut s, self.red);
        push_hex2(&mut s, self.green);
        push_hex2(&mut s, self.blue);
        push_hex2(&mut s, self.alpha);
        assert(s@ =~= rrggbbaa_spec(self));
        s
    }
}

/// Reading back the `RRGGBBAA` text of a colour gives the same colour.
pub proof fn lemma_rgba_round_trip(c: RgbaColor)
    ensures
        parse_rgba_spec(rrggbbaa_spec(c)) == Some(c),
{
    lemma_hex2(c.red);
    lemma_hex2(c.green);
    lemma_hex2(c.blue);
    lemma_hex2(c.alpha);
    let s = rrggbbaa_spec(c);
    let e = seq![
        hex2(c.red)[0],
        hex2(c.red)[1],
        hex2(c.green)[0],
        hex2(c.green)[1],
        hex2(c.blue)[0],
        hex2(c.blue)[1],
        hex2(c.alpha)[0],
        hex2(c.alpha)[1],
    ];
    assert(s =~= e);
    crate::text::lemma_trim_no_space(e);
    assert(forall|i: int| 0 <= i < 8 ==> is_hex_digit(#[trigger] e[i]));
}

} // verus!

verus! {

/// Where the indicator stands beside the caret.
#[derive(Clone, Copy, Debug, PartialEq, Eq, Structural)]
pub enum IndicatorPosition {
    Right,
    Above,
    Below,
}

pub open spec fn word_right() -> Seq<char> {
    seq!['r', 'i', 'g', 'h', 't']
}

pub open spec fn word_above() -> Seq<char> {
    seq!['a', 'b', 'o', 'v', 'e']
}

pub open spec fn word_below() -> Seq<char> {
    seq!['b', 'e', 'l', 'o', 'w']
}

/// What `IndicatorPosition::parse` gives: the trimmed text names a position,
/// compared without ASCII case.
pub open spec fn parse_position_spec(s: Seq<char>) -> Option<IndicatorPosition> {
    let t = trim(s);
    if eq_ignore_case(t, word_right()) {
        Some(IndicatorPosition::Right)
    } else if eq_ignore_case(t, word_above()) {
        Some(IndicatorPosition::Above)
    } else if eq_ignore_case(t, word_below()) {
        Some(IndicatorPosition::Below)
    } else {
        None
    }
}

/// The text written for a position in the settings file.
pub open spec fn position_ini_spec(p: IndicatorPosition) -> Seq<char> {
    match p {
        IndicatorPosition::Right => seq!['R', 'i', 'g', 'h', 't'],
        IndicatorPosition::Above => seq!['A', 'b', 'o', 'v', 'e'],
        IndicatorPosition::Below => seq!['B', 'e', 'l', 'o', 'w'],
    }
}

/// The index of a position in the settings combo box.
pub open spec fn combo_index_spec(p: IndicatorPosition) -> usize {
    match p {
        IndicatorPosition::Right => 0,
        IndicatorPosition::Above => 1,
        IndicatorPosition::Below => 2,
    }
}

/// The position a combo box index selects: 0 right, 1 above, anything
/// else below.
pub open spec fn from_combo_index_spec(index: usize) -> IndicatorPosition {
    if index == 0 {
        IndicatorPosition::Right
    } else if index == 1 {
        IndicatorPosition::Above
    } else {
        IndicatorPosition::Below
    }
}

/// Reads `v[from..to]` as `IndicatorPosition::parse` reads its text.
pub fn parse_position_range(v: &Vec<char>, from: usize, to: usize) -> (result: Option<
    IndicatorPosition,
>)
    requires
        from <= to <= v@.len(),
    ensures
        result == parse_position_spec(v@.subrange(from as int, to as int)),
{
    let (lo, hi) = trim_range(v, from, to);
    let right = ['r', 'i', 'g', 'h', 't'];
    let above = ['a', 'b', 'o', 'v', 'e'];
    let below = ['b', 'e', 'l', 'o', 'w'];
    assert(right@ == word_right());
    assert(above@ == word_above());
    assert(below@ == word_below());
    if range_eq_ignore_case(v, lo, hi, &right) {
        Some(IndicatorPosition::Right)
    } else if range_eq_ignore_case(v, lo, hi, &above) {
        Some(IndicatorPosition::Above)
    } else if range_eq_ignore_case(v, lo, hi, &below) {
        Some(IndicatorPosition::Below)
    } else {
        None
    }
}

impl IndicatorPosition {
    /// Reads `Right`, `Above` or `Below`, in any ASCII case, with white space
    /// allowed around it.
    pub fn parse(value: &str) -> (result: Option<Self>)
        ensures
            result == parse_position_spec(value@),
    {
        let chars = chars_of(value);
        assert(chars@.subrange(0, chars@.len() as int) =~= chars@);
        parse_position_range(&chars, 0, chars.len())
    }

    /// The text written for this position in the settings file.
    pub fn as_ini_value(self) -> (text: &'static str)
        ensures
            text@ == position_ini_spec(self),
    {
        match self {
            IndicatorPosition::Right => {
                proof {
                    reveal_strlit("Right");
                }
                "Right"
            },
            IndicatorPosition::Above => {
                proof {
                    reveal_strlit("Above");
                }
                "Above"
            },
            IndicatorPosition::Below => {
                proof {
                    reveal_strlit("Below");
                }
                "Below"
            },
        }
    }

    /// The index of this position in the settings combo box.
    pub fn combo_index(self) -> (index: usize)
        ensures
            index == combo_index_spec(self),
    {
        match self {
            IndicatorPosition::Right => 0,
            IndicatorPosition::Above => 1,
            IndicatorPosition::Below => 2,
        }
    }

    /// The position for a combo box index; an index past the list gives `Below`.
    pub fn from_combo_index(index: usize) -> (p: Self)
        ensures
            p == (if index == 0 {
                IndicatorPosition::Right
            } else if index == 1 {
                IndicatorPosition::Above
            } else {
                IndicatorPosition::Below
            }),
    {
        match index {
            0 => IndicatorPosition::Right,
            1 => IndicatorPosition::Above,
            _ => IndicatorPosition::Below,
        }
    }
}

/// Selecting the combo entry of a position gives that position back.
pub proof fn lemma_combo_index_round_trip(p: IndicatorPosition)
    ensures
        combo_index_spec(p) < 3,
        (if combo_index_spec(p) == 0 {
            IndicatorPosition::Right
        } else if combo_index_spec(p) == 1 {
            IndicatorPosition::Above
        } else {
            IndicatorPosition::Below
        }) == p,
{
}

/// Reading back the settings-file text of a position gives that position.
pub proof fn lemma_position_round_trip(p: IndicatorPosition)
    ensures
        parse_position_spec(position_ini_spec(p)) == Some(p),
{
    let s = position_ini_spec(p);
    crate::text::lemma_trim_no_space(s);
    assert(lower_seq(s) =~= match p {
        IndicatorPosition::Right => word_right(),
        IndicatorPosition::Above => word_above(),
        IndicatorPosition::Below => word_below(),
    });
    assert(lower_seq(word_right()) =~= word_right());
    assert(lower_seq(word_above()) =~= word_above());
    assert(lower_seq(word_below()) =~= word_below());
}

} // verus!

verus! {

/// The settings of the program, as the settings file holds them.
#[derive(Clone, Copy, Debug, PartialEq, Eq, Structural)]
pub struct Config {
    pub play_english_sound: bool,
    pub play_japanese_sound: bool,
    pub play_korean_sound: bool,
    pub play_sounds: bool,
    pub indicator_position: IndicatorPosition,
    pub indicator_text_color: RgbaColor,
    pub english_background_color: RgbaColor,
    pub japanese_background_color: RgbaColor,
    pub korean_background_color: RgbaColor,
}

/// The default colour of the indicator's text.
pub open spec fn default_indicator_text_color() -> RgbaColor {
    RgbaColor { red: 0xff, green: 0xff, blue: 0xff, alpha: 0xa5 }
}

/// The default background colour while English is active.
pub open spec fn default_english_background_color() -> RgbaColor {
    RgbaColor { red: 0xff, green: 0x62, blue: 0x62, alpha: 0xa5 }
}

/// The default background colour while Japanese is active.
pub open spec fn default_japanese_background_color() -> RgbaColor {
    RgbaColor { red: 0x62, green: 0xff, blue: 0x62, alpha: 0xa5 }
}

/// The default background colour while Korean is active.
pub open spec fn default_korean_background_color() -> RgbaColor {
    RgbaColor { red: 0x62, green: 0x62, blue: 0xff, alpha: 0xa5 }
}

/// The settings used when the settings file says nothing: every language
/// sound enabled, sounds as a whole disabled, the indicator below the caret.
pub open spec fn default_config() -> Config {
    Config {
        play_english_sound: true,
        play_japanese_sound: true,
        play_korean_sound: true,
        play_sounds: false,
        indicator_position: IndicatorPosition::Below,
        indicator_text_color: default_indicator_text_color(),
        english_background_color: default_english_background_color(),
        japanese_background_color: default_japanese_background_color(),
        korean_background_color: default_korean_background_color(),
    }
}

impl Default for Config {
    fn default() -> (c: Self)
        ensures
            c == default_config(),
    {
        Config {
            play_english_sound: true,
            play_japanese_sound: true,
            play_korean_sound: true,
            play_sounds: false,
            indicator_position: IndicatorPosition::Below,
            indicator_text_color: RgbaColor::new(0xff, 0xff, 0xff, 0xa5),
            english_background_color: RgbaColor::new(0xff, 0x62, 0x62, 0xa5),
            japanese_background_color: RgbaColor::new(0x62, 0xff, 0x62, 0xa5),
            korean_background_color: RgbaColor::new(0x62, 0x62, 0xff, 0xa5),
        }
    }
}

pub open spec fn word_settings() -> Seq<char> {
    seq!['s', 'e', 't', 't', 'i', 'n', 'g', 's']
}

/// The key `PlayEnglishSound`, as the settings file writes it.
pub open spec fn key_play_english_sound() -> Seq<char> {
    seq!['P', 'l', 'a', 'y', 'E', 'n', 'g', 'l', 'i', 's', 'h', 'S', 'o', 'u', 'n', 'd']
}

/// The key `PlayJapaneseSound`, as the settings file writes it.
pub open spec fn key_play_japanese_sound() -> Seq<char> {
    seq!['P', 'l', 'a', 'y', 'J', 'a', 'p', 'a', 'n', 'e', 's', 'e', 'S', 'o', 'u', 'n', 'd']
}

/// The key `PlayKoreanSound`, as the settings file writes it.
pub open spec fn key_play_korean_sound() -> Seq<char> {
    seq!['P', 'l', 'a', 'y', 'K', 'o', 'r', 'e', 'a', 'n', 'S', 'o', 'u', 'n', 'd']
}

/// The key `PlaySounds`, as the settings file writes it.
pub open spec fn key_play_sounds() -> Seq<char> {
    seq!['P', 'l', 'a', 'y', 'S', 'o', 'u', 'n', 'd', 's']
}

/// The key `IndicatorPosition`, as the settings file writes it.
pub open spec fn key_indicator_position() -> Seq<char> {
    seq!['I', 'n', 'd', 'i', 'c', 'a', 't', 'o', 'r', 'P', 'o', 's', 'i', 't', 'i', 'o', 'n']
}

/// The key `IndicatorTextColor`, as the settings file writes it.
pub open spec fn key_indicator_text_color() -> Seq<char> {
    seq!['I', 'n', 'd', 'i', 'c', 'a', 't', 'o', 'r', 'T', 'e', 'x', 't', 'C', 'o', 'l', 'o', 'r']
}

/// The key `EnglishBackgroundColor`, as the settings file writes it.
pub open spec fn key_english_background_color() -> Seq<char> {
    seq!['E', 'n', 'g', 'l', 'i', 's', 'h', 'B', 'a', 'c', 'k', 'g', 'r', 'o', 'u', 'n', 'd', 'C', 'o', 'l', 'o', 'r']
}

/// The key `JapaneseBackgroundColor`, as the settings file writes it.
pub open spec fn key_japanese_background_color() -> Seq<char> {
    seq!['J', 'a', 'p', 'a', 'n', 'e', 's', 'e', 'B', 'a', 'c', 'k', 'g', 'r', 'o', 'u', 'n', 'd', 'C', 'o', 'l', 'o', 'r']
}

/// The key `KoreanBackgroundColor`, as the settings file writes it.
pub open spec fn key_korean_background_color() -> Seq<char> {
    seq!['K', 'o', 'r', 'e', 'a', 'n', 'B', 'a', 'c', 'k', 'g', 'r', 'o', 'u', 'n', 'd', 'C', 'o', 'l', 'o', 'r']
}

/// What a boolean setting becomes: `0` and `1` (as `str::parse::<i32>` reads
/// them) set it, anything else leaves it unchanged.
pub open spec fn bool_setting(value: Seq<char>, current: bool) -> bool {
    match ini_bool_spec(value) {
        Some(b) => b,
        None => current,
    }
}

/// What a position setting becomes.
pub open spec fn position_setting(value: Seq<char>, current: IndicatorPosition) -> IndicatorPosition {
    match parse_position_spec(value) {
        Some(p) => p,
        None => current,
    }
}

/// What a colour setting becomes.
pub open spec fn color_setting(value: Seq<char>, current: RgbaColor) -> RgbaColor {
    match parse_rgba_spec(value) {
        Some(c) => c,
        None => current,
    }
}

/// The settings after one `key=value` line of the `[Settings]` section; the
/// key is compared without ASCII case and an unknown key changes nothing.
pub open spec fn ini_setting(c: Config, key: Seq<char>, value: Seq<char>) -> Config {
    if eq_ignore_case(key, key_play_english_sound()) {
        Config { play_english_sound: bool_setting(value, c.play_english_sound), ..c }
    } else if eq_ignore_case(key, key_play_japanese_sound()) {
        Config { play_japanese_sound: bool_setting(value, c.play_japanese_sound), ..c }
    } else if eq_ignore_case(key, key_play_korean_sound()) {
        Config { play_korean_sound: bool_setting(value, c.play_korean_sound), ..c }
    } else if eq_ignore_case(key, key_play_sounds()) {
        Config { play_sounds: bool_setting(value, c.play_sounds), ..c }
    } else if eq_ignore_case(key, key_indicator_position()) {
        Config { indicator_position: position_setting(value, c.indicator_position), ..c }
    } else if eq_ignore_case(key, key_indicator_text_color()) {
        Config { indicator_text_color: color_setting(value, c.indicator_text_color), ..c }
    } else if eq_ignore_case(key, key_english_background_color()) {
        Config { english_background_color: color_setting(value, c.english_background_color), ..c }
    } else if eq_ignore_case(key, key_japanese_background_color()) {
        Config { japanese_background_color: color_setting(value, c.japanese_background_color), ..c }
    } else if eq_ignore_case(key, key_korean_background_color()) {
        Config { korean_background_color: color_setting(value, c.korean_background_color), ..c }
    } else {
        c
    }
}

/// The settings and the "inside `[Settings]`" flag after one line of the file.
pub open spec fn ini_line(st: (Config, bool), raw: Seq<char>) -> (Config, bool) {
    let line = strip_bom(trim(raw));
    if line.len() == 0 || line[0] == ';' || line[0] == '#' {
        st
    } else if line[0] == '[' && line.last() == ']' {
        (st.0, eq_ignore_case(trim(line.subrange(1, line.len() - 1)), word_settings()))
    } else if !st.1 {
        st
    } else {
        let e = find_char(line, '=', 0);
        if e >= line.len() {
            st
        } else {
            (
                ini_setting(
                    st.0,
                    trim(line.subrange(0, e)),
                    trim(line.subrange(e + 1, line.len() as int)),
                ),
                true,
            )
        }
    }
}

/// The state after the lines of `s` that start at `pos` or later; lines end
/// at `\n`.
pub open spec fn ini_from(s: Seq<char>, pos: int, st: (Config, bool)) -> (Config, bool)
    decreases s.len() - pos,
{
    if pos < 0 || pos > s.len() {
        st
    } else {
        let e = find_char(s, '\n', pos);
        proof {
            lemma_find_char_bounds(s, '\n', pos);
        }
        let next = ini_line(st, s.subrange(pos, e));
        if e < s.len() {
            ini_from(s, e + 1, next)
        } else {
            next
        }
    }
}

/// The settings that a settings file with text `s` gives: the defaults,
/// changed by the known keys of its `[Settings]` section.
pub open spec fn ini_parse_spec(s: Seq<char>) -> Config {
    ini_from(s, 0, (default_config(), false)).0
}

} // verus!

verus! {

/// The boolean a settings value stands for: `0` is false and `1` is true,
/// as `str::parse::<i32>` reads them; anything else stands for none.
pub open spec fn ini_bool_spec(value: Seq<char>) -> Option<bool> {
    match parse_i32_spec(value) {
        Some(v) => if v == 0 {
            Some(false)
        } else if v == 1 {
            Some(true)
        } else {
            None
        },
        None => None,
    }
}

/// Reads `value` as `str::parse::<i32>` does.
pub fn parse_i32(value: &str) -> (r: Option<i32>)
    ensures
        r == parse_i32_spec(value@),
{
    let chars = chars_of(value);
    assert(chars@.subrange(0, chars@.len() as int) =~= chars@);
    parse_i32_range(&chars, 0, chars.len())
}

/// The boolean a settings value stands for: `0` is false and `1` is true.
pub fn ini_bool(value: &str) -> (r: Option<bool>)
    ensures
        r == ini_bool_spec(value@),
{
    match parse_i32(value) {
        Some(0) => Some(false),
        Some(1) => Some(true),
        _ => None,
    }
}

/// Stores `value` in `slot` when there is one.
pub fn set_bool(slot: &mut bool, value: Option<bool>)
    ensures
        *final(slot) == (match value {
            Some(v) => v,
            None => *old(slot),
        }),
{
    if let Some(v) = value {
        *slot = v;
    }
}

/// Stores the colour that `value` holds in `slot`, when it holds one.
pub fn set_color(slot: &mut RgbaColor, value: &str)
    ensures
        *final(slot) == color_setting(value@, *old(slot)),
{
    if let Some(v) = RgbaColor::parse(value) {
        *slot = v;
    }
}

/// Applies one `key=value` line, the key being `line[ka..kb]`.
fn apply_setting(config: &mut Config, line: &Vec<char>, ka: usize, kb: usize, raw_value: &str)
    requires
        ka <= kb <= line@.len(),
    ensures
        *final(config) == ini_setting(
            *old(config),
            line@.subrange(ka as int, kb as int),
            raw_value@,
        ),
{
    let ghost key = line@.subrange(ka as int, kb as int);
    let w_play_english_sound = ['p', 'l', 'a', 'y', 'e', 'n', 'g', 'l', 'i', 's', 'h', 's', 'o', 'u', 'n', 'd'];
    assert(w_play_english_sound@ =~= lower_seq(key_play_english_sound()));
    proof {
        lemma_lower_lower(key_play_english_sound());
    }
    let w_play_japanese_sound = ['p', 'l', 'a', 'y', 'j', 'a', 'p', 'a', 'n', 'e', 's', 'e', 's', 'o', 'u', 'n', 'd'];
    assert(w_play_japanese_sound@ =~= lower_seq(key_play_japanese_sound()));
    proof {
        lemma_lower_lower(key_play_japanese_sound());
    }
    let w_play_korean_sound = ['p', 'l', 'a', 'y', 'k', 'o', 'r', 'e', 'a', 'n', 's', 'o', 'u', 'n', 'd'];
    assert(w_play_korean_sound@ =~= lower_seq(key_play_korean_sound()));
    proof {
        lemma_lower_lower(key_play_korean_sound());
    }
    let w_play_sounds = ['p', 'l', 'a', 'y', 's', 'o', 'u', 'n', 'd', 's'];
    assert(w_play_sounds@ =~= lower_seq(key_play_sounds()));
    proof {
        lemma_lower_lower(key_play_sounds());
    }
    let w_indicator_position = ['i', 'n', 'd', 'i', 'c', 'a', 't', 'o', 'r', 'p', 'o', 's', 'i', 't', 'i', 'o', 'n'];
    assert(w_indicator_position@ =~= lower_seq(key_indicator_position()));
    proof {
        lemma_lower_lower(key_indicator_position());
    }
    let w_indicator_text_color = ['i', 'n', 'd', 'i', 'c', 'a', 't', 'o', 'r', 't', 'e', 'x', 't', 'c', 'o', 'l', 'o', 'r'];
    assert(w_indicator_text_color@ =~= lower_seq(key_indicator_text_color()));
    proof {
        lemma_lower_lower(key_indicator_text_color());
    }
    let w_english_background_color = ['e', 'n', 'g', 'l', 'i', 's', 'h', 'b', 'a', 'c', 'k', 'g', 'r', 'o', 'u', 'n', 'd', 'c', 'o', 'l', 'o', 'r'];
    assert(w_english_background_color@ =~= lower_seq(key_english_background_color()));
    proof {
        lemma_lower_lower(key_english_background_color());
    }
    let w_japanese_background_color = ['j', 'a', 'p', 'a', 'n', 'e', 's', 'e', 'b', 'a', 'c', 'k', 'g', 'r', 'o', 'u', 'n', 'd', 'c', 'o', 'l', 'o', 'r'];
    assert(w_japanese_background_color@ =~= lower_seq(key_japanese_background_color()));
    proof {
        lemma_lower_lower(key_japanese_background_color());
    }
    let w_korean_background_color = ['k', 'o', 'r', 'e', 'a', 'n', 'b', 'a', 'c', 'k', 'g', 'r', 'o', 'u', 'n', 'd', 'c', 'o', 'l', 'o', 'r'];
    assert(w_korean_background_color@ =~= lower_seq(key_korean_background_color()));
    proof {
        lemma_lower_lower(key_korean_background_color());
    }
    if range_eq_ignore_case(line, ka, kb, &w_play_english_sound) {
        set_bool(&mut config.play_english_sound, ini_bool(raw_value));
    } else if range_eq_ignore_case(line, ka, kb, &w_play_japanese_sound) {
        set_bool(&mut config.play_japanese_sound, ini_bool(raw_value));
    } else if range_eq_ignore_case(line, ka, kb, &w_play_korean_sound) {
        set_bool(&mut config.play_korean_sound, ini_bool(raw_value));
    } else if range_eq_ignore_case(line, ka, kb, &w_play_sounds) {
        set_bool(&mut config.play_sounds, ini_bool(raw_value));
    } else if range_eq_ignore_case(line, ka, kb, &w_indicator_position) {
        if let Some(position) = IndicatorPosition::parse(raw_value) {
            config.indicator_position = position;
        }
    } else if range_eq_ignore_case(line, ka, kb, &w_indicator_text_color) {
        set_color(&mut config.indicator_text_color, raw_value);
    } else if range_eq_ignore_case(line, ka, kb, &w_english_background_color) {
        set_color(&mut config.english_background_color, raw_value);
    } else if range_eq_ignore_case(line, ka, kb, &w_japanese_background_color) {
        set_color(&mut config.japanese_background_color, raw_value);
    } else if range_eq_ignore_case(line, ka, kb, &w_korean_background_color) {
        set_color(&mut config.korean_background_color, raw_value);
    }
}

/// Applies one line of the settings file to the settings and the
/// "inside `[Settings]`" flag.
fn apply_line(config: &mut Config, in_settings: &mut bool, raw: &Vec<char>)
    ensures
        (*final(config), *final(in_settings)) == ini_line((*old(config), *old(in_settings)), raw@),
{
    let (a, b) = trim_range(raw, 0, raw.len());
    assert(raw@.subrange(0, raw@.len() as int) =~= raw@);
    let mut start = a;
    while start < b && raw[start] == '\u{feff}'
        invariant
            a <= start <= b <= raw@.len(),
            strip_bom(raw@.subrange(a as int, b as int)) == strip_bom(
                raw@.subrange(start as int, b as int),
            ),
        decreases b - start,
    {
        assert(raw@.subrange(start as int, b as int).drop_first() =~= raw@.subrange(
            start + 1,
            b as int,
        ));
        start = start + 1;
    }
    let line = copy_range(raw, start, b);
    assert(line@ == strip_bom(trim(raw@)));
    let n = line.len();
    if n == 0 || line[0] == ';' || line[0] == '#' {
        return;
    }
    if line[0] == '[' && line[n - 1] == ']' {
        let (x, y) = trim_range(&line, 1, n - 1);
        let settings = ['s', 'e', 't', 't', 'i', 'n', 'g', 's'];
        assert(settings@ == word_settings());
        *in_settings = range_eq_ignore_case(&line, x, y, &settings);
        return;
    }
    if !*in_settings {
        return;
    }
    let e = find_char_from(&line, '=', 0);
    if e >= n {
        return;
    }
    let (ka, kb) = trim_range(&line, 0, e);
    let (va, vb) = trim_range(&line, e + 1, n);
    let raw_value = string_from_chars(&copy_range(&line, va, vb));
    apply_setting(config, &line, ka, kb, raw_value.as_str());
}

impl Config {
    /// The settings that a settings file with this text gives: the defaults,
    /// changed by the known keys of its `[Settings]` section.
    pub fn from_ini_text(text: &str) -> (config: Self)
        ensures
            config == ini_parse_spec(text@),
    {
        let chars = chars_of(text);
        let n = chars.len();
        let mut config = Config::default();
        let mut in_settings = false;
        let mut pos: usize = 0;
        loop
            invariant
                n == chars@.len(),
                pos <= n,
                chars@ == text@,
                ini_from(chars@, 0, (default_config(), false)) == ini_from(
                    chars@,
                    pos as int,
                    (config, in_settings),
                ),
            decreases n - pos,
        {
            let e = find_char_from(&chars, '\n', pos);
            let raw = copy_range(&chars, pos, e);
            apply_line(&mut config, &mut in_settings, &raw);
            if e < n {
                pos = e + 1;
            } else {
                return config;
            }
        }
    }
}

} // verus!

verus! {

/// The digit written for a boolean setting.
pub open spec fn bool_digit(b: bool) -> Seq<char> {
    if b {
        seq!['1']
    } else {
        seq!['0']
    }
}

/// One `key=value` line of the settings file, ended by CR LF.
pub open spec fn ini_entry(key: Seq<char>, value: Seq<char>) -> Seq<char> {
    key + seq!['='] + value + seq!['\r', '\n']
}

/// The section header line of the settings file, ended by CR LF.
pub open spec fn section_header() -> Seq<char> {
    seq!['[', 'S', 'e', 't', 't', 'i', 'n', 'g', 's', ']', '\r', '\n']
}

/// The lines of the settings file that holds `c`, each ended by CR LF.
pub open spec fn ini_lines_spec(c: Config) -> Seq<Seq<char>> {
    seq![
        section_header(),
        ini_entry(key_play_english_sound(), bool_digit(c.play_english_sound)),
        ini_entry(key_play_japanese_sound(), bool_digit(c.play_japanese_sound)),
        ini_entry(key_play_korean_sound(), bool_digit(c.play_korean_sound)),
        ini_entry(key_play_sounds(), bool_digit(c.play_sounds)),
        ini_entry(key_indicator_position(), position_ini_spec(c.indicator_position)),
        ini_entry(key_indicator_text_color(), rrggbbaa_spec(c.indicator_text_color)),
        ini_entry(key_english_background_color(), rrggbbaa_spec(c.english_background_color)),
        ini_entry(key_japanese_background_color(), rrggbbaa_spec(c.japanese_background_color)),
        ini_entry(key_korean_background_color(), rrggbbaa_spec(c.korean_background_color)),
    ]
}

/// The text of the settings file that holds `c`.
pub open spec fn ini_text_spec(c: Config) -> Seq<char> {
    ini_lines_spec(c).flatten()
}

/// The number written for a boolean setting: 1 for true, 0 for false.
pub fn as_ini_bool(value: bool) -> (n: i32)
    ensures
        n == (if value {
            1i32
        } else {
            0i32
        }),
{
    if value {
        1
    } else {
        0
    }
}

fn bool_chars(b: bool) -> (v: Vec<char>)
    ensures
        v@ == bool_digit(b),
{
    let mut v: Vec<char> = Vec::new();
    if as_ini_bool(b) == 1 {
        v.push('1');
    } else {
        v.push('0');
    }
    assert(v@ =~= bool_digit(b));
    v
}

/// Appends one `key=value` line ended by CR LF.
fn push_entry(s: &mut String, key: &[char], value: &Vec<char>, lines: Ghost<Seq<Seq<char>>>)
    requires
        old(s)@ == lines@.flatten(),
    ensures
        final(s)@ == lines@.push(ini_entry(key@, value@)).flatten(),
{
    push_chars(s, key);
    string_push(s, '=');
    push_chars(s, value.as_slice());
    string_push(s, '\r');
    string_push(s, '\n');
    proof {
        lines@.lemma_flatten_push(ini_entry(key@, value@));
    }
    assert(final(s)@ =~= old(s)@ + ini_entry(key@, value@));
}

impl Config {
    /// The text of the settings file that holds these settings.
    pub fn to_ini_text(&self) -> (text: String)
        ensures
            text@ == ini_text_spec(*self),
    {
        let c = *self;
        let mut s = String::new();
        let header = ['[', 'S', 'e', 't', 't', 'i', 'n', 'g', 's', ']', '\r', '\n'];
        push_chars(&mut s, &header);
        let ghost lines: Seq<Seq<char>> = seq![section_header()];
        proof {
            Seq::<Seq<char>>::empty().lemma_flatten_push(section_header());
            assert(seq![section_header()] =~= Seq::<Seq<char>>::empty().push(section_header()));
        }
        let k_play_english_sound = ['P', 'l', 'a', 'y', 'E', 'n', 'g', 'l', 'i', 's', 'h', 'S', 'o', 'u', 'n', 'd'];
        assert(k_play_english_sound@ == key_play_english_sound());
        let v_play_english_sound = bool_chars(c.play_english_sound);
        push_entry(&mut s, &k_play_english_sound, &v_play_english_sound, Ghost(lines));
        proof {
            lines = lines.push(ini_entry(key_play_english_sound(), bool_digit(c.play_english_sound)));
        }
        let k_play_japanese_sound = ['P', 'l', 'a', 'y', 'J', 'a', 'p', 'a', 'n', 'e', 's', 'e', 'S', 'o', 'u', 'n', 'd'];
        assert(k_play_japanese_sound@ == key_play_japanese_sound());
        let v_play_japanese_sound = bool_chars(c.play_japanese_sound);
        push_entry(&mut s, &k_play_japanese_sound, &v_play_japanese_sound, Ghost(lines));
        proof {
            lines = lines.push(ini_entry(key_play_japanese_sound(), bool_digit(c.play_japanese_sound)));
        }
        let k_play_korean_sound = ['P', 'l', 'a', 'y', 'K', 'o', 'r', 'e', 'a', 'n', 'S', 'o', 'u', 'n', 'd'];
        assert(k_play_korean_sound@ == key_play_korean_sound());
        let v_play_korean_sound = bool_chars(c.play_korean_sound);
        push_entry(&mut s, &k_play_korean_sound, &v_play_korean_sound, Ghost(lines));
        proof {
            lines = lines.push(ini_entry(key_play_korean_sound(), bool_digit(c.play_korean_sound)));
        }
        let k_play_sounds = ['P', 'l', 'a', 'y', 'S', 'o', 'u', 'n', 'd', 's'];
        assert(k_play_sounds@ == key_play_sounds());
        let v_play_sounds = bool_chars(c.play_sounds);
        push_entry(&mut s, &k_play_sounds, &v_play_sounds, Ghost(lines));
        proof {
            lines = lines.push(ini_entry(key_play_sounds(), bool_digit(c.play_sounds)));
        }
        let k_indicator_position = ['I', 'n', 'd', 'i', 'c', 'a', 't', 'o', 'r', 'P', 'o', 's', 'i', 't', 'i', 'o', 'n'];
        assert(k_indicator_position@ == key_indicator_position());
        let v_indicator_position = chars_of(c.indicator_position.as_ini_value());
        push_entry(&mut s, &k_indicator_position, &v_indicator_position, Ghost(lines));
        proof {
            lines = lines.push(ini_entry(key_indicator_position(), position_ini_spec(c.indicator_position)));
        }
        let k_indicator_text_color = ['I', 'n', 'd', 'i', 'c', 'a', 't', 'o', 'r', 'T', 'e', 'x', 't', 'C', 'o', 'l', 'o', 'r'];
        assert(k_indicator_text_color@ == key_indicator_text_color());
        let t_indicator_text_color = c.indicator_text_color.as_rrggbbaa();
        let v_indicator_text_color = chars_of(t_indicator_text_color.as_str());
        push_entry(&mut s, &k_indicator_text_color, &v_indicator_text_color, Ghost(lines));
        proof {
            lines = lines.push(ini_entry(key_indicator_text_color(), rrggbbaa_spec(c.indicator_text_color)));
        }
        let k_english_background_color = ['E', 'n', 'g', 'l', 'i', 's', 'h', 'B', 'a', 'c', 'k', 'g', 'r', 'o', 'u', 'n', 'd', 'C', 'o', 'l', 'o', 'r'];
        assert(k_english_background_color@ == key_english_background_color());
        let t_english_background_color = c.english_background_color.as_rrggbbaa();
        let v_english_background_color = chars_of(t_english_background_color.as_str());
        push_entry(&mut s, &k_english_background_color, &v_english_background_color, Ghost(lines));
        proof {
            lines = lines.push(ini_entry(key_english_background_color(), rrggbbaa_spec(c.english_background_color)));
        }
        let k_japanese_background_color = ['J', 'a', 'p', 'a', 'n', 'e', 's', 'e', 'B', 'a', 'c', 'k', 'g', 'r', 'o', 'u', 'n', 'd', 'C', 'o', 'l', 'o', 'r'];
        assert(k_japanese_background_color@ == key_japanese_background_color());
        let t_japanese_background_color = c.japanese_background_color.as_rrggbbaa();
        let v_japanese_background_color = chars_of(t_japanese_background_color.as_str());
        push_entry(&mut s, &k_japanese_background_color, &v_japanese_background_color, Ghost(lines));
        proof {
            lines = lines.push(ini_entry(key_japanese_background_color(), rrggbbaa_spec(c.japanese_background_color)));
        }
        let k_korean_background_color = ['K', 'o', 'r', 'e', 'a', 'n', 'B', 'a', 'c', 'k', 'g', 'r', 'o', 'u', 'n', 'd', 'C', 'o', 'l', 'o', 'r'];
        assert(k_korean_background_color@ == key_korean_background_color());
        let t_korean_background_color = c.korean_background_color.as_rrggbbaa();
        let v_korean_background_color = chars_of(t_korean_background_color.as_str());
        push_entry(&mut s, &k_korean_background_color, &v_korean_background_color, Ghost(lines));
        proof {
            lines = lines.push(ini_entry(key_korean_background_color(), rrggbbaa_spec(c.korean_background_color)));
        }
        assert(lines =~= ini_lines_spec(c));
        assert(s@ =~= ini_text_spec(c));
        s
    }
}

} // verus!

verus! {

/// Whether every character of `s` is an ASCII letter.
pub open spec fn all_letters(s: Seq<char>) -> bool {
    forall|j: int|
        0 <= j < s.len() ==> ('a' <= #[trigger] s[j] && s[j] <= 'z') || ('A' <= s[j] && s[j]
            <= 'Z')
}

/// Whether every character of `s` is an ASCII letter or digit.
pub open spec fn all_alphanumeric(s: Seq<char>) -> bool {
    forall|j: int|
        0 <= j < s.len() ==> ('a' <= #[trigger] s[j] && s[j] <= 'z') || ('A' <= s[j] && s[j]
            <= 'Z') || ('0' <= s[j] && s[j] <= '9')
}

/// The state after applying each line of `lines` (without its line end).
pub open spec fn ini_apply_lines(lines: Seq<Seq<char>>, st: (Config, bool)) -> (Config, bool)
    decreases lines.len(),
{
    if lines.len() == 0 {
        st
    } else {
        ini_apply_lines(lines.drop_first(), ini_line(st, lines[0].drop_last()))
    }
}

/// Whether `line` ends with its only `\n`.
pub open spec fn is_single_line(line: Seq<char>) -> bool {
    line.len() > 0 && line.last() == '\n' && find_char(line, '\n', 0) == line.len() - 1
}

proof fn lemma_find_char_shift(p: Seq<char>, r: Seq<char>, c: char, k: int)
    requires
        0 <= k <= r.len(),
    ensures
        find_char(p + r, c, p.len() + k) == p.len() + find_char(r, c, k),
    decreases r.len() - k,
{
    if k < r.len() {
        assert((p + r)[p.len() + k] == r[k]);
        if r[k] != c {
            lemma_find_char_shift(p, r, c, k + 1);
        }
    }
}

proof fn lemma_ini_from_shift(p: Seq<char>, r: Seq<char>, k: int, st: (Config, bool))
    requires
        0 <= k <= r.len(),
    ensures
        ini_from(p + r, p.len() + k, st) == ini_from(r, k, st),
    decreases r.len() - k,
{
    let s = p + r;
    lemma_find_char_shift(p, r, '\n', k);
    lemma_find_char_bounds(r, '\n', k);
    let e = find_char(r, '\n', k);
    assert(s.subrange(p.len() + k, p.len() + e) =~= r.subrange(k, e));
    let next = ini_line(st, r.subrange(k, e));
    if e < r.len() {
        lemma_ini_from_shift(p, r, e + 1, next);
    }
}

/// Reading text made of whole lines applies each of its lines in turn.
proof fn lemma_ini_from_lines(lines: Seq<Seq<char>>, st: (Config, bool))
    requires
        forall|i: int| 0 <= i < lines.len() ==> is_single_line(#[trigger] lines[i]),
    ensures
        ini_from(lines.flatten(), 0, st) == ini_apply_lines(lines, st),
    decreases lines.len(),
{
    if lines.len() == 0 {
        let s = lines.flatten();
        assert(s =~= Seq::<char>::empty());
        assert(strip_bom(trim(s.subrange(0, 0))) =~= Seq::<char>::empty());
    } else {
        let first = lines[0];
        let rest = lines.drop_first();
        assert(is_single_line(first));
        assert(forall|i: int| 0 <= i < rest.len() ==> rest[i] == lines[i + 1]);
        let s = first + rest.flatten();
        assert(lines.flatten() == s);
        let e = first.len() - 1;
        lemma_find_char_bounds(first, '\n', 0);
        assert forall|j: int| 0 <= j < e implies s[j] != '\n' by {
            assert(s[j] == first[j]);
        }
        assert(s[e] == first[e]);
        crate::text::lemma_find_char_at(s, '\n', 0, e);
        assert(s.subrange(0, e) =~= first.drop_last());
        let next = ini_line(st, first.drop_last());
        lemma_ini_from_shift(first, rest.flatten(), 0, next);
        lemma_ini_from_lines(rest, next);
    }
}

/// An entry line whose key is letters and whose value has no white space at
/// its ends sets that key to that value.
proof fn lemma_entry_line(st: (Config, bool), key: Seq<char>, value: Seq<char>)
    requires
        st.1,
        key.len() > 0,
        all_letters(key),
        value.len() > 0,
        !is_space(value[0]),
        !is_space(value.last()),
    ensures
        ini_line(st, ini_entry(key, value).drop_last()) == (ini_setting(st.0, key, value), true),
{
    let raw = ini_entry(key, value).drop_last();
    let line = key + seq!['='] + value;
    assert(raw =~= line.push('\r'));
    assert(line.push('\r').drop_last() =~= line);
    assert(line[0] == key[0]);
    assert(line.last() == value.last());
    assert(trim_start(line.push('\r')) == line.push('\r'));
    assert(trim_end(line.push('\r')) == trim_end(line));
    crate::text::lemma_trim_no_space(line);
    assert(trim(raw) == line);
    assert(strip_bom(line) == line);
    assert forall|j: int| 0 <= j < key.len() implies line[j] != '=' by {
        assert(line[j] == key[j]);
    }
    assert(line[key.len() as int] == '=');
    crate::text::lemma_find_char_at(line, '=', 0, key.len() as int);
    assert(line.subrange(0, key.len() as int) =~= key);
    assert(line.subrange(key.len() as int + 1, line.len() as int) =~= value);
    crate::text::lemma_trim_no_space(key);
    crate::text::lemma_trim_no_space(value);
}

proof fn lemma_header_line(st: (Config, bool))
    ensures
        ini_line(st, section_header().drop_last()) == (st.0, true),
{
    let raw = section_header().drop_last();
    let line = seq!['[', 'S', 'e', 't', 't', 'i', 'n', 'g', 's', ']'];
    assert(raw =~= line.push('\r'));
    assert(line.push('\r').drop_last() =~= line);
    assert(trim_start(line.push('\r')) == line.push('\r'));
    assert(trim_end(line.push('\r')) == trim_end(line));
    crate::text::lemma_trim_no_space(line);
    assert(strip_bom(line) == line);
    let inner = line.subrange(1, 9);
    assert(inner =~= seq!['S', 'e', 't', 't', 'i', 'n', 'g', 's']);
    crate::text::lemma_trim_no_space(inner);
    assert(lower_seq(inner) =~= lower_seq(word_settings()));
}

proof fn lemma_single_entry(key: Seq<char>, value: Seq<char>)
    requires
        all_letters(key),
        all_alphanumeric(value),
    ensures
        is_single_line(ini_entry(key, value)),
{
    let e = ini_entry(key, value);
    let n = e.len() - 1;
    assert forall|j: int| 0 <= j < n implies e[j] != '\n' by {
        if j < key.len() {
            assert(e[j] == key[j]);
        } else if j == key.len() {
        } else if j < key.len() + 1 + value.len() {
            assert(e[j] == value[j - key.len() - 1]);
        } else {
            assert(e[j] == '\r');
        }
    }
    crate::text::lemma_find_char_at(e, '\n', 0, n);
}

proof fn lemma_bool_value(b: bool, current: bool)
    ensures
        bool_setting(bool_digit(b), current) == b,
        all_alphanumeric(bool_digit(b)),
        bool_digit(b).len() > 0,
        !is_space(bool_digit(b)[0]),
        !is_space(bool_digit(b).last()),
{
    let d = bool_digit(b);
    assert(crate::text::unsigned_part(d) == d);
    assert(d.drop_last() =~= Seq::<char>::empty());
    assert(crate::text::digits_value(d.drop_last()) == 0);
    assert(d.last() == if b {
        '1'
    } else {
        '0'
    });
    assert(crate::text::digits_value(d) == if b {
        1int
    } else {
        0int
    });
}

proof fn lemma_position_value(p: IndicatorPosition, current: IndicatorPosition)
    ensures
        position_setting(position_ini_spec(p), current) == p,
        all_alphanumeric(position_ini_spec(p)),
        position_ini_spec(p).len() > 0,
        !is_space(position_ini_spec(p)[0]),
        !is_space(position_ini_spec(p).last()),
{
    lemma_position_round_trip(p);
}

proof fn lemma_color_value(c: RgbaColor, current: RgbaColor)
    ensures
        color_setting(rrggbbaa_spec(c), current) == c,
        all_alphanumeric(rrggbbaa_spec(c)),
        rrggbbaa_spec(c).len() > 0,
        !is_space(rrggbbaa_spec(c)[0]),
        !is_space(rrggbbaa_spec(c).last()),
{
    lemma_rgba_round_trip(c);
    lemma_hex2(c.red);
    lemma_hex2(c.green);
    lemma_hex2(c.blue);
    lemma_hex2(c.alpha);
    let s = rrggbbaa_spec(c);
    assert(s =~= seq![
        hex2(c.red)[0],
        hex2(c.red)[1],
        hex2(c.green)[0],
        hex2(c.green)[1],
        hex2(c.blue)[0],
        hex2(c.blue)[1],
        hex2(c.alpha)[0],
        hex2(c.alpha)[1],
    ]);
}

proof fn lemma_key_play_english_sound(c: Config, value: Seq<char>)
    ensures
        ini_setting(c, key_play_english_sound(), value) == (Config { play_english_sound: bool_setting(value, c.play_english_sound), ..c }),
        key_play_english_sound().len() > 0,
        all_letters(key_play_english_sound()),
{
}

proof fn lemma_key_play_japanese_sound(c: Config, value: Seq<char>)
    ensures
        ini_setting(c, key_play_japanese_sound(), value) == (Config { play_japanese_sound: bool_setting(value, c.play_japanese_sound), ..c }),
        key_play_japanese_sound().len() > 0,
        all_letters(key_play_japanese_sound()),
{
    assert(lower_seq(key_play_japanese_sound())[0] != lower_seq(key_play_english_sound())[0] || lower_seq(key_play_japanese_sound()).len() != lower_seq(key_play_english_sound()).len());
}

proof fn lemma_key_play_korean_sound(c: Config, value: Seq<char>)
    ensures
        ini_setting(c, key_play_korean_sound(), value) == (Config { play_korean_sound: bool_setting(value, c.play_korean_sound), ..c }),
        key_play_korean_sound().len() > 0,
        all_letters(key_play_korean_sound()),
{
    assert(lower_seq(key_play_korean_sound())[0] != lower_seq(key_play_english_sound())[0] || lower_seq(key_play_korean_sound()).len() != lower_seq(key_play_english_sound()).len());
    assert(lower_seq(key_play_korean_sound())[0] != lower_seq(key_play_japanese_sound())[0] || lower_seq(key_play_korean_sound()).len() != lower_seq(key_play_japanese_sound()).len());
}

proof fn lemma_key_play_sounds(c: Config, value: Seq<char>)
    ensures
        ini_setting(c, key_play_sounds(), value) == (Config { play_sounds: bool_setting(value, c.play_sounds), ..c }),
        key_play_sounds().len() > 0,
        all_letters(key_play_sounds()),
{
    assert(lower_seq(key_play_sounds())[0] != lower_seq(key_play_english_sound())[0] || lower_seq(key_play_sounds()).len() != lower_seq(key_play_english_sound()).len());
    assert(lower_seq(key_play_sounds())[0] != lower_seq(key_play_japanese_sound())[0] || lower_seq(key_play_sounds()).len() != lower_seq(key_play_japanese_sound()).len());
    assert(lower_seq(key_play_sounds())[0] != lower_seq(key_play_korean_sound())[0] || lower_seq(key_play_sounds()).len() != lower_seq(key_play_korean_sound()).len());
}

proof fn lemma_key_indicator_position(c: Config, value: Seq<char>)
    ensures
        ini_setting(c, key_indicator_position(), value) == (Config { indicator_position: position_setting(value, c.indicator_position), ..c }),
        key_indicator_position().len() > 0,
        all_letters(key_indicator_position()),
{
    assert(lower_seq(key_indicator_position())[0] != lower_seq(key_play_english_sound())[0] || lower_seq(key_indicator_position()).len() != lower_seq(key_play_english_sound()).len());
    assert(lower_seq(key_indicator_position())[0] != lower_seq(key_play_japanese_sound())[0] || lower_seq(key_indicator_position()).len() != lower_seq(key_play_japanese_sound()).len());
    assert(lower_seq(key_indicator_position())[0] != lower_seq(key_play_korean_sound())[0] || lower_seq(key_indicator_position()).len() != lower_seq(key_play_korean_sound()).len());
    assert(lower_seq(key_indicator_position())[0] != lower_seq(key_play_sounds())[0] || lower_seq(key_indicator_position()).len() != lower_seq(key_play_sounds()).len());
}

proof fn lemma_key_indicator_text_color(c: Config, value: Seq<char>)
    ensures
        ini_setting(c, key_indicator_text_color(), value) == (Config { indicator_text_color: color_setting(value, c.indicator_text_color), ..c }),
        key_indicator_text_color().len() > 0,
        all_letters(key_indicator_text_color()),
{
    assert(lower_seq(key_indicator_text_color())[0] != lower_seq(key_play_english_sound())[0] || lower_seq(key_indicator_text_color()).len() != lower_seq(key_play_english_sound()).len());
    assert(lower_seq(key_indicator_text_color())[0] != lower_seq(key_play_japanese_sound())[0] || lower_seq(key_indicator_text_color()).len() != lower_seq(key_play_japanese_sound()).len());
    assert(lower_seq(key_indicator_text_color())[0] != lower_seq(key_play_korean_sound())[0] || lower_seq(key_indicator_text_color()).len() != lower_seq(key_play_korean_sound()).len());
    assert(lower_seq(key_indicator_text_color())[0] != lower_seq(key_play_sounds())[0] || lower_seq(key_indicator_text_color()).len() != lower_seq(key_play_sounds()).len());
    assert(lower_seq(key_indicator_text_color())[0] != lower_seq(key_indicator_position())[0] || lower_seq(key_indicator_text_color()).len() != lower_seq(key_indicator_position()).len());
}

proof fn lemma_key_english_background_color(c: Config, value: Seq<char>)
    ensures
        ini_setting(c, key_english_background_color(), value) == (Config { english_background_color: color_setting(value, c.english_background_color), ..c }),
        key_english_background_color().len() > 0,
        all_letters(key_english_background_color()),
{
    assert(lower_seq(key_english_background_color())[0] != lower_seq(key_play_english_sound())[0] || lower_seq(key_english_background_color()).len() != lower_seq(key_play_english_sound()).len());
    assert(lower_seq(key_english_background_color())[0] != lower_seq(key_play_japanese_sound())[0] || lower_seq(key_english_background_color()).len() != lower_seq(key_play_japanese_sound()).len());
    assert(lower_seq(key_english_background_color())[0] != lower_seq(key_play_korean_sound())[0] || lower_seq(key_english_background_color()).len() != lower_seq(key_play_korean_sound()).len());
    assert(lower_seq(key_english_background_color())[0] != lower_seq(key_play_sounds())[0] || lower_seq(key_english_background_color()).len() != lower_seq(key_play_sounds()).len());
    assert(lower_seq(key_english_background_color())[0] != lower_seq(key_indicator_position())[0] || lower_seq(key_english_background_color()).len() != lower_seq(key_indicator_position()).len());
    assert(lower_seq(key_english_background_color())[0] != lower_seq(key_indicator_text_color())[0] || lower_seq(key_english_background_color()).len() != lower_seq(key_indicator_text_color()).len());
}

proof fn lemma_key_japanese_background_color(c: Config, value: Seq<char>)
    ensures
        ini_setting(c, key_japanese_background_color(), value) == (Config { japanese_background_color: color_setting(value, c.japanese_background_color), ..c }),
        key_japanese_background_color().len() > 0,
        all_letters(key_japanese_background_color()),
{
    assert(lower_seq(key_japanese_background_color())[0] != lower_seq(key_play_english_sound())[0] || lower_seq(key_japanese_background_color()).len() != lower_seq(key_play_english_sound()).len());
    assert(lower_seq(key_japanese_background_color())[0] != lower_seq(key_play_japanese_sound())[0] || lower_seq(key_japanese_background_color()).len() != lower_seq(key_play_japanese_sound()).len());
    assert(lower_seq(key_japanese_background_color())[0] != lower_seq(key_play_korean_sound())[0] || lower_seq(key_japanese_background_color()).len() != lower_seq(key_play_korean_sound()).len());
    assert(lower_seq(key_japanese_background_color())[0] != lower_seq(key_play_sounds())[0] || lower_seq(key_japanese_background_color()).len() != lower_seq(key_play_sounds()).len());
    assert(lower_seq(key_japanese_background_color())[0] != lower_seq(key_indicator_position())[0] || lower_seq(key_japanese_background_color()).len() != lower_seq(key_indicator_position()).len());
    assert(lower_seq(key_japanese_background_color())[0] != lower_seq(key_indicator_text_color())[0] || lower_seq(key_japanese_background_color()).len() != lower_seq(key_indicator_text_color()).len());
    assert(lower_seq(key_japanese_background_color())[0] != lower_seq(key_english_background_color())[0] || lower_seq(key_japanese_background_color()).len() != lower_seq(key_english_background_color()).len());
}

proof fn lemma_key_korean_background_color(c: Config, value: Seq<char>)
    ensures
        ini_setting(c, key_korean_background_color(), value) == (Config { korean_background_color: color_setting(value, c.korean_background_color), ..c }),
        key_korean_background_color().len() > 0,
        all_letters(key_korean_background_color()),
{
    assert(lower_seq(key_korean_background_color())[0] != lower_seq(key_play_english_sound())[0] || lower_seq(key_korean_background_color()).len() != lower_seq(key_play_english_sound()).len());
    assert(lower_seq(key_korean_background_color())[0] != lower_seq(key_play_japanese_sound())[0] || lower_seq(key_korean_background_color()).len() != lower_seq(key_play_japanese_sound()).len());
    assert(lower_seq(key_korean_background_color())[0] != lower_seq(key_play_korean_sound())[0] || lower_seq(key_korean_background_color()).len() != lower_seq(key_play_korean_sound()).len());
    assert(lower_seq(key_korean_background_color())[0] != lower_seq(key_play_sounds())[0] || lower_seq(key_korean_background_color()).len() != lower_seq(key_play_sounds()).len());
    assert(lower_seq(key_korean_background_color())[0] != lower_seq(key_indicator_position())[0] || lower_seq(key_korean_background_color()).len() != lower_seq(key_indicator_position()).len());
    assert(lower_seq(key_korean_background_color())[0] != lower_seq(key_indicator_text_color())[0] || lower_seq(key_korean_background_color()).len() != lower_seq(key_indicator_text_color()).len());
    assert(lower_seq(key_korean_background_color())[0] != lower_seq(key_english_background_color())[0] || lower_seq(key_korean_background_color()).len() != lower_seq(key_english_background_color()).len());
    assert(lower_seq(key_korean_background_color())[0] != lower_seq(key_japanese_background_color())[0] || lower_seq(key_korean_background_color()).len() != lower_seq(key_japanese_background_color()).len());
}

proof fn lemma_header_single()
    ensures
        is_single_line(section_header()),
{
    reveal_with_fuel(find_char, 13);
    assert(find_char(section_header(), '\n', 0) == 11);
}

proof fn lemma_lines_single(c: Config)
    ensures
        forall|i: int|
            0 <= i < ini_lines_spec(c).len() ==> is_single_line(#[trigger] ini_lines_spec(c)[i]),
{
    let lines = ini_lines_spec(c);
    lemma_header_single();
    lemma_bool_value(c.play_english_sound, c.play_english_sound);
    lemma_single_entry(key_play_english_sound(), bool_digit(c.play_english_sound));
    lemma_bool_value(c.play_japanese_sound, c.play_japanese_sound);
    lemma_single_entry(key_play_japanese_sound(), bool_digit(c.play_japanese_sound));
    lemma_bool_value(c.play_korean_sound, c.play_korean_sound);
    lemma_single_entry(key_play_korean_sound(), bool_digit(c.play_korean_sound));
    lemma_bool_value(c.play_sounds, c.play_sounds);
    lemma_single_entry(key_play_sounds(), bool_digit(c.play_sounds));
    lemma_position_value(c.indicator_position, c.indicator_position);
    lemma_single_entry(key_indicator_position(), position_ini_spec(c.indicator_position));
    lemma_color_value(c.indicator_text_color, c.indicator_text_color);
    lemma_single_entry(key_indicator_text_color(), rrggbbaa_spec(c.indicator_text_color));
    lemma_color_value(c.english_background_color, c.english_background_color);
    lemma_single_entry(key_english_background_color(), rrggbbaa_spec(c.english_background_color));
    lemma_color_value(c.japanese_background_color, c.japanese_background_color);
    lemma_single_entry(key_japanese_background_color(), rrggbbaa_spec(c.japanese_background_color));
    lemma_color_value(c.korean_background_color, c.korean_background_color);
    lemma_single_entry(key_korean_background_color(), rrggbbaa_spec(c.korean_background_color));
    assert(forall|i: int| 0 <= i < lines.len() ==> is_single_line(#[trigger] lines[i]));
}

proof fn lemma_apply_entry_at(
    lines: Seq<Seq<char>>,
    k: int,
    st: (Config, bool),
    key: Seq<char>,
    value: Seq<char>,
)
    requires
        0 <= k < lines.len(),
        lines[k] == ini_entry(key, value),
        st.1,
        key.len() > 0,
        all_letters(key),
        value.len() > 0,
        !is_space(value[0]),
        !is_space(value.last()),
    ensures
        ini_apply_lines(lines.subrange(k, lines.len() as int), st) == ini_apply_lines(
            lines.subrange(k + 1, lines.len() as int),
            (ini_setting(st.0, key, value), true),
        ),
{
    let r = lines.subrange(k, lines.len() as int);
    assert(r.drop_first() =~= lines.subrange(k + 1, lines.len() as int));
    lemma_entry_line(st, key, value);
}

proof fn lemma_apply_all(c: Config)
    ensures
        ini_apply_lines(ini_lines_spec(c), (default_config(), false)) == (c, true),
{
    let lines = ini_lines_spec(c);
    let n = lines.len() as int;
    let st0 = (default_config(), false);
    lemma_header_line(st0);
    assert(lines.subrange(0, n) =~= lines);
    assert(lines.drop_first() =~= lines.subrange(1, n));
    let c0 = default_config();
    assert(ini_apply_lines(lines, st0) == ini_apply_lines(lines.subrange(1, n), (c0, true)));
    lemma_bool_value(c.play_english_sound, c0.play_english_sound);
    lemma_key_play_english_sound(c0, bool_digit(c.play_english_sound));
    let c1 = Config { play_english_sound: c.play_english_sound, ..c0 };
    lemma_apply_entry_at(lines, 1, (c0, true), key_play_english_sound(), bool_digit(c.play_english_sound));
    lemma_bool_value(c.play_japanese_sound, c1.play_japanese_sound);
    lemma_key_play_japanese_sound(c1, bool_digit(c.play_japanese_sound));
    let c2 = Config { play_japanese_sound: c.play_japanese_sound, ..c1 };
    lemma_apply_entry_at(lines, 2, (c1, true), key_play_japanese_sound(), bool_digit(c.play_japanese_sound));
    lemma_bool_value(c.play_korean_sound, c2.play_korean_sound);
    lemma_key_play_korean_sound(c2, bool_digit(c.play_korean_sound));
    let c3 = Config { play_korean_sound: c.play_korean_sound, ..c2 };
    lemma_apply_entry_at(lines, 3, (c2, true), key_play_korean_sound(), bool_digit(c.play_korean_sound));
    lemma_bool_value(c.play_sounds, c3.play_sounds);
    lemma_key_play_sounds(c3, bool_digit(c.play_sounds));
    let c4 = Config { play_sounds: c.play_sounds, ..c3 };
    lemma_apply_entry_at(lines, 4, (c3, true), key_play_sounds(), bool_digit(c.play_sounds));
    lemma_position_value(c.indicator_position, c4.indicator_position);
    lemma_key_indicator_position(c4, position_ini_spec(c.indicator_position));
    let c5 = Config { indicator_position: c.indicator_position, ..c4 };
    lemma_apply_entry_at(lines, 5, (c4, true), key_indicator_position(), position_ini_spec(c.indicator_position));
    lemma_color_value(c.indicator_text_color, c5.indicator_text_color);
    lemma_key_indicator_text_color(c5, rrggbbaa_spec(c.indicator_text_color));
    let c6 = Config { indicator_text_color: c.indicator_text_color, ..c5 };
    lemma_apply_entry_at(lines, 6, (c5, true), key_indicator_text_color(), rrggbbaa_spec(c.indicator_text_color));
    lemma_color_value(c.english_background_color, c6.english_background_color);
    lemma_key_english_background_color(c6, rrggbbaa_spec(c.english_background_color));
    let c7 = Config { english_background_color: c.english_background_color, ..c6 };
    lemma_apply_entry_at(lines, 7, (c6, true), key_english_background_color(), rrggbbaa_spec(c.english_background_color));
    lemma_color_value(c.japanese_background_color, c7.japanese_background_color);
    lemma_key_japanese_background_color(c7, rrggbbaa_spec(c.japanese_background_color));
    let c8 = Config { japanese_background_color: c.japanese_background_color, ..c7 };
    lemma_apply_entry_at(lines, 8, (c7, true), key_japanese_background_color(), rrggbbaa_spec(c.japanese_background_color));
    lemma_color_value(c.korean_background_color, c8.korean_background_color);
    lemma_key_korean_background_color(c8, rrggbbaa_spec(c.korean_background_color));
    let c9 = Config { korean_background_color: c.korean_background_color, ..c8 };
    lemma_apply_entry_at(lines, 9, (c8, true), key_korean_background_color(), rrggbbaa_spec(c.korean_background_color));
    assert(lines.subrange(n, n) =~= Seq::<Seq<char>>::empty());
    assert(c9 == c);
}

/// Reading back the settings file written for `c` gives `c`: what `save`
/// writes, `load` reads unchanged.
pub proof fn lemma_ini_round_trip(c: Config)
    ensures
        ini_parse_spec(ini_text_spec(c)) == c,
{
    lemma_lines_single(c);
    lemma_ini_from_lines(ini_lines_spec(c), (default_config(), false));
    lemma_apply_all(c);
}

} // verus!

verus! {

impl Config {
    /// The settings that a settings file with these bytes gives.
    pub fn from_ini_bytes(bytes: &[u8]) -> (config: Self)
        ensures
            config == ini_parse_spec(decode_ini_spec(bytes@)),
            !has_utf16_bom(bytes@) && valid_utf8(bytes@) ==> config == ini_parse_spec(
                decode_utf8(bytes@),
            ),
    {
        let text = decode_ini_text(bytes);
        Config::from_ini_text(text.as_str())
    }

    /// The bytes of the settings file that holds these settings, in UTF-8.
    pub fn to_ini_bytes(&self) -> (bytes: Vec<u8>)
        ensures
            bytes@ == encode_utf8(ini_text_spec(*self)),
    {
        let text = self.to_ini_text();
        text.as_str().as_bytes_vec()
    }
}

/// The bytes written for `c` are UTF-8 without a byte order mark, and reading
/// them back gives `c`: `Config::from_ini_bytes(&c.to_ini_bytes()) == c`.
pub proof fn lemma_ini_bytes_round_trip(c: Config)
    ensures
        !has_utf16_bom(encode_utf8(ini_text_spec(c))),
        valid_utf8(encode_utf8(ini_text_spec(c))),
        ini_parse_spec(decode_utf8(encode_utf8(ini_text_spec(c)))) == c,
{
    let t = ini_text_spec(c);
    let lines = ini_lines_spec(c);
    assert(lines.flatten() == lines[0] + lines.drop_first().flatten());
    assert(t[0] == '[');
    encode_utf8_valid_utf8(t);
    encode_utf8_decode_utf8(t);
    let v: u32 = 0x5b;
    assert(t[0] as u32 == v);
    assert(0x5bu32 & 0x7fu32 == 0x5bu32) by (bit_vector);
    assert(encode_utf8(t) == vstd::utf8::encode_scalar(v) + encode_utf8(t.drop_first()));
    assert(encode_utf8(t)[0] == 0x5b);
    lemma_ini_round_trip(c);
}

} // verus!
