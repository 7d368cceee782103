//! What the caret badge shows for an IME state, and how its pixels are
//! composed from the rendered glyph's coverage and the configured colors.
use vstd::prelude::*;

use crate::config::{Config, RgbaColor};
use crate::ime::{ImeSnapshot, Validity};

verus! {

/// The kind of input an IME state stands for.
#[derive(Clone, Copy, Debug, PartialEq, Eq, Structural)]
pub enum ImeKind {
    English,
    JapaneseHiragana,
    JapaneseKatakana,
    Korean,
    Unsupported,
}

/// Conversion modes of the Japanese IME that mean Hiragana input.
pub open spec fn is_hiragana_mode(mode: u32) -> bool {
    mode == 9 || mode == 25
}

/// Conversion modes of the Japanese IME that mean Katakana input.
pub open spec fn is_katakana_mode(mode: u32) -> bool {
    mode == 3 || mode == 11 || mode == 19 || mode == 27
}

/// The kind of an IME state: English whenever the IME is closed; for the
/// Korean language, Korean exactly when the native-mode bit is set; for
/// Japanese, Hiragana or Katakana by the conversion mode and English
/// otherwise; Chinese is unsupported; for any other language the mode alone
/// decides, Japanese modes first and then the native-mode bit.
pub open spec fn classify_ime_spec(snapshot: ImeSnapshot) -> ImeKind {
    let primary = snapshot.language_id % 1024;
    let mode = snapshot.conversion_mode;
    if !snapshot.is_open {
        ImeKind::English
    } else if primary == 0x12 {
        if mode % 2 == 1 {
            ImeKind::Korean
        } else {
            ImeKind::English
        }
    } else if primary == 0x11 {
        if is_hiragana_mode(mode) {
            ImeKind::JapaneseHiragana
        } else if is_katakana_mode(mode) {
            ImeKind::JapaneseKatakana
        } else {
            ImeKind::English
        }
    } else if primary == 0x04 {
        ImeKind::Unsupported
    } else if is_hiragana_mode(mode) {
        ImeKind::JapaneseHiragana
    } else if is_katakana_mode(mode) {
        ImeKind::JapaneseKatakana
    } else if mode % 2 == 1 {
        ImeKind::Korean
    } else {
        ImeKind::English
    }
}

/// The kind of input that an IME state stands for.
pub fn classify_ime(snapshot: ImeSnapshot) -> (kind: ImeKind)
    ensures
        kind == classify_ime_spec(snapshot),
{
    let language = snapshot.language_id;
    let primary_language = language & 0x03ff;
    assert(primary_language == language % 1024) by (bit_vector)
        requires
            primary_language == language & 0x03ff,
    ;
    let mode = snapshot.conversion_mode;
    let native = mode & 1;
    assert(native == mode % 2) by (bit_vector)
        requires
            native == mode & 1,
    ;
    if !snapshot.is_open {
        return ImeKind::English;
    }
    if primary_language == 0x12 {
        if native != 0 {
            ImeKind::Korean
        } else {
            ImeKind::English
        }
    } else if primary_language == 0x11 {
        if mode == 9 || mode == 25 {
            ImeKind::JapaneseHiragana
        } else if mode == 3 || mode == 11 || mode == 19 || mode == 27 {
            ImeKind::JapaneseKatakana
        } else {
            ImeKind::English
        }
    } else if primary_language == 0x04 {
        ImeKind::Unsupported
    } else if mode == 9 || mode == 25 {
        ImeKind::JapaneseHiragana
    } else if mode == 3 || mode == 11 || mode == 19 || mode == 27 {
        ImeKind::JapaneseKatakana
    } else if native != 0 {
        ImeKind::Korean
    } else {
        ImeKind::English
    }
}

/// `left * right / 255`, rounded to nearest.
pub open spec fn multiply_u8_spec(left: u8, right: u8) -> u8 {
    ((left * right + 127) / 255) as u8
}

/// The product of two 8-bit fractions of 255, rounded to nearest.
pub fn multiply_u8(left: u8, right: u8) -> (r: u8)
    ensures
        r == multiply_u8_spec(left, right),
        r as int == (left * right + 127) / 255,
{
    let l = left as u16;
    let rr = right as u16;
    assert(l * rr <= 255 * 255) by (nonlinear_arith)
        requires
            l <= 255,
            rr <= 255,
    ;
    let value = (l * rr + 127) / 255;
    assert(value <= 255);
    value as u8
}

/// The weighted mean of `from` and `to`, `amount` of 255 towards `to`,
/// rounded to nearest.
pub open spec fn interpolate_u8_spec(from: u8, to: u8, amount: u8) -> int {
    (from * (255 - amount) + to * amount + 127) / 255
}

/// A step of `amount / 255` from `from` towards `to`.
pub fn interpolate_u8(from: u8, to: u8, amount: u8) -> (r: u8)
    ensures
        r as int == interpolate_u8_spec(from, to, amount),
{
    let inverse = 0xffu32 - amount as u32;
    let f = from as u32;
    let t = to as u32;
    let a = amount as u32;
    assert(f * inverse + t * a <= 255 * 255) by (nonlinear_arith)
        requires
            f <= 255,
            t <= 255,
            a <= 255,
            inverse == 255 - a,
    ;
    let value = (f * inverse + t * a + 127) / 255;
    assert(value <= 255);
    value as u8
}

/// A premultiplied BGRA pixel packed as the layered window wants it: blue in
/// the low byte, then green, red and alpha.
pub open spec fn pack_bgra(blue: int, green: int, red: int, alpha: int) -> int {
    blue + 256 * green + 65536 * red + 16777216 * alpha
}

/// The pixel of a badge whose glyph covers `coverage` of 255: the text and
/// background colors, each premultiplied by its own alpha, mixed by coverage.
pub open spec fn compose_badge_pixel_spec(text: RgbaColor, background: RgbaColor, coverage: u8) -> int {
    pack_bgra(
        interpolate_u8_spec(
            multiply_u8_spec(background.blue, background.alpha),
            multiply_u8_spec(text.blue, text.alpha),
            coverage,
        ),
        interpolate_u8_spec(
            multiply_u8_spec(background.green, background.alpha),
            multiply_u8_spec(text.green, text.alpha),
            coverage,
        ),
        interpolate_u8_spec(
            multiply_u8_spec(background.red, background.alpha),
            multiply_u8_spec(text.red, text.alpha),
            coverage,
        ),
        interpolate_u8_spec(background.alpha, text.alpha, coverage),
    )
}

/// One badge pixel for a glyph coverage.
pub fn compose_badge_pixel(text: RgbaColor, background: RgbaColor, text_coverage: u8) -> (pixel: u32)
    ensures
        pixel as int == compose_badge_pixel_spec(text, background, text_coverage),
{
    let alpha = interpolate_u8(background.alpha, text.alpha, text_coverage);
    let red = interpolate_u8(
        multiply_u8(background.red, background.alpha),
        multiply_u8(text.red, text.alpha),
        text_coverage,
    );
    let green = interpolate_u8(
        multiply_u8(background.green, background.alpha),
        multiply_u8(text.green, text.alpha),
        text_coverage,
    );
    let blue = interpolate_u8(
        multiply_u8(background.blue, background.alpha),
        multiply_u8(text.blue, text.alpha),
        text_coverage,
    );
    let (b, g, r, a) = (blue as u32, green as u32, red as u32, alpha as u32);
    let pixel = b | (g << 8) | (r << 16) | (a << 24);
    assert(pixel == b + 256 * g + 65536 * r + 16777216 * a) by (bit_vector)
        requires
            pixel == b | (g << 8) | (r << 16) | (a << 24),
            b < 256,
            g < 256,
            r < 256,
            a < 256,
    ;
    pixel
}

/// The glyph coverage of a pixel that the text was drawn into, white on
/// black: the mean of its three color bytes, rounded.
pub open spec fn pixel_coverage_spec(pixel: u32) -> int {
    ((pixel % 256) + ((pixel / 256) % 256) + ((pixel / 65536) % 256) + 1) / 3
}

/// The coverage of one drawn pixel.
pub fn pixel_coverage(pixel: u32) -> (coverage: u8)
    ensures
        coverage as int == pixel_coverage_spec(pixel),
{
    let blue = pixel & 0xff;
    let green = (pixel >> 8) & 0xff;
    let red = (pixel >> 16) & 0xff;
    assert(blue == pixel % 256 && green == (pixel / 256) % 256 && red == (pixel / 65536) % 256)
        by (bit_vector)
        requires
            blue == pixel & 0xff,
            green == (pixel >> 8) & 0xff,
            red == (pixel >> 16) & 0xff,
    ;
    let sum = (red + green + blue + 1) / 3;
    assert(sum <= 255);
    sum as u8
}

/// Turns the white-on-black glyph drawn into `pixels` into the badge's
/// premultiplied colors, pixel by pixel.
pub fn compose_badge_pixels(pixels: &mut Vec<u32>, text: RgbaColor, background: RgbaColor)
    ensures
        final(pixels)@.len() == old(pixels)@.len(),
        forall|i: int|
            0 <= i < old(pixels)@.len() ==> #[trigger] final(pixels)@[i] as int
                == compose_badge_pixel_spec(
                text,
                background,
                pixel_coverage_spec(old(pixels)@[i]) as u8,
            ),
{
    let n = pixels.len();
    let mut i: usize = 0;
    while i < n
        invariant
            n == old(pixels)@.len(),
            pixels@.len() == n,
            i <= n,
            forall|k: int| i <= k < n ==> #[trigger] pixels@[k] == old(pixels)@[k],
            forall|k: int|
                0 <= k < i ==> #[trigger] pixels@[k] as int == compose_badge_pixel_spec(
                    text,
                    background,
                    pixel_coverage_spec(old(pixels)@[k]) as u8,
                ),
        decreases n - i,
    {
        let coverage = pixel_coverage(pixels[i]);
        let composed = compose_badge_pixel(text, background, coverage);
        pixels.set(i, composed);
        i = i + 1;
    }
}

/// The glyph and background of the badge for an input kind, `None` for a
/// kind that shows no badge: 가 on the Korean color, ひ or カ on the Japanese
/// color, and `A` (Caps Lock on) or `a` on the English color.
pub open spec fn badge_appearance_spec(kind: ImeKind, caps: bool, config: Config) -> Option<(u16, RgbaColor)> {
    match kind {
        ImeKind::Korean => Some((0xac00u16, config.korean_background_color)),
        ImeKind::JapaneseHiragana => Some((0x3072u16, config.japanese_background_color)),
        ImeKind::JapaneseKatakana => Some((0x30abu16, config.japanese_background_color)),
        ImeKind::English => if caps {
            Some((0x41u16, config.english_background_color))
        } else {
            Some((0x61u16, config.english_background_color))
        },
        ImeKind::Unsupported => None,
    }
}

/// The badge's UTF-16 glyph and background color for an input kind.
pub fn badge_appearance(kind: ImeKind, caps: bool, config: &Config) -> (r: Option<(u16, RgbaColor)>)
    ensures
        r == badge_appearance_spec(kind, caps, *config),
{
    match kind {
        ImeKind::Korean => Some((0xac00u16, config.korean_background_color)),
        ImeKind::JapaneseHiragana => Some((0x3072u16, config.japanese_background_color)),
        ImeKind::JapaneseKatakana => Some((0x30abu16, config.japanese_background_color)),
        ImeKind::English => if caps {
            Some((0x41u16, config.english_background_color))
        } else {
            Some((0x61u16, config.english_background_color))
        },
        ImeKind::Unsupported => None,
    }
}

/// The sound files that announce a change of input kind.
#[derive(Clone, Copy, Debug, PartialEq, Eq, Structural)]
pub enum KindSound {
    English,
    Japanese,
    Korean,
}

impl KindSound {
    /// The wave file's name, looked up beside the executable.
    pub fn file_name(self) -> (r: &'static str)
        ensures
            r@ == match self {
                KindSound::English => "IMEE.wav"@,
                KindSound::Japanese => "IMEJ.wav"@,
                KindSound::Korean => "IMEK.wav"@,
            },
    {
        match self {
            KindSound::English => "IMEE.wav",
            KindSound::Japanese => "IMEJ.wav",
            KindSound::Korean => "IMEK.wav",
        }
    }
}

/// The sound for a kind when its language's sound is enabled; none for an
/// unsupported kind.
pub open spec fn kind_sound_spec(config: Config, kind: ImeKind) -> Option<KindSound> {
    match kind {
        ImeKind::English => if config.play_english_sound {
            Some(KindSound::English)
        } else {
            None
        },
        ImeKind::JapaneseHiragana | ImeKind::JapaneseKatakana => if config.play_japanese_sound {
            Some(KindSound::Japanese)
        } else {
            None
        },
        ImeKind::Korean => if config.play_korean_sound {
            Some(KindSound::Korean)
        } else {
            None
        },
        ImeKind::Unsupported => None,
    }
}

/// The sound that a change to `kind` plays, if its language's sound is on.
pub fn kind_sound(config: &Config, kind: ImeKind) -> (r: Option<KindSound>)
    ensures
        r == kind_sound_spec(*config, kind),
{
    match kind {
        ImeKind::English => if config.play_english_sound {
            Some(KindSound::English)
        } else {
            None
        },
        ImeKind::JapaneseHiragana | ImeKind::JapaneseKatakana => if config.play_japanese_sound {
            Some(KindSound::Japanese)
        } else {
            None
        },
        ImeKind::Korean => if config.play_korean_sound {
            Some(KindSound::Korean)
        } else {
            None
        },
        ImeKind::Unsupported => None,
    }
}

/// What the indicator last showed, the kind and the Caps Lock state, and
/// since when (nanoseconds on a monotonic clock) the IME state has been
/// unknown, with whether that already made it forget the kind.
#[derive(Clone, Copy, Debug, PartialEq, Eq, Structural)]
pub struct ShownState {
    pub kind: Option<ImeKind>,
    pub caps: bool,
    pub invalid_since_ns: Option<u64>,
    pub cleared_unknown: bool,
}

/// Nothing shown yet.
pub fn initial_shown_state() -> (s: ShownState)
    ensures
        s == (ShownState { kind: None, caps: false, invalid_since_ns: None, cleared_unknown: false }),
{
    ShownState { kind: None, caps: false, invalid_since_ns: None, cleared_unknown: false }
}

/// An unknown IME state that lasts longer than this makes the indicator
/// forget the kind it showed, so that the next known state is announced.
pub const UNKNOWN_CLEAR_DELAY_NS: u64 = 300_000_000;

/// What a new IME state does to the indicator.
#[derive(Clone, Copy, Debug, PartialEq, Eq, Structural)]
pub enum ImeStateOutcome {
    /// The state is unknown: hide the badge.
    Hide,
    /// Show the badge for `kind`, after playing `sound` if there is one.
    Show { kind: ImeKind, sound: Option<KindSound> },
}

/// The sound played on a change of state: only when sounds are on and the
/// kind itself changed, not the Caps Lock state alone.
pub open spec fn transition_sound_spec(config: Config, shown: ShownState, kind: ImeKind) -> Option<KindSound> {
    if config.play_sounds && shown.kind != Some(kind) {
        kind_sound_spec(config, kind)
    } else {
        None
    }
}

/// What is remembered after an unknown state at `now_ns`: when it started,
/// and, once it has lasted longer than the clear delay, no kind.
pub open spec fn unknown_state_spec(shown: ShownState, now_ns: u64) -> ShownState {
    let since = match shown.invalid_since_ns {
        Some(t) => t,
        None => now_ns,
    };
    if !shown.cleared_unknown && since <= now_ns && now_ns - since > UNKNOWN_CLEAR_DELAY_NS {
        ShownState { kind: None, invalid_since_ns: Some(since), cleared_unknown: true, ..shown }
    } else {
        ShownState { invalid_since_ns: Some(since), ..shown }
    }
}

/// Decides what a new IME snapshot at `now_ns` does: an unknown state hides
/// the badge, and after lasting longer than the clear delay forgets the
/// kind; a known one is classified, remembered with the Caps Lock state,
/// and shown, with a sound when the kind changed.
pub fn ime_state_transition(
    config: &Config,
    shown: ShownState,
    snapshot: ImeSnapshot,
    caps: bool,
    now_ns: u64,
) -> (r: (ShownState, ImeStateOutcome))
    ensures
        snapshot.validity == Validity::Invalid ==> r == (
            unknown_state_spec(shown, now_ns),
            ImeStateOutcome::Hide,
        ),
        snapshot.validity != Validity::Invalid ==> r == (
        ShownState {
            kind: Some(classify_ime_spec(snapshot)),
            caps,
            invalid_since_ns: None,
            cleared_unknown: false,
        },
        ImeStateOutcome::Show {
            kind: classify_ime_spec(snapshot),
            sound: transition_sound_spec(*config, shown, classify_ime_spec(snapshot)),
        },
        ),
{
    if snapshot.validity == Validity::Invalid {
        let since = match shown.invalid_since_ns {
            Some(t) => t,
            None => now_ns,
        };
        let next = if !shown.cleared_unknown && since <= now_ns && now_ns - since
            > UNKNOWN_CLEAR_DELAY_NS {
            ShownState { kind: None, invalid_since_ns: Some(since), cleared_unknown: true, ..shown }
        } else {
            ShownState { invalid_since_ns: Some(since), ..shown }
        };
        return (next, ImeStateOutcome::Hide);
    }
    let kind = classify_ime(snapshot);
    let sound = if config.play_sounds && shown.kind != Some(kind) {
        kind_sound(config, kind)
    } else {
        None
    };
    (
        ShownState { kind: Some(kind), caps, invalid_since_ns: None, cleared_unknown: false },
        ImeStateOutcome::Show { kind, sound },
    )
}

/// A state that stays unknown for longer than the clear delay is announced
/// again when it becomes known: the kind is forgotten, so the next known
/// state plays its sound.
pub proof fn lemma_long_unknown_state_announces_again(
    config: Config,
    shown: ShownState,
    first_ns: u64,
    later_ns: u64,
    kind: ImeKind,
)
    requires
        shown.invalid_since_ns is None,
        !shown.cleared_unknown,
        first_ns <= later_ns,
        later_ns - first_ns > UNKNOWN_CLEAR_DELAY_NS,
        config.play_sounds,
    ensures
        ({
            let after = unknown_state_spec(unknown_state_spec(shown, first_ns), later_ns);
            after.kind is None && transition_sound_spec(config, after, kind) == kind_sound_spec(
                config,
                kind,
            )
        }),
{
}

/// The badge window's surface: what was last rendered into it, whether that
/// rendering is still good, and where and whether it shows.
#[derive(Clone, Copy, Debug)]
pub struct BadgeSurface {
    pub kind: Option<ImeKind>,
    pub text: u16,
    pub text_color: RgbaColor,
    pub background_color: RgbaColor,
    pub surface_valid: bool,
    pub size: Option<(i32, i32)>,
    pub position: Option<(i32, i32)>,
    pub visible: bool,
}

/// The surface of a badge window that was never rendered.
pub fn initial_badge_surface(config: &Config) -> (s: BadgeSurface)
    ensures
        s == (BadgeSurface {
            kind: None,
            text: 0x41u16,
            text_color: config.indicator_text_color,
            background_color: config.english_background_color,
            surface_valid: false,
            size: None,
            position: None,
            visible: false,
        }),
{
    BadgeSurface {
        kind: None,
        text: 0x41u16,
        text_color: config.indicator_text_color,
        background_color: config.english_background_color,
        surface_valid: false,
        size: None,
        position: None,
        visible: false,
    }
}

/// The window work that brings the badge up to date.
#[derive(Clone, Copy, Debug, PartialEq, Eq, Structural)]
pub enum BadgeStep {
    /// Hide the badge window.
    Hide,
    /// Render the surface's glyph and colors at this place and size, then
    /// report the outcome with `badge_render_finished`.
    Render { x: i32, y: i32, width: i32, height: i32 },
    /// Move the already rendered window here and show it.
    Move { x: i32, y: i32 },
    /// The window already shows the right thing in the right place.
    Keep,
}

/// The surface after `kind` and its glyph were chosen and the badge sized.
pub open spec fn badge_surface_for_spec(
    surface: BadgeSurface,
    kind: ImeKind,
    text: u16,
    text_color: RgbaColor,
    background_color: RgbaColor,
    width: i32,
    height: i32,
) -> BadgeSurface {
    let appearance_changed = surface.kind != Some(kind) || surface.text != text
        || surface.text_color != text_color || surface.background_color != background_color;
    let size_changed = surface.size != Some((width, height));
    BadgeSurface {
        kind: Some(kind),
        text,
        text_color,
        background_color,
        surface_valid: surface.surface_valid && !appearance_changed && !size_changed,
        ..surface
    }
}

/// The planned surface and window work for an input kind shown at `(x, y)`.
pub open spec fn plan_badge_spec(
    surface: BadgeSurface,
    kind: ImeKind,
    caps: bool,
    config: Config,
    width: i32,
    height: i32,
    x: i32,
    y: i32,
) -> (BadgeSurface, BadgeStep) {
    match badge_appearance_spec(kind, caps, config) {
        None => (BadgeSurface { visible: false, ..surface }, BadgeStep::Hide),
        Some((text, background)) => {
            let next = badge_surface_for_spec(
                surface,
                kind,
                text,
                config.indicator_text_color,
                background,
                width,
                height,
            );
            if !next.surface_valid {
                (next, BadgeStep::Render { x, y, width, height })
            } else if !next.visible || next.position != Some((x, y)) {
                (BadgeSurface { position: Some((x, y)), visible: true, ..next }, BadgeStep::Move { x, y })
            } else {
                (next, BadgeStep::Keep)
            }
        },
    }
}

/// Plans the badge update for an input kind shown at `(x, y)` with the given
/// size. An unsupported kind hides the badge. A new glyph, color or size
/// invalidates the rendered surface, which then is rendered anew; a still
/// valid surface only moves when it is hidden or elsewhere.
pub fn plan_badge_update(
    surface: BadgeSurface,
    kind: ImeKind,
    caps: bool,
    config: &Config,
    width: i32,
    height: i32,
    x: i32,
    y: i32,
) -> (r: (BadgeSurface, BadgeStep))
    ensures
        r == plan_badge_spec(surface, kind, caps, *config, width, height, x, y),
{
    let appearance = badge_appearance(kind, caps, config);
    match appearance {
        None => (BadgeSurface { visible: false, ..surface }, BadgeStep::Hide),
        Some((text, background)) => {
            let text_color = config.indicator_text_color;
            let same_kind = match surface.kind {
                Some(k) => k == kind,
                None => false,
            };
            let appearance_changed = !same_kind || surface.text != text || surface.text_color
                != text_color || surface.background_color != background;
            let same_size = match surface.size {
                Some((w, h)) => w == width && h == height,
                None => false,
            };
            let next = BadgeSurface {
                kind: Some(kind),
                text,
                text_color,
                background_color: background,
                surface_valid: surface.surface_valid && !appearance_changed && same_size,
                ..surface
            };
            if !next.surface_valid {
                (next, BadgeStep::Render { x, y, width, height })
            } else {
                let same_place = match next.position {
                    Some((px, py)) => px == x && py == y,
                    None => false,
                };
                if !next.visible || !same_place {
                    (BadgeSurface { position: Some((x, y)), visible: true, ..next }, BadgeStep::Move { x, y })
                } else {
                    (next, BadgeStep::Keep)
                }
            }
        },
    }
}

/// The surface after a requested rendering.
pub open spec fn render_finished_spec(
    surface: BadgeSurface,
    rendered: bool,
    x: i32,
    y: i32,
    width: i32,
    height: i32,
) -> BadgeSurface {
    if rendered {
        BadgeSurface {
            position: Some((x, y)),
            size: Some((width, height)),
            surface_valid: true,
            visible: true,
            ..surface
        }
    } else {
        BadgeSurface { surface_valid: false, visible: false, ..surface }
    }
}

/// The surface after a requested rendering: a success records the place and
/// size and shows the badge; a failure leaves the surface invalid and hidden.
pub fn badge_render_finished(surface: BadgeSurface, rendered: bool, x: i32, y: i32, width: i32, height: i32) -> (s: BadgeSurface)
    ensures
        s == render_finished_spec(surface, rendered, x, y, width, height),
{
    if rendered {
        BadgeSurface {
            position: Some((x, y)),
            size: Some((width, height)),
            surface_valid: true,
            visible: true,
            ..surface
        }
    } else {
        BadgeSurface { surface_valid: false, visible: false, ..surface }
    }
}

/// A badge is rendered once per glyph, color and size: after a successful
/// rendering, showing the same kind at the same size never renders again;
/// it keeps the window where it is, or only moves it to a new place.
pub proof fn lemma_badge_renders_once(
    surface: BadgeSurface,
    kind: ImeKind,
    caps: bool,
    config: Config,
    width: i32,
    height: i32,
    x: i32,
    y: i32,
    x2: i32,
    y2: i32,
)
    requires
        plan_badge_spec(surface, kind, caps, config, width, height, x, y).1 is Render,
    ensures
        ({
            let shown = render_finished_spec(
                plan_badge_spec(surface, kind, caps, config, width, height, x, y).0,
                true,
                x,
                y,
                width,
                height,
            );
            plan_badge_spec(shown, kind, caps, config, width, height, x2, y2).1 == if x2 == x
                && y2 == y {
                BadgeStep::Keep
            } else {
                BadgeStep::Move { x: x2, y: y2 }
            }
        }),
{
}

/// How many console cells the IME's composition takes before anything is
/// measured: two for Korean and Japanese input, one otherwise.
pub fn console_cell_span(kind: ImeKind) -> (r: i32)
    ensures
        r == (match kind {
            ImeKind::Korean | ImeKind::JapaneseHiragana | ImeKind::JapaneseKatakana => 2i32,
            ImeKind::English | ImeKind::Unsupported => 1i32,
        }),
{
    match kind {
        ImeKind::Korean | ImeKind::JapaneseHiragana | ImeKind::JapaneseKatakana => 2,
        ImeKind::English | ImeKind::Unsupported => 1,
    }
}

/// Task Manager's search box reports a stale Korean IME state; while it has
/// the focus, the taskbar's input indicator (`korean_open`, when it could be
/// read) says whether Korean input is on, and that replaces the open state
/// and mode of a Korean snapshot.
pub open spec fn task_manager_override_spec(
    snapshot: ImeSnapshot,
    search_active: bool,
    korean_open: Option<bool>,
) -> ImeSnapshot {
    if search_active && snapshot.language_id % 1024 == 0x12 && korean_open is Some {
        ImeSnapshot {
            is_open: korean_open->0,
            conversion_mode: if korean_open->0 {
                1
            } else {
                0
            },
            ..snapshot
        }
    } else {
        snapshot
    }
}

/// Applies the taskbar's Korean input state while Task Manager's search has
/// the focus.
pub fn apply_task_manager_override(
    snapshot: ImeSnapshot,
    search_active: bool,
    korean_open: Option<bool>,
) -> (s: ImeSnapshot)
    ensures
        s == task_manager_override_spec(snapshot, search_active, korean_open),
{
    let language = snapshot.language_id;
    let primary = language & 0x03ff;
    assert(primary == language % 1024) by (bit_vector)
        requires
            primary == language & 0x03ff,
    ;
    if search_active && primary == 0x12 {
        match korean_open {
            Some(open) => ImeSnapshot {
                is_open: open,
                conversion_mode: if open {
                    1
                } else {
                    0
                },
                ..snapshot
            },
            None => snapshot,
        }
    } else {
        snapshot
    }
}

/// The Korean input state assumed when Task Manager's search gains the
/// focus, from the kind last shown: on for Korean, off for English, unknown
/// otherwise.
pub fn korean_open_from_kind(kind: Option<ImeKind>) -> (r: Option<bool>)
    ensures
        r == (match kind {
            Some(ImeKind::Korean) => Some(true),
            Some(ImeKind::English) => Some(false),
            _ => None::<bool>,
        }),
{
    match kind {
        Some(ImeKind::Korean) => Some(true),
        Some(ImeKind::English) => Some(false),
        _ => None,
    }
}

/// Mixing by no coverage gives `from`, by full coverage gives `to`, and any
/// coverage gives a value between the two.
pub proof fn lemma_interpolate_bounds(from: u8, to: u8, amount: u8)
    ensures
        interpolate_u8_spec(from, to, 0) == from,
        interpolate_u8_spec(from, to, 255) == to,
        from <= to ==> from <= interpolate_u8_spec(from, to, amount) <= to,
        to <= from ==> to <= interpolate_u8_spec(from, to, amount) <= from,
{
    assert(interpolate_u8_spec(from, to, 0) == from) by (nonlinear_arith);
    assert(interpolate_u8_spec(from, to, 255) == to) by (nonlinear_arith);
    let f = from as int;
    let t = to as int;
    let a = amount as int;
    let num = f * (255 - a) + t * a;
    assert(f <= t ==> 255 * f <= num <= 255 * t) by (nonlinear_arith)
        requires
            num == f * (255 - a) + t * a,
            0 <= a <= 255,
    ;
    assert(t <= f ==> 255 * t <= num <= 255 * f) by (nonlinear_arith)
        requires
            num == f * (255 - a) + t * a,
            0 <= a <= 255,
    ;
    assert(interpolate_u8_spec(from, to, amount) == (num + 127) / 255);
}

/// Multiplying by a full fraction keeps a value, and by zero gives zero.
pub proof fn lemma_multiply_identity(value: u8)
    ensures
        multiply_u8_spec(value, 255) == value,
        multiply_u8_spec(value, 0) == 0,
{
    assert((value * 255 + 127) / 255 == value) by (nonlinear_arith);
}

/// Where the glyph does not reach, the badge shows the premultiplied
/// background; where it fully covers, the premultiplied text color.
pub proof fn lemma_badge_pixel_coverage_extremes(text: RgbaColor, background: RgbaColor)
    ensures
        compose_badge_pixel_spec(text, background, 0) == pack_bgra(
            multiply_u8_spec(background.blue, background.alpha) as int,
            multiply_u8_spec(background.green, background.alpha) as int,
            multiply_u8_spec(background.red, background.alpha) as int,
            background.alpha as int,
        ),
        compose_badge_pixel_spec(text, background, 255) == pack_bgra(
            multiply_u8_spec(text.blue, text.alpha) as int,
            multiply_u8_spec(text.green, text.alpha) as int,
            multiply_u8_spec(text.red, text.alpha) as int,
            text.alpha as int,
        ),
{
    lemma_interpolate_bounds(background.alpha, text.alpha, 0);
    lemma_interpolate_bounds(
        multiply_u8_spec(background.red, background.alpha),
        multiply_u8_spec(text.red, text.alpha),
        0,
    );
    lemma_interpolate_bounds(
        multiply_u8_spec(background.green, background.alpha),
        multiply_u8_spec(text.green, text.alpha),
        0,
    );
    lemma_interpolate_bounds(
        multiply_u8_spec(background.blue, background.alpha),
        multiply_u8_spec(text.blue, text.alpha),
        0,
    );
}

/// A closed IME always reads as English, whatever its language and mode.
pub proof fn lemma_closed_ime_is_english(snapshot: ImeSnapshot)
    requires
        !snapshot.is_open,
    ensures
        classify_ime_spec(snapshot) == ImeKind::English,
{
}

} // verus!

verus! {

/// What the Japanese and Korean IMEs' usual modes read as, for any snapshot:
/// an open Japanese IME (primary language 0x11) in conversion mode 9 or 25
/// (Hiragana, with or without romaji input) reads as Hiragana, and in mode
/// 3, 11, 19 or 27 (full-width Katakana, with or without romaji) as
/// Katakana; an open Korean IME (primary language 0x12) reads as Korean when
/// the native-mode bit is set and as English when it is clear; a closed IME
/// reads as English whatever its language and mode; an open Chinese IME
/// (primary language 0x04) is not supported.
pub proof fn lemma_usual_ime_modes_classify(snapshot: ImeSnapshot)
    ensures
        snapshot.is_open && snapshot.language_id & 0x3ff == 0x11 && (snapshot.conversion_mode == 9
            || snapshot.conversion_mode == 25) ==> classify_ime_spec(snapshot)
            == ImeKind::JapaneseHiragana,
        snapshot.is_open && snapshot.language_id & 0x3ff == 0x11 && (snapshot.conversion_mode == 3
            || snapshot.conversion_mode == 11 || snapshot.conversion_mode == 19
            || snapshot.conversion_mode == 27) ==> classify_ime_spec(snapshot)
            == ImeKind::JapaneseKatakana,
        snapshot.is_open && snapshot.language_id & 0x3ff == 0x12 && snapshot.conversion_mode & 1
            == 1 ==> classify_ime_spec(snapshot) == ImeKind::Korean,
        snapshot.is_open && snapshot.language_id & 0x3ff == 0x12 && snapshot.conversion_mode & 1
            == 0 ==> classify_ime_spec(snapshot) == ImeKind::English,
        !snapshot.is_open ==> classify_ime_spec(snapshot) == ImeKind::English,
        snapshot.is_open && snapshot.language_id & 0x3ff == 0x04 ==> classify_ime_spec(snapshot)
            == ImeKind::Unsupported,
{
    let language = snapshot.language_id;
    let mode = snapshot.conversion_mode;
    assert(language & 0x3ff == language % 1024) by (bit_vector);
    assert(mode & 1 == mode % 2) by (bit_vector);
}

/// The glyph and background of every kind: 가 (U+AC00) on the Korean
/// background, ひ (U+3072) and カ (U+30AB) on the Japanese one, `a` or, with
/// Caps Lock, `A` on the English one; an unsupported kind shows nothing.
/// In particular the English glyph differs with and without Caps Lock.
pub proof fn lemma_badge_glyphs(caps: bool, config: Config)
    ensures
        badge_appearance_spec(ImeKind::Korean, caps, config) == Some(
            (0xac00u16, config.korean_background_color),
        ),
        badge_appearance_spec(ImeKind::JapaneseHiragana, caps, config) == Some(
            (0x3072u16, config.japanese_background_color),
        ),
        badge_appearance_spec(ImeKind::JapaneseKatakana, caps, config) == Some(
            (0x30abu16, config.japanese_background_color),
        ),
        badge_appearance_spec(ImeKind::English, true, config) == Some(
            (0x41u16, config.english_background_color),
        ),
        badge_appearance_spec(ImeKind::English, false, config) == Some(
            (0x61u16, config.english_background_color),
        ),
        badge_appearance_spec(ImeKind::Unsupported, caps, config) is None,
{
}

/// The language whose sound switch governs a kind; none for an unsupported
/// kind.
pub open spec fn kind_language_sound(kind: ImeKind) -> Option<KindSound> {
    match kind {
        ImeKind::English => Some(KindSound::English),
        ImeKind::JapaneseHiragana => Some(KindSound::Japanese),
        ImeKind::JapaneseKatakana => Some(KindSound::Japanese),
        ImeKind::Korean => Some(KindSound::Korean),
        ImeKind::Unsupported => None,
    }
}

/// Whether a language's sound is switched on.
pub open spec fn sound_enabled(config: Config, sound: KindSound) -> bool {
    match sound {
        KindSound::English => config.play_english_sound,
        KindSound::Japanese => config.play_japanese_sound,
        KindSound::Korean => config.play_korean_sound,
    }
}

/// A change to a kind plays that kind's own language's sound (English:
/// IMEE.wav, Hiragana and Katakana: IMEJ.wav, Korean: IMEK.wav) and no
/// other, and plays one exactly when that language's switch is on; an
/// unsupported kind plays none.
pub proof fn lemma_sound_matches_language(config: Config, kind: ImeKind)
    ensures
        kind_sound_spec(config, kind) matches Some(s) ==> kind_language_sound(kind) == Some(s),
        kind_sound_spec(config, kind) is Some <==> (kind_language_sound(kind) matches Some(s)
            && sound_enabled(config, s)),
{
}

/// Once a surface is rendered, it is only kept or moved while everything
/// it shows stays the same: a plan that keeps or moves the window leaves
/// the kind, glyph, text and background colors and size as the surface
/// already had them, on a surface that was valid; a plan that renders
/// leaves the surface to be rendered (not valid). So a new glyph (such as
/// `a` becoming `A` with Caps Lock), color, kind or size always renders.
pub proof fn lemma_changed_badge_renders(
    surface: BadgeSurface,
    kind: ImeKind,
    caps: bool,
    config: Config,
    width: i32,
    height: i32,
    x: i32,
    y: i32,
)
    ensures
        ({
            let (next, step) = plan_badge_spec(surface, kind, caps, config, width, height, x, y);
            &&& (step is Keep || step is Move) ==> {
                &&& surface.surface_valid
                &&& surface.kind == Some(kind)
                &&& badge_appearance_spec(kind, caps, config) == Some(
                    (surface.text, surface.background_color),
                )
                &&& surface.text_color == config.indicator_text_color
                &&& surface.size == Some((width, height))
                &&& next.text == surface.text
            }
            &&& step is Render ==> !next.surface_valid
            &&& step is Hide <==> badge_appearance_spec(kind, caps, config) is None
        }),
{
}

} // verus!
