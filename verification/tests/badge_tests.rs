use ime_caret::badge::{
    badge_appearance, badge_render_finished, compose_badge_pixel, compose_badge_pixels,
    ime_state_transition, initial_badge_surface, initial_shown_state, interpolate_u8, kind_sound, multiply_u8,
    pixel_coverage, plan_badge_update, BadgeStep, ImeKind, ImeStateOutcome, KindSound, ShownState,
};
use ime_caret::config::{Config, RgbaColor};
use ime_caret::ime::{ImeSnapshot, Validity};
use ime_caret::text::copy_wide_to_fixed;

#[test]
fn fractions_multiply_and_mix_with_rounding() {
    assert_eq!(multiply_u8(255, 255), 255);
    assert_eq!(multiply_u8(255, 0), 0);
    assert_eq!(multiply_u8(0xff, 0xa5), 0xa5);
    assert_eq!(multiply_u8(0x62, 0xa5), 63);
    assert_eq!(interpolate_u8(10, 200, 0), 10);
    assert_eq!(interpolate_u8(10, 200, 255), 200);
    assert_eq!(interpolate_u8(0, 255, 128), 128);
    assert_eq!(interpolate_u8(200, 10, 64), 152);
}

#[test]
fn badge_pixels_mix_premultiplied_colors_by_coverage() {
    let text = RgbaColor::new(0xff, 0xff, 0xff, 0xa5);
    let background = RgbaColor::new(0xff, 0x62, 0x62, 0xa5);
    assert_eq!(compose_badge_pixel(text, background, 0), 0xa5a53f3f);
    assert_eq!(compose_badge_pixel(text, background, 255), 0xa5a5a5a5);
    assert_eq!(pixel_coverage(0x00ffffff), 255);
    assert_eq!(pixel_coverage(0x00000000), 0);
    assert_eq!(pixel_coverage(0x00010203), 2);
    let mut pixels = vec![0x00ffffff, 0, 0x00808080];
    compose_badge_pixels(&mut pixels, text, background);
    assert_eq!(pixels, vec![0xa5a5a5a5, 0xa5a53f3f, compose_badge_pixel(text, background, 0x80)]);
}

#[test]
fn each_kind_has_its_glyph_and_color() {
    let config = Config::default();
    assert_eq!(badge_appearance(ImeKind::Korean, false, &config), Some(('가' as u16, config.korean_background_color)));
    assert_eq!(badge_appearance(ImeKind::JapaneseHiragana, true, &config), Some(('ひ' as u16, config.japanese_background_color)));
    assert_eq!(badge_appearance(ImeKind::JapaneseKatakana, false, &config), Some(('カ' as u16, config.japanese_background_color)));
    assert_eq!(badge_appearance(ImeKind::English, true, &config), Some(('A' as u16, config.english_background_color)));
    assert_eq!(badge_appearance(ImeKind::English, false, &config), Some(('a' as u16, config.english_background_color)));
    assert_eq!(badge_appearance(ImeKind::Unsupported, false, &config), None);
}

#[test]
fn sounds_follow_each_language_switch() {
    let mut config = Config::default();
    assert_eq!(kind_sound(&config, ImeKind::Korean), Some(KindSound::Korean));
    assert_eq!(kind_sound(&config, ImeKind::JapaneseKatakana), Some(KindSound::Japanese));
    assert_eq!(kind_sound(&config, ImeKind::Unsupported), None);
    config.play_english_sound = false;
    assert_eq!(kind_sound(&config, ImeKind::English), None);
    assert_eq!(KindSound::Korean.file_name(), "IMEK.wav");
    assert_eq!(KindSound::English.file_name(), "IMEE.wav");
    assert_eq!(KindSound::Japanese.file_name(), "IMEJ.wav");
}

#[test]
fn state_changes_play_a_sound_only_when_the_kind_changes() {
    let mut config = Config::default();
    config.play_sounds = true;
    let korean = ImeSnapshot { validity: Validity::Live, conversion_mode: 1, language_id: 0x0412, is_open: true };
    let shown = initial_shown_state();
    let (shown, outcome) = ime_state_transition(&config, shown, korean, false, 0);
    assert_eq!(outcome, ImeStateOutcome::Show { kind: ImeKind::Korean, sound: Some(KindSound::Korean) });
    let (shown, outcome) = ime_state_transition(&config, shown, korean, true, 10);
    assert_eq!(outcome, ImeStateOutcome::Show { kind: ImeKind::Korean, sound: None });
    assert_eq!(shown, ShownState { kind: Some(ImeKind::Korean), caps: true, invalid_since_ns: None, cleared_unknown: false });
    config.play_sounds = false;
    let (_, outcome) = ime_state_transition(&config, initial_shown_state(), korean, false, 20);
    assert_eq!(outcome, ImeStateOutcome::Show { kind: ImeKind::Korean, sound: None });
}

#[test]
fn a_long_unknown_state_forgets_the_kind() {
    let mut config = Config::default();
    config.play_sounds = true;
    let korean = ImeSnapshot { validity: Validity::Live, conversion_mode: 1, language_id: 0x0412, is_open: true };
    let invalid = ImeSnapshot::default();
    let (shown, _) = ime_state_transition(&config, initial_shown_state(), korean, false, 0);

    let (brief, outcome) = ime_state_transition(&config, shown, invalid, false, 1_000_000_000);
    assert_eq!(outcome, ImeStateOutcome::Hide);
    assert_eq!(brief.kind, Some(ImeKind::Korean));
    assert_eq!(brief.invalid_since_ns, Some(1_000_000_000));
    let (still, _) = ime_state_transition(&config, brief, invalid, false, 1_300_000_000);
    assert_eq!(still.kind, Some(ImeKind::Korean));
    let (cleared, _) = ime_state_transition(&config, still, invalid, false, 1_300_000_001);
    assert_eq!(cleared.kind, None);
    assert!(cleared.cleared_unknown);
    let (_, outcome) = ime_state_transition(&config, cleared, korean, false, 1_400_000_000);
    assert_eq!(outcome, ImeStateOutcome::Show { kind: ImeKind::Korean, sound: Some(KindSound::Korean) });

    let (_, outcome) = ime_state_transition(&config, brief, korean, false, 1_100_000_000);
    assert_eq!(outcome, ImeStateOutcome::Show { kind: ImeKind::Korean, sound: None });
}

#[test]
fn badge_renders_once_and_then_only_moves() {
    let config = Config::default();
    let surface = initial_badge_surface(&config);
    let (planned, step) = plan_badge_update(surface, ImeKind::Korean, false, &config, 15, 15, 100, 200);
    assert_eq!(step, BadgeStep::Render { x: 100, y: 200, width: 15, height: 15 });
    let shown = badge_render_finished(planned, true, 100, 200, 15, 15);
    assert!(shown.visible && shown.surface_valid);

    let (same, step) = plan_badge_update(shown, ImeKind::Korean, false, &config, 15, 15, 100, 200);
    assert_eq!(step, BadgeStep::Keep);
    let (moved, step) = plan_badge_update(same, ImeKind::Korean, false, &config, 15, 15, 140, 200);
    assert_eq!(step, BadgeStep::Move { x: 140, y: 200 });
    assert_eq!(moved.position, Some((140, 200)));

    let (_, step) = plan_badge_update(moved, ImeKind::English, false, &config, 15, 15, 140, 200);
    assert_eq!(step, BadgeStep::Render { x: 140, y: 200, width: 15, height: 15 });
    let (_, step) = plan_badge_update(moved, ImeKind::Korean, false, &config, 30, 30, 140, 200);
    assert_eq!(step, BadgeStep::Render { x: 140, y: 200, width: 30, height: 30 });
    let (hidden, step) = plan_badge_update(moved, ImeKind::Unsupported, false, &config, 15, 15, 140, 200);
    assert_eq!(step, BadgeStep::Hide);
    assert!(!hidden.visible);

    let failed = badge_render_finished(planned, false, 100, 200, 15, 15);
    assert!(!failed.visible && !failed.surface_valid);
}

#[test]
fn wide_text_is_cut_to_leave_a_terminator() {
    let mut buffer = [7u16; 4];
    copy_wide_to_fixed(&[1, 2], &mut buffer);
    assert_eq!(buffer, [1, 2, 0, 0]);
    copy_wide_to_fixed(&[1, 2, 3, 4, 5], &mut buffer);
    assert_eq!(buffer, [1, 2, 3, 0]);
    let mut empty: [u16; 0] = [];
    copy_wide_to_fixed(&[1], &mut empty);
}
