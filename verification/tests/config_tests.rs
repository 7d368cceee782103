use ime_caret::config::{Config, IndicatorPosition, RgbaColor};
use ime_caret::text::decode_ini_text;

#[test]
fn defaults_disable_all_sounds_but_keep_each_language_enabled() {
    let config = Config::default();
    assert!(!config.play_sounds);
    assert!(config.play_english_sound);
    assert!(config.play_japanese_sound);
    assert!(config.play_korean_sound);
    assert_eq!(config.indicator_position, IndicatorPosition::Below);
    assert_eq!(config.indicator_text_color.as_rrggbbaa(), "FFFFFFA5");
    assert_eq!(config.english_background_color.as_rrggbbaa(), "FF6262A5");
    assert_eq!(config.japanese_background_color.as_rrggbbaa(), "62FF62A5");
    assert_eq!(config.korean_background_color.as_rrggbbaa(), "6262FFA5");
}

#[test]
fn decodes_utf16_ini() {
    let source = "[Settings]\r\nPlayKoreanSound=0\r\n";
    let mut bytes = vec![0xff, 0xfe];
    for unit in source.encode_utf16() {
        bytes.extend_from_slice(&unit.to_le_bytes());
    }
    let decoded = decode_ini_text(&bytes);
    assert!(decoded.contains("PlayKoreanSound=0"));
}

#[test]
fn indicator_position_values_are_stable_and_fallback_to_below() {
    assert_eq!(IndicatorPosition::parse(" Above "), Some(IndicatorPosition::Above));
    assert_eq!(IndicatorPosition::parse("below"), Some(IndicatorPosition::Below));
    assert_eq!(IndicatorPosition::parse("invalid"), None);
    assert_eq!(IndicatorPosition::from_combo_index(99), IndicatorPosition::Below);
}

#[test]
fn indicator_position_is_saved_and_loaded() {
    let mut config = Config::default();
    config.indicator_position = IndicatorPosition::Below;
    let saved = config.to_ini_bytes();

    let loaded = Config::from_ini_bytes(&saved);
    assert_eq!(loaded.indicator_position, IndicatorPosition::Below);
}

#[test]
fn rgba_colors_are_parsed_and_saved_in_rrggbbaa_order() {
    assert_eq!(RgbaColor::parse("12aB34cD"), Some(RgbaColor::new(0x12, 0xab, 0x34, 0xcd)));
    assert_eq!(RgbaColor::parse("1234567"), None);
    assert_eq!(RgbaColor::parse("1234567Z"), None);

    let mut config = Config::default();
    config.indicator_text_color = RgbaColor::new(1, 2, 3, 4);
    config.english_background_color = RgbaColor::new(5, 6, 7, 8);
    config.japanese_background_color = RgbaColor::new(9, 10, 11, 12);
    config.korean_background_color = RgbaColor::new(13, 14, 15, 16);
    let saved = config.to_ini_bytes();

    let loaded = Config::from_ini_bytes(&saved);
    assert_eq!(loaded.indicator_text_color, config.indicator_text_color);
    assert_eq!(loaded.english_background_color, config.english_background_color);
    assert_eq!(loaded.japanese_background_color, config.japanese_background_color);
    assert_eq!(loaded.korean_background_color, config.korean_background_color);
}

#[test]
fn config_round_trips_through_its_ini_text() {
    let mut config = Config::default();
    config.play_sounds = true;
    config.play_japanese_sound = false;
    config.indicator_position = IndicatorPosition::Above;
    config.korean_background_color = RgbaColor::new(0xab, 0xcd, 0xef, 0x01);
    let text = config.to_ini_text();
    assert_eq!(Config::from_ini_text(&text), config);
    assert_eq!(Config::from_ini_bytes(&config.to_ini_bytes()), config);
}

#[test]
fn ini_text_lists_every_setting() {
    let text = Config::default().to_ini_text();
    assert!(text.starts_with("[Settings]"));
    assert!(text.contains("PlaySounds=0"));
    assert!(text.contains("IndicatorPosition=Below"));
    assert!(text.contains("KoreanBackgroundColor=6262FFA5"));
}

#[test]
fn unreadable_settings_keep_their_defaults() {
    let config = Config::from_ini_text(
        "[Settings]\nPlaySounds=yes\nIndicatorPosition=Left\nIndicatorTextColor=XYZ\n",
    );
    assert_eq!(config, Config::default());
}

#[test]
fn settings_are_read_without_case_and_around_white_space() {
    let config = Config::from_ini_text("[settings]\r\n  playsounds = 1 \r\nINDICATORPOSITION=right\r\n");
    assert!(config.play_sounds);
    assert_eq!(config.indicator_position, IndicatorPosition::Right);
}

#[test]
fn utf8_with_byte_order_mark_is_decoded() {
    let mut bytes = vec![0xef, 0xbb, 0xbf];
    bytes.extend_from_slice("[Settings]\nPlaySounds=1\n".as_bytes());
    assert!(Config::from_ini_bytes(&bytes).play_sounds);
}

#[test]
fn big_endian_utf16_is_decoded() {
    let mut bytes = vec![0xfe, 0xff];
    for unit in "[Settings]\nPlayKoreanSound=0\n".encode_utf16() {
        bytes.extend_from_slice(&unit.to_be_bytes());
    }
    assert!(!Config::from_ini_bytes(&bytes).play_korean_sound);
}

#[test]
fn invalid_utf8_is_replaced_not_rejected() {
    let mut bytes = b"[Settings]\nPlaySounds=1\n".to_vec();
    bytes.push(0xff);
    assert!(Config::from_ini_bytes(&bytes).play_sounds);
    assert!(decode_ini_text(&[0x41, 0xff, 0x42]).contains('\u{fffd}'));
}

#[test]
fn combo_indices_round_trip() {
    for position in [IndicatorPosition::Right, IndicatorPosition::Above, IndicatorPosition::Below] {
        assert_eq!(IndicatorPosition::from_combo_index(position.combo_index()), position);
        assert_eq!(IndicatorPosition::parse(position.as_ini_value()), Some(position));
    }
    assert_eq!(IndicatorPosition::Right.combo_index(), 0);
    assert_eq!(IndicatorPosition::Above.combo_index(), 1);
    assert_eq!(IndicatorPosition::Below.combo_index(), 2);
}

#[test]
fn colors_round_trip_through_rrggbbaa() {
    let color = RgbaColor::new(0x00, 0x7f, 0x80, 0xff);
    assert_eq!(color.as_rrggbbaa(), "007F80FF");
    assert_eq!(RgbaColor::parse(&color.as_rrggbbaa()), Some(color));
    assert_eq!(RgbaColor::parse(" 007f80ff "), Some(color));
    assert_eq!(RgbaColor::parse("+07f80ff"), None);
}

#[test]
fn boolean_settings_read_integers_as_rust_parses_them() {
    assert!(Config::from_ini_text("[Settings]\nPlaySounds=+1\n").play_sounds);
    assert!(Config::from_ini_text("[Settings]\nPlaySounds=0001\n").play_sounds);
    assert!(!Config::from_ini_text("[Settings]\nPlaySounds=1.0\n").play_sounds);
    assert!(!Config::from_ini_text("[Settings]\nPlaySounds=2\n").play_sounds);
    assert!(!Config::from_ini_text("[Settings]\nPlayKoreanSound=-0\n").play_korean_sound);
    assert!(Config::from_ini_text("[Settings]\nPlayKoreanSound=99999999999\n").play_korean_sound);
}

#[test]
fn settings_outside_the_section_or_commented_out_are_ignored() {
    let text = "PlaySounds=1\n[Other]\nPlaySounds=1\n[ Settings ]\n;PlaySounds=1\n#PlaySounds=1\nNoEquals\n";
    assert_eq!(Config::from_ini_text(text), Config::default());
    let later = "[Settings]\nPlaySounds=1\n[Other]\nPlaySounds=0\n";
    assert!(Config::from_ini_text(later).play_sounds);
}
