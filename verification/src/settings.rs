//! The settings form, the tray menu's commands and tray mouse messages, and
//! which windows' accessibility events are followed.
use vstd::prelude::*;

use crate::config::{parse_rgba_spec, Config, IndicatorPosition, RgbaColor};

verus! {

/// The colour fields of the settings form, in the form's order.
#[derive(Clone, Copy, Debug, PartialEq, Eq, Structural)]
pub enum ColorField {
    IndicatorText,
    EnglishBackground,
    JapaneseBackground,
    KoreanBackground,
}

impl ColorField {
    /// The field's label, as the error message names it.
    pub fn label(self) -> (r: &'static str)
        ensures
            r@ == match self {
                ColorField::IndicatorText => "상태 표시 글자색"@,
                ColorField::EnglishBackground => "영문 배경색"@,
                ColorField::JapaneseBackground => "일본어 배경색"@,
                ColorField::KoreanBackground => "한글 배경색"@,
            },
    {
        match self {
            ColorField::IndicatorText => "상태 표시 글자색",
            ColorField::EnglishBackground => "영문 배경색",
            ColorField::JapaneseBackground => "일본어 배경색",
            ColorField::KoreanBackground => "한글 배경색",
        }
    }
}

/// What the settings window's controls hold: the four sound check boxes,
/// the position combo box's selection (`None` when nothing is selected or
/// it could not be read) and the four colour texts (`None` when a text
/// could not be read), in the form's order.
#[derive(Clone, Debug)]
pub struct SettingsForm {
    pub play_sounds: bool,
    pub play_english_sound: bool,
    pub play_japanese_sound: bool,
    pub play_korean_sound: bool,
    pub position_index: Option<usize>,
    pub indicator_text_color: Option<String>,
    pub english_background_color: Option<String>,
    pub japanese_background_color: Option<String>,
    pub korean_background_color: Option<String>,
}

/// The colour a field's text gives, if it is one.
pub open spec fn field_color(text: Option<String>) -> Option<RgbaColor> {
    match text {
        Some(t) => parse_rgba_spec(t@),
        None => None,
    }
}

/// The first colour field, in the form's order, whose text is not a colour.
pub open spec fn first_invalid_field(form: SettingsForm) -> Option<ColorField> {
    if field_color(form.indicator_text_color) is None {
        Some(ColorField::IndicatorText)
    } else if field_color(form.english_background_color) is None {
        Some(ColorField::EnglishBackground)
    } else if field_color(form.japanese_background_color) is None {
        Some(ColorField::JapaneseBackground)
    } else if field_color(form.korean_background_color) is None {
        Some(ColorField::KoreanBackground)
    } else {
        None
    }
}

/// The settings that the form gives: its check boxes, its position when one
/// is selected (else the old one), and its four colours.
pub open spec fn form_config(config: Config, form: SettingsForm) -> Config {
    Config {
        play_sounds: form.play_sounds,
        play_english_sound: form.play_english_sound,
        play_japanese_sound: form.play_japanese_sound,
        play_korean_sound: form.play_korean_sound,
        indicator_position: match form.position_index {
            Some(i) => crate::config::from_combo_index_spec(i),
            None => config.indicator_position,
        },
        indicator_text_color: field_color(form.indicator_text_color)->0,
        english_background_color: field_color(form.english_background_color)->0,
        japanese_background_color: field_color(form.japanese_background_color)->0,
        korean_background_color: field_color(form.korean_background_color)->0,
    }
}

fn read_color(text: &Option<String>) -> (r: Option<RgbaColor>)
    ensures
        r == field_color(*text),
{
    match text {
        Some(t) => RgbaColor::parse(t.as_str()),
        None => None,
    }
}

/// Applies the settings form to `config`: the new settings, or the first
/// colour field whose text is not an 8-digit RRGGBBAA colour, in which case
/// nothing is applied.
pub fn apply_settings_form(config: &Config, form: &SettingsForm) -> (r: Result<Config, ColorField>)
    ensures
        first_invalid_field(*form) matches Some(f) ==> r == Err::<Config, ColorField>(f),
        first_invalid_field(*form) is None ==> r == Ok::<Config, ColorField>(form_config(*config, *form)),
{
    let text = match read_color(&form.indicator_text_color) {
        Some(c) => c,
        None => return Err(ColorField::IndicatorText),
    };
    let english = match read_color(&form.english_background_color) {
        Some(c) => c,
        None => return Err(ColorField::EnglishBackground),
    };
    let japanese = match read_color(&form.japanese_background_color) {
        Some(c) => c,
        None => return Err(ColorField::JapaneseBackground),
    };
    let korean = match read_color(&form.korean_background_color) {
        Some(c) => c,
        None => return Err(ColorField::KoreanBackground),
    };
    let position = match form.position_index {
        Some(i) => IndicatorPosition::from_combo_index(i),
        None => config.indicator_position,
    };
    Ok(
        Config {
            play_sounds: form.play_sounds,
            play_english_sound: form.play_english_sound,
            play_japanese_sound: form.play_japanese_sound,
            play_korean_sound: form.play_korean_sound,
            indicator_position: position,
            indicator_text_color: text,
            english_background_color: english,
            japanese_background_color: japanese,
            korean_background_color: korean,
        },
    )
}

/// The settings form as the settings window first shows it for `config`,
/// colours written as RRGGBBAA.
pub fn settings_form_for(config: &Config) -> (form: SettingsForm)
    ensures
        form.play_sounds == config.play_sounds,
        form.play_english_sound == config.play_english_sound,
        form.play_japanese_sound == config.play_japanese_sound,
        form.play_korean_sound == config.play_korean_sound,
        form.position_index == Some(crate::config::combo_index_spec(config.indicator_position)),
        form.indicator_text_color matches Some(t) && t@ == crate::config::rrggbbaa_spec(
            config.indicator_text_color,
        ),
        form.english_background_color matches Some(t) && t@ == crate::config::rrggbbaa_spec(
            config.english_background_color,
        ),
        form.japanese_background_color matches Some(t) && t@ == crate::config::rrggbbaa_spec(
            config.japanese_background_color,
        ),
        form.korean_background_color matches Some(t) && t@ == crate::config::rrggbbaa_spec(
            config.korean_background_color,
        ),
{
    SettingsForm {
        play_sounds: config.play_sounds,
        play_english_sound: config.play_english_sound,
        play_japanese_sound: config.play_japanese_sound,
        play_korean_sound: config.play_korean_sound,
        position_index: Some(config.indicator_position.combo_index()),
        indicator_text_color: Some(config.indicator_text_color.as_rrggbbaa()),
        english_background_color: Some(config.english_background_color.as_rrggbbaa()),
        japanese_background_color: Some(config.japanese_background_color.as_rrggbbaa()),
        korean_background_color: Some(config.korean_background_color.as_rrggbbaa()),
    }
}

/// Confirming the settings window without changing anything keeps the
/// settings as they were.
pub proof fn lemma_unchanged_form_keeps_settings(config: Config, form: SettingsForm)
    requires
        form.play_sounds == config.play_sounds,
        form.play_english_sound == config.play_english_sound,
        form.play_japanese_sound == config.play_japanese_sound,
        form.play_korean_sound == config.play_korean_sound,
        form.position_index == Some(crate::config::combo_index_spec(config.indicator_position)),
        form.indicator_text_color matches Some(t) && t@ == crate::config::rrggbbaa_spec(
            config.indicator_text_color,
        ),
        form.english_background_color matches Some(t) && t@ == crate::config::rrggbbaa_spec(
            config.english_background_color,
        ),
        form.japanese_background_color matches Some(t) && t@ == crate::config::rrggbbaa_spec(
            config.japanese_background_color,
        ),
        form.korean_background_color matches Some(t) && t@ == crate::config::rrggbbaa_spec(
            config.korean_background_color,
        ),
    ensures
        first_invalid_field(form) is None,
        form_config(config, form) == config,
{
    crate::config::lemma_rgba_round_trip(config.indicator_text_color);
    crate::config::lemma_rgba_round_trip(config.english_background_color);
    crate::config::lemma_rgba_round_trip(config.japanese_background_color);
    crate::config::lemma_rgba_round_trip(config.korean_background_color);
    crate::config::lemma_combo_index_round_trip(config.indicator_position);
}

pub const MENU_TOGGLE_SOUND: u16 = 1001;

pub const MENU_SETTINGS: u16 = 1002;

pub const MENU_ABOUT: u16 = 1003;

pub const MENU_EXIT: u16 = 1004;

/// What a tray menu command or tray mouse message asks for.
#[derive(Clone, Copy, Debug, PartialEq, Eq, Structural)]
pub enum TrayAction {
    ToggleSounds,
    ShowSettings,
    ShowAbout,
    Exit,
    /// Open the tray menu, at the click's point when there is one.
    ShowMenu { at_click: bool },
    /// Show the click hint, at the click's point when there is one.
    ShowHint { at_click: bool },
    Nothing,
}

/// The action of a tray menu command.
pub fn command_action(command: u16) -> (r: TrayAction)
    ensures
        r == (if command == MENU_TOGGLE_SOUND {
            TrayAction::ToggleSounds
        } else if command == MENU_SETTINGS {
            TrayAction::ShowSettings
        } else if command == MENU_ABOUT {
            TrayAction::ShowAbout
        } else if command == MENU_EXIT {
            TrayAction::Exit
        } else {
            TrayAction::Nothing
        }),
{
    if command == MENU_TOGGLE_SOUND {
        TrayAction::ToggleSounds
    } else if command == MENU_SETTINGS {
        TrayAction::ShowSettings
    } else if command == MENU_ABOUT {
        TrayAction::ShowAbout
    } else if command == MENU_EXIT {
        TrayAction::Exit
    } else {
        TrayAction::Nothing
    }
}

pub const WM_CONTEXTMENU: u32 = 0x007B;

pub const WM_LBUTTONUP: u32 = 0x0202;

pub const WM_LBUTTONDBLCLK: u32 = 0x0203;

pub const WM_RBUTTONUP: u32 = 0x0205;

pub const NIN_SELECT: u32 = 0x0400;

pub const NIN_KEYSELECT: u32 = 0x0401;

/// The action of a tray icon notification: a right click opens the menu at
/// the click, a keyboard menu request opens it at the icon; a left click or
/// selection shows the hint at the click, a keyboard selection at the icon;
/// a double click toggles the sounds.
pub fn tray_message_action(event: u32) -> (r: TrayAction)
    ensures
        r == (if event == WM_RBUTTONUP {
            TrayAction::ShowMenu { at_click: true }
        } else if event == WM_CONTEXTMENU {
            TrayAction::ShowMenu { at_click: false }
        } else if event == WM_LBUTTONUP || event == NIN_SELECT {
            TrayAction::ShowHint { at_click: true }
        } else if event == NIN_KEYSELECT {
            TrayAction::ShowHint { at_click: false }
        } else if event == WM_LBUTTONDBLCLK {
            TrayAction::ToggleSounds
        } else {
            TrayAction::Nothing
        }),
{
    if event == WM_RBUTTONUP {
        TrayAction::ShowMenu { at_click: true }
    } else if event == WM_CONTEXTMENU {
        TrayAction::ShowMenu { at_click: false }
    } else if event == WM_LBUTTONUP || event == NIN_SELECT {
        TrayAction::ShowHint { at_click: true }
    } else if event == NIN_KEYSELECT {
        TrayAction::ShowHint { at_click: false }
    } else if event == WM_LBUTTONDBLCLK {
        TrayAction::ToggleSounds
    } else {
        TrayAction::Nothing
    }
}

/// Where an accessibility event came from, as far as the filter needs it:
/// the source window, the foreground window, the source's root and root
/// owner windows, the process that may also raise events (0 for none) and
/// the source's process. A window is 0 when null.
#[derive(Clone, Copy, Debug, PartialEq, Eq, Structural)]
pub struct EventSource {
    pub window: usize,
    pub foreground: usize,
    pub root: usize,
    pub root_owner: usize,
    pub allowed_process_id: u32,
    pub source_process_id: u32,
}

/// Whether an event's source matters: a foreground change always; an event
/// without a window never; any event while there is no foreground window;
/// a top-level move only of the foreground window itself; other events
/// from the foreground window's tree, or from the one process allowed to
/// host its input.
pub open spec fn event_source_relevant_spec(event: u32, object_id: i32, source: EventSource) -> bool {
    if event == crate::win::EVENT_SYSTEM_FOREGROUND {
        true
    } else if source.window == 0 {
        false
    } else if source.foreground == 0 {
        true
    } else if event == crate::win::EVENT_OBJECT_LOCATIONCHANGE && object_id == crate::win::OBJID_WINDOW {
        source.window == source.foreground
    } else if source.window == source.foreground || source.root == source.foreground
        || source.root_owner == source.foreground {
        true
    } else {
        source.allowed_process_id != 0 && source.source_process_id == source.allowed_process_id
    }
}

/// Whether an accessibility event's source is one the indicator follows.
pub fn event_source_relevant(event: u32, object_id: i32, source: EventSource) -> (r: bool)
    ensures
        r == event_source_relevant_spec(event, object_id, source),
{
    if event == crate::win::EVENT_SYSTEM_FOREGROUND {
        true
    } else if source.window == 0 {
        false
    } else if source.foreground == 0 {
        true
    } else if event == crate::win::EVENT_OBJECT_LOCATIONCHANGE && object_id == crate::win::OBJID_WINDOW {
        source.window == source.foreground
    } else if source.window == source.foreground || source.root == source.foreground
        || source.root_owner == source.foreground {
        true
    } else {
        source.allowed_process_id != 0 && source.source_process_id == source.allowed_process_id
    }
}

} // verus!
