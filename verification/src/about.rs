//! The program's name and version as the tray and the about box show them.
use vstd::prelude::*;

use crate::text::{chars_of, push_chars, string_push};

verus! {

pub const APP_NAME: &'static str = "IME Caret";

pub const APP_VERSION: &'static str = "2.4";

/// `text` followed by `suffix`.
fn append_str(text: &mut String, suffix: &str)
    ensures
        final(text)@ == old(text)@ + suffix@,
{
    let chars = chars_of(suffix);
    push_chars(text, chars.as_slice());
}

/// The tray icon's tooltip: the program's name, a space and its version.
pub fn tray_tooltip_text() -> (s: String)
    ensures
        s@ == APP_NAME@ + seq![' '] + APP_VERSION@,
{
    let mut s = APP_NAME.to_owned();
    string_push(&mut s, ' ');
    append_str(&mut s, APP_VERSION);
    s
}

/// The about box's message: name and version, a blank line, and where the
/// configuration file lives.
pub fn about_message(config_path: &str) -> (s: String)
    ensures
        s@ == APP_NAME@ + seq![' '] + APP_VERSION@ + "\n\n설정 파일: "@ + config_path@,
{
    let mut s = tray_tooltip_text();
    append_str(&mut s, "\n\n설정 파일: ");
    append_str(&mut s, config_path);
    s
}

/// The about box's title: the program's name followed by " 정보".
pub fn about_title() -> (s: String)
    ensures
        s@ == APP_NAME@ + " 정보"@,
{
    let mut s = APP_NAME.to_owned();
    append_str(&mut s, " 정보");
    s
}

} // verus!
