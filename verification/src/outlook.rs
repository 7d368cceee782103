//! Whether Outlook's focused mail editor takes text, from what Outlook's
//! automation objects report: sent mail is a viewer, unsent mail is a
//! composer, and an Explorer is editable only while it owns an active
//! inline response.
use vstd::prelude::*;

use crate::text::{chars_of, trim, trim_range};

verus! {

/// What Outlook says about its focused editor.
#[derive(Clone, Copy, Debug, PartialEq, Eq, Structural)]
pub enum OutlookEditorState {
    Editable,
    ReadOnly,
    Unknown,
}

/// The item class of a mail item in Outlook's object model.
pub const OUTLOOK_MAIL_ITEM_CLASS: i32 = 43;

/// Whether an inspector's or explorer's caption names the foreground window:
/// both equal once surrounding white space is removed; a caption that could
/// not be read never matches.
pub open spec fn caption_matches_spec(caption: Option<Seq<char>>, title: Seq<char>) -> bool {
    caption matches Some(c) && trim(c) == trim(title)
}

/// Whether an automation object's caption names the foreground window.
pub fn caption_matches(caption: Option<&str>, title: &str) -> (r: bool)
    ensures
        r == caption_matches_spec(
            match caption {
                Some(c) => Some(c@),
                None => None,
            },
            title@,
        ),
{
    match caption {
        None => false,
        Some(c) => {
            let cs = chars_of(c);
            let ts = chars_of(title);
            let (a, b) = trim_range(&cs, 0, cs.len());
            let (x, y) = trim_range(&ts, 0, ts.len());
            assert(cs@.subrange(0, cs@.len() as int) =~= cs@);
            assert(ts@.subrange(0, ts@.len() as int) =~= ts@);
            let trimmed_caption = crate::text::copy_range(&cs, a, b);
            let trimmed_title = crate::text::copy_range(&ts, x, y);
            crate::text::chars_equal(&trimmed_caption, trimmed_title.as_slice())
        },
    }
}

/// The state of the mail an inspector shows, from its item's class and
/// `Sent` property: only a mail item says anything; unsent mail is being
/// composed, sent mail is read.
pub open spec fn mail_item_state_spec(item_class: Option<i32>, sent: Option<bool>) -> OutlookEditorState {
    if item_class != Some(OUTLOOK_MAIL_ITEM_CLASS) {
        OutlookEditorState::Unknown
    } else {
        match sent {
            Some(false) => OutlookEditorState::Editable,
            Some(true) => OutlookEditorState::ReadOnly,
            None => OutlookEditorState::Unknown,
        }
    }
}

/// The state of the mail an inspector shows.
pub fn mail_item_state(item_class: Option<i32>, sent: Option<bool>) -> (r: OutlookEditorState)
    ensures
        r == mail_item_state_spec(item_class, sent),
{
    match item_class {
        Some(c) => if c != OUTLOOK_MAIL_ITEM_CLASS {
            OutlookEditorState::Unknown
        } else {
            match sent {
                Some(false) => OutlookEditorState::Editable,
                Some(true) => OutlookEditorState::ReadOnly,
                None => OutlookEditorState::Unknown,
            }
        },
        None => OutlookEditorState::Unknown,
    }
}

/// The state of an explorer, from its `ActiveInlineResponse` property: not
/// readable says nothing; an object means a reply is being written inline;
/// anything else means the explorer only shows mail.
pub open spec fn explorer_state_spec(inline_response: Option<bool>) -> OutlookEditorState {
    match inline_response {
        None => OutlookEditorState::Unknown,
        Some(true) => OutlookEditorState::Editable,
        Some(false) => OutlookEditorState::ReadOnly,
    }
}

/// The state of an explorer; `inline_response` is `None` when the property
/// could not be read, else whether it holds an object.
pub fn explorer_state(inline_response: Option<bool>) -> (r: OutlookEditorState)
    ensures
        r == explorer_state_spec(inline_response),
{
    match inline_response {
        None => OutlookEditorState::Unknown,
        Some(true) => OutlookEditorState::Editable,
        Some(false) => OutlookEditorState::ReadOnly,
    }
}

} // verus!
