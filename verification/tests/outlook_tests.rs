use ime_caret::outlook::{caption_matches, explorer_state, mail_item_state, OutlookEditorState, OUTLOOK_MAIL_ITEM_CLASS};

#[test]
fn captions_match_around_white_space() {
    assert!(caption_matches(Some("  Re: Hello - Message "), "Re: Hello - Message"));
    assert!(!caption_matches(Some("Inbox - Outlook"), "Re: Hello - Message"));
    assert!(!caption_matches(None, "Inbox"));
    assert!(caption_matches(Some(""), " "));
}

#[test]
fn unsent_mail_is_composed_and_sent_mail_is_read() {
    assert_eq!(mail_item_state(Some(OUTLOOK_MAIL_ITEM_CLASS), Some(false)), OutlookEditorState::Editable);
    assert_eq!(mail_item_state(Some(OUTLOOK_MAIL_ITEM_CLASS), Some(true)), OutlookEditorState::ReadOnly);
    assert_eq!(mail_item_state(Some(OUTLOOK_MAIL_ITEM_CLASS), None), OutlookEditorState::Unknown);
    assert_eq!(mail_item_state(Some(26), Some(false)), OutlookEditorState::Unknown);
    assert_eq!(mail_item_state(None, Some(false)), OutlookEditorState::Unknown);
}

#[test]
fn explorers_are_editable_only_with_an_inline_response() {
    assert_eq!(explorer_state(Some(true)), OutlookEditorState::Editable);
    assert_eq!(explorer_state(Some(false)), OutlookEditorState::ReadOnly);
    assert_eq!(explorer_state(None), OutlookEditorState::Unknown);
}
