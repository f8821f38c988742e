//! The session model and the conversation builder.

use qutebrowser_agent::types::{Session, encode_image_base64};

#[test]
fn build_conversation_empty_session() {
    let session = Session::new(String::from("s1"));
    let conv = session.build_gemini_conversation("go to example.com");
    assert_eq!(conv.len(), 1);
    assert_eq!(conv[0].role, "user");
    assert_eq!(conv[0].parts.len(), 1);
    assert_eq!(conv[0].parts[0].text.as_deref(), Some("go to example.com"));
    assert!(conv[0].parts[0].inline_data.is_none());
}

#[test]
fn build_conversation_uses_latest_image_only() {
    let mut session = Session::new(String::from("s1"));
    session.add_image(String::from("older-image"));
    session.add_image(String::from("newest-image"));
    let conv = session.build_gemini_conversation("click the button");
    assert_eq!(conv.len(), 1);
    assert_eq!(conv[0].parts.len(), 2);
    let inline = conv[0].parts[0].inline_data.as_ref().expect("image part first");
    assert_eq!(inline.mime_type, "image/png");
    assert_eq!(inline.data, "newest-image");
    assert!(conv[0].parts[0].text.is_none());
    assert_eq!(conv[0].parts[1].text.as_deref(), Some("click the button"));
    // One inline image in the whole conversation, and it is the newest.
    let image_parts: usize = conv
        .iter()
        .map(|turn| turn.parts.iter().filter(|p| p.inline_data.is_some()).count())
        .sum();
    assert_eq!(image_parts, 1);
}

#[test]
fn build_conversation_without_images_has_no_image_part() {
    let session = Session::new(String::from("s1"));
    let conv = session.build_gemini_conversation("look around");
    let image_parts: usize = conv
        .iter()
        .map(|turn| turn.parts.iter().filter(|p| p.inline_data.is_some()).count())
        .sum();
    assert_eq!(image_parts, 0);
}

#[test]
fn build_conversation_replays_assistant_messages_only() {
    let mut session = Session::new(String::from("s1"));
    session.add_user_message(String::from("first instruction"));
    session.add_assistant_message(String::from("I opened the page"));
    session.add_user_message(String::from("stored instruction"));
    let conv = session.build_gemini_conversation("live instruction");
    // One user turn, one model turn; stored user messages are not replayed.
    assert_eq!(conv.len(), 2);
    assert_eq!(conv[0].role, "user");
    assert_eq!(
        conv[0].parts.last().unwrap().text.as_deref(),
        Some("live instruction")
    );
    assert_eq!(conv[1].role, "model");
    assert_eq!(conv[1].parts.len(), 1);
    assert_eq!(conv[1].parts[0].text.as_deref(), Some("I opened the page"));
    for turn in conv.iter().skip(1) {
        assert_ne!(turn.role, "user");
    }
}

#[test]
fn add_messages_record_role_and_content() {
    let mut session = Session::new(String::from("s2"));
    session.add_user_message(String::from("hello"));
    session.add_assistant_message(String::from("hi there"));
    assert_eq!(session.messages.len(), 2);
    assert_eq!(session.messages[0].role, "user");
    assert_eq!(session.messages[0].content, "hello");
    assert_eq!(session.messages[1].role, "assistant");
    assert_eq!(session.messages[1].content, "hi there");
}

#[test]
fn encode_image_base64_standard_alphabet() {
    assert_eq!(encode_image_base64(&vec![97u8, 98, 99]), "YWJj");
    assert_eq!(encode_image_base64(&vec![]), "");
    // Padding as the standard engine produces it.
    assert_eq!(encode_image_base64(&vec![97u8]), "YQ==");
}
