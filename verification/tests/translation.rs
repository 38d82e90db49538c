use sampling_approval::conversation::{Message, MessageContent};
use sampling_approval::model::{Content, Role, SamplingMessage};
use sampling_approval::translate::{
    content_from_internal, content_to_internal, from_internal, to_internal, to_internal_all,
};

fn image(data: &str, mime_type: &str) -> Content {
    Content::Image { data: data.to_string(), mime_type: mime_type.to_string() }
}

#[test]
fn text_survives_the_round_trip() {
    for text in ["2+2?", "", "line one\nline two", "caf\u{e9} \u{1F600}"] {
        let wire = SamplingMessage { role: Role::User, content: Content::Text(text.to_string()) };
        let back = content_from_internal(&to_internal(&wire));
        assert_eq!(back, wire.content);
    }
}

#[test]
fn image_survives_the_round_trip() {
    let wire = SamplingMessage { role: Role::Assistant, content: image("aGVsbG8=", "image/png") };
    assert_eq!(content_from_internal(&to_internal(&wire)), wire.content);
}

#[test]
fn other_content_comes_back_as_empty_text() {
    let wire = SamplingMessage {
        role: Role::User,
        content: Content::Other("{\"type\":\"audio\"}".to_string()),
    };
    assert_eq!(content_from_internal(&to_internal(&wire)), Content::Text(String::new()));
}

#[test]
fn to_internal_keeps_the_role() {
    let user = SamplingMessage { role: Role::User, content: Content::Text("hi".to_string()) };
    let assistant =
        SamplingMessage { role: Role::Assistant, content: Content::Text("hello".to_string()) };
    assert_eq!(
        to_internal(&user),
        Message { role: Role::User, content: vec![MessageContent::Text("hi".to_string())] }
    );
    assert_eq!(
        to_internal(&assistant),
        Message {
            role: Role::Assistant,
            content: vec![MessageContent::Text("hello".to_string())],
        }
    );
}

#[test]
fn to_internal_passes_other_content_through() {
    let payload = "{\"type\":\"resource\",\"uri\":\"file:///a\"}";
    assert_eq!(
        content_to_internal(&Content::Other(payload.to_string())),
        MessageContent::Other(payload.to_string())
    );
    assert_eq!(
        content_to_internal(&image("AAAA", "image/jpeg")),
        MessageContent::Image { data: "AAAA".to_string(), mime_type: "image/jpeg".to_string() }
    );
}

#[test]
fn to_internal_all_keeps_order_and_length() {
    let wire = vec![
        SamplingMessage { role: Role::User, content: Content::Text("a".to_string()) },
        SamplingMessage { role: Role::Assistant, content: image("B", "image/gif") },
        SamplingMessage { role: Role::User, content: Content::Other("c".to_string()) },
    ];
    let internal = to_internal_all(&wire);
    assert_eq!(internal.len(), 3);
    assert_eq!(internal[0], to_internal(&wire[0]));
    assert_eq!(internal[1], to_internal(&wire[1]));
    assert_eq!(internal[2], to_internal(&wire[2]));
    assert_eq!(internal[1].role, Role::Assistant);
    assert!(to_internal_all(&vec![]).is_empty());
}

#[test]
fn reply_without_content_gives_empty_text() {
    let reply = Message { role: Role::Assistant, content: vec![] };
    assert_eq!(content_from_internal(&reply), Content::Text(String::new()));
}

#[test]
fn reply_of_another_kind_gives_empty_text() {
    let reply = Message {
        role: Role::Assistant,
        content: vec![
            MessageContent::Other("{\"tool\":\"x\"}".to_string()),
            MessageContent::Text("not the first".to_string()),
        ],
    };
    assert_eq!(content_from_internal(&reply), Content::Text(String::new()));
}

#[test]
fn reply_image_is_wrapped_as_image() {
    let reply = Message {
        role: Role::Assistant,
        content: vec![MessageContent::Image {
            data: "iVBORw0KGgo=".to_string(),
            mime_type: "image/png".to_string(),
        }],
    };
    assert_eq!(content_from_internal(&reply), image("iVBORw0KGgo=", "image/png"));
}

#[test]
fn only_the_first_block_of_a_reply_is_taken() {
    let reply = Message {
        role: Role::Assistant,
        content: vec![
            MessageContent::Text("first".to_string()),
            MessageContent::Image { data: "AA".to_string(), mime_type: "image/png".to_string() },
        ],
    };
    assert_eq!(content_from_internal(&reply), Content::Text("first".to_string()));
}

#[test]
fn from_internal_answers_as_assistant() {
    let reply = Message {
        role: Role::User,
        content: vec![MessageContent::Text("4".to_string())],
    };
    assert_eq!(
        from_internal(&reply),
        SamplingMessage { role: Role::Assistant, content: Content::Text("4".to_string()) }
    );
}
