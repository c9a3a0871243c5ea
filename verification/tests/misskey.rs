use misskey_ltl::misskey::{
    keep_displayable, open_envelope, process_message, try_process_message, ws_url,
    ConnectMessage, ConnectParams, IncompleteEnvelope, MisskeyNote, MisskeyUser, PingMessage,
};
use serde_json::Value;

fn text_of(value: &Value, key: &str) -> Option<String> {
    Some(value.get(key)?.as_str()?.to_string())
}

fn decode(value: &Value) -> Option<MisskeyNote> {
    let user = value.get("user")?;
    Some(MisskeyNote {
        id: text_of(value, "id")?,
        text: text_of(value, "text"),
        created_at: text_of(value, "createdAt")?,
        user: MisskeyUser {
            name: text_of(user, "name")?,
            username: text_of(user, "username")?,
            avatar_url: text_of(user, "avatarUrl")?,
        },
    })
}

const USER: &str = r#"{"name":"Ai","username":"ai","avatarUrl":"u"}"#;

fn message(text: &str) -> String {
    format!(
        r#"{{"type":"channel","body":{{"id":"local","type":"note","body":{{"id":"n1","text":{},"createdAt":"t","user":{}}}}}}}"#,
        text, USER
    )
}

fn note_with_text(text: Option<&str>) -> MisskeyNote {
    MisskeyNote {
        id: String::new(),
        text: text.map(|t| t.to_string()),
        created_at: String::new(),
        user: MisskeyUser {
            name: String::new(),
            username: String::new(),
            avatar_url: String::new(),
        },
    }
}

#[test]
fn note_is_taken_out_of_a_message() {
    let note = process_message(&message("\"hello\""), decode).unwrap();
    assert_eq!(note.id, "n1");
    assert_eq!(note.text.as_deref(), Some("hello"));
    assert_eq!(note.created_at, "t");
    assert_eq!(note.user.name, "Ai");
    assert_eq!(note.user.username, "ai");
    assert_eq!(note.user.avatar_url, "u");
    let note = try_process_message(&message("\"hello\""), decode).unwrap().unwrap();
    assert_eq!(note.id, "n1");
}

#[test]
fn notes_without_content_are_dropped() {
    assert!(process_message(&message("null"), decode).is_none());
    assert!(process_message(&message("\"\""), decode).is_none());
    assert!(process_message(&message("\" \\n\\t\\u3000\""), decode).is_none());
    assert!(process_message(&message("\" x \""), decode).is_some());
}

#[test]
fn content_is_kept_as_it_is() {
    let note = process_message(&message("\" x \\n\""), decode).unwrap();
    assert_eq!(note.text.as_deref(), Some(" x \n"));
}

#[test]
fn undecodable_notes_are_dropped() {
    let text = r#"{"type":"channel","body":{"type":"note","body":{"id":1}}}"#;
    assert!(process_message(text, decode).is_none());
    assert!(process_message(text, |_: &Value| None).is_none());
}

#[test]
fn other_messages_carry_no_note() {
    for text in [
        "",
        "not json",
        "{",
        "null",
        "[]",
        "\"channel\"",
        "{}",
        r#"{"type":"pong"}"#,
        r#"{"type":["channel"]}"#,
        r#"{"type":"channel"}"#,
        r#"{"type":"channel","body":null}"#,
        r#"{"type":"channel","body":"note"}"#,
        r#"{"type":"channel","body":[{"type":"note"}]}"#,
        r#"{"type":"channel","body":{"type":"noteUpdated"}}"#,
        r#"{"type":"channel","body":{"type":null,"body":{}}}"#,
        r#"{"type":"Channel","body":{"type":"note","body":{}}}"#,
    ] {
        assert!(process_message(text, |_: &Value| panic!("decoded {}", text)).is_none());
        assert!(matches!(
            try_process_message(text, |_: &Value| panic!("decoded {}", text)),
            Ok(None)
        ));
    }
}

#[test]
fn incomplete_envelopes_are_reported() {
    for text in [
        r#"{"type":"channel","body":{}}"#,
        r#"{"type":"channel","body":{"body":{}}}"#,
        r#"{"type":"channel","body":{"type":"note"}}"#,
    ] {
        assert!(matches!(try_process_message(text, decode), Err(IncompleteEnvelope)));
    }
}

#[test]
fn envelope_is_opened_to_its_content() {
    let value: Value = serde_json::from_str(&message("\"x\"")).unwrap();
    let content = open_envelope(&value).unwrap().unwrap();
    assert_eq!(content["id"], "n1");
    let value: Value = serde_json::from_str(r#"{"type":"channel","body":{"type":"note","body":null}}"#).unwrap();
    assert!(open_envelope(&value).unwrap().unwrap().is_null());
    assert_eq!(open_envelope(&Value::Null), Ok(None));
}

#[test]
fn white_space_is_what_unicode_says() {
    for n in 0..=0x10ffffu32 {
        if let Some(c) = char::from_u32(n) {
            let listed = matches!(
                n,
                0x9..=0xd
                    | 0x20
                    | 0x85
                    | 0xa0
                    | 0x1680
                    | 0x2000..=0x200a
                    | 0x2028
                    | 0x2029
                    | 0x202f
                    | 0x205f
                    | 0x3000
            );
            let mut buffer = [0u8; 4];
            let note = note_with_text(Some(c.encode_utf8(&mut buffer)));
            assert_eq!(keep_displayable(Some(note)).is_none(), listed);
        }
    }
}

#[test]
fn only_notes_with_content_are_kept() {
    assert!(keep_displayable(None).is_none());
    assert!(keep_displayable(Some(note_with_text(None))).is_none());
    assert!(keep_displayable(Some(note_with_text(Some("\u{3000}")))).is_none());
    assert!(keep_displayable(Some(note_with_text(Some("\n.")))).is_some());
}

#[test]
fn address_with_and_without_token() {
    assert_eq!(ws_url(&None), "wss://misskey.io/streaming");
    assert_eq!(ws_url(&Some("a b".to_string())), "wss://misskey.io/streaming?i=a b");
    assert_eq!(ws_url(&Some(String::new())), "wss://misskey.io/streaming?i=");
}

#[test]
fn messages_to_the_server() {
    let message = ConnectMessage::local_timeline();
    assert_eq!(message.typ, "connect");
    assert_eq!(message.body.channel, "localTimeline");
    assert_eq!(message.body.id, "local");
    assert_eq!(message.body.params, ConnectParams { with_renotes: true, with_replies: false });
    assert_eq!(PingMessage::new().typ, "ping");
}
