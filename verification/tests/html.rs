use misskey_ltl::html::{
    encode_connection_count, encode_note, encode_note_at, encode_note_with, escape_html,
};
use misskey_ltl::misskey::{MisskeyNote, MisskeyUser};
use misskey_ltl::model::{Context, MisskeyData};
use misskey_ltl::timestamp::UtcDateTime;

fn note(text: Option<&str>, created_at: &str) -> MisskeyNote {
    MisskeyNote {
        id: "9x".to_string(),
        text: text.map(|t| t.to_string()),
        created_at: created_at.to_string(),
        user: MisskeyUser {
            name: "Ai <3".to_string(),
            username: "ai".to_string(),
            avatar_url: "https://misskey.io/a.png?x=1&y=2".to_string(),
        },
    }
}

fn expected(time: &str, text: &str) -> String {
    format!(
        r#"<div class="note">
  <div class="article">
    <div class="avatar">
      <img src="https://misskey.io/a.png?x=1&y=2" alt="avatar" class="avatar-img">
    </div>
    <div class="main">
      <div class="note-header">
        <span class="user-name">Ai <3</span>
        <span class="user-username">@ai</span>
        <span class="note-time">{}</span>
      </div>
      <div class="note-content">{}</div>
    </div>
  </div>
</div>
"#,
        time, text
    )
}

fn time() -> UtcDateTime {
    UtcDateTime {
        year: 2024,
        month: 5,
        day: 6,
        hour: 7,
        minute: 8,
        second: 9,
        nanosecond: 10_000_000,
    }
}

fn counter(previous_id: usize, current_id: usize, connection_count: usize) -> String {
    let ctx = Context { previous_id, current_id, connection_count };
    String::from_utf8(encode_connection_count(&ctx).to_vec()).unwrap()
}

#[test]
fn escapes_each_special_character() {
    assert_eq!(escape_html("a<b>&c\nd"), "a&lt;b&gt;&amp;c<br>d");
    assert_eq!(escape_html(""), "");
    assert_eq!(escape_html("\"'"), "\"'");
    assert_eq!(escape_html("こんにちは👤"), "こんにちは👤");
    assert_eq!(escape_html("\r\n"), "\r<br>");
}

#[test]
fn escaping_equals_replacing_in_turn() {
    for text in ["&lt;<br>\n", "&&<<>>\n\n", "a&amp;b", "<script>alert(1)</script>"] {
        let replaced = text
            .replace("&", "&amp;")
            .replace("<", "&lt;")
            .replace(">", "&gt;")
            .replace("\n", "<br>");
        assert_eq!(escape_html(text), replaced);
    }
}

#[test]
fn escaping_goes_by_the_character() {
    let whole = escape_html("x<y\n&z");
    let parts = escape_html("x<") + &escape_html("y\n") + &escape_html("&z");
    assert_eq!(whole, parts);
}

#[test]
fn escaping_leaves_no_markup_but_line_breaks() {
    let html = escape_html("<a href=\"x\">\n</a>&\n");
    assert!(!html.contains('\n'));
    assert_eq!(html.matches('<').count(), 2);
    assert_eq!(html.matches("<br>").count(), 2);
    assert_eq!(html.matches('>').count(), 2);
}

#[test]
fn escaping_keeps_texts_apart() {
    assert_ne!(escape_html("<"), escape_html("&lt;"));
    assert_ne!(escape_html("\n"), escape_html("<br>"));
}

#[test]
fn note_under_a_given_time() {
    let html = encode_note_at(&note(Some("1 < 2\nyes"), "?"), &time());
    assert_eq!(&html[..], expected("2024-05-06 07:08:09", "1 &lt; 2<br>yes").as_bytes());
}

#[test]
fn note_without_text() {
    let html = encode_note_at(&note(None, "?"), &time());
    assert_eq!(&html[..], expected("2024-05-06 07:08:09", "").as_bytes());
}

#[test]
fn note_dated_by_the_server() {
    let html = encode_note(&note(Some("hi"), "2024-05-06T07:08:09.010Z"));
    assert_eq!(&html[..], expected("2024-05-06 07:08:09", "hi").as_bytes());
}

#[test]
fn note_dated_in_another_time_zone() {
    let html = encode_note(&note(Some("hi"), "2024-01-01T08:30:00+09:00"));
    assert_eq!(&html[..], expected("2023-12-31 23:30:00", "hi").as_bytes());
}

#[test]
fn note_dated_at_the_edges_of_the_calendar() {
    let html = encode_note(&note(Some("hi"), "2024-02-29T23:59:59.999Z"));
    assert_eq!(&html[..], expected("2024-02-29 23:59:59", "hi").as_bytes());
    let html = encode_note(&note(Some("hi"), "2016-12-31T23:59:60Z"));
    assert_eq!(&html[..], expected("2016-12-31 23:59:60", "hi").as_bytes());
    let html = encode_note(&note(Some("hi"), "9999-12-31T23:59:59-01:00"));
    assert_eq!(&html[..], expected("+10000-01-01 00:59:59", "hi").as_bytes());
    let html = encode_note(&note(Some("hi"), "0000-01-01T00:00:00+01:00"));
    assert_eq!(&html[..], expected("-0001-12-31 23:00:00", "hi").as_bytes());
    let html = encode_note(&note(Some("hi"), "0987-06-05T04:03:02Z"));
    assert_eq!(&html[..], expected("0987-06-05 04:03:02", "hi").as_bytes());
}

#[test]
fn note_with_unreadable_date_shows_the_time_in_its_place() {
    for date in ["", "yesterday", "2023-02-29T00:00:00Z", "2024-05-06"] {
        let html = encode_note_with(&note(Some("hi"), date), &time());
        assert_eq!(&html[..], expected("2024-05-06 07:08:09", "hi").as_bytes());
    }
}

#[test]
fn note_with_readable_date_shows_that_date() {
    let html = encode_note_with(&note(Some("hi"), "2020-01-02T03:04:05.678Z"), &time());
    assert_eq!(&html[..], expected("2020-01-02 03:04:05", "hi").as_bytes());
}

#[test]
fn note_with_unreadable_date_shows_the_current_time() {
    let before = chrono::Utc::now().format("%Y-%m-%d %H:%M:%S").to_string();
    for date in ["", "yesterday", "2023-02-29T00:00:00Z", "2024-05-06"] {
        let html = encode_note(&note(Some("hi"), date));
        let html = String::from_utf8(html.to_vec()).unwrap();
        let start = html.find("note-time\">").unwrap() + "note-time\">".len();
        let shown = &html[start..start + 19];
        let after = chrono::Utc::now().format("%Y-%m-%d %H:%M:%S").to_string();
        assert!(before.as_str() <= shown && shown <= after.as_str());
        assert_eq!(html, expected(shown, "hi"));
    }
}

#[test]
fn timestamp_has_its_shape() {
    let mut t = time();
    t.year = 7;
    let html = encode_note_at(&note(None, ""), &t);
    assert_eq!(&html[..], expected("0007-05-06 07:08:09", "").as_bytes());
    t.second = 59;
    t.nanosecond = 1_500_000_000;
    let html = encode_note_at(&note(None, ""), &t);
    assert_eq!(&html[..], expected("0007-05-06 07:08:60", "").as_bytes());
}

#[test]
fn first_counter_hides_nothing() {
    assert_eq!(
        counter(0, 1, 2),
        "<style></style>\n<div id=\"counter-1\" class=\"connection-counter\">接続中: <strong>2</strong>人 <span class=\"user-icons\">👤👤</span></div>"
    );
}

#[test]
fn later_counter_hides_the_one_before() {
    assert_eq!(
        counter(41, 42, 0),
        "<style>#counter-41 { display: none; }\n</style>\n<div id=\"counter-42\" class=\"connection-counter\">接続中: <strong>0</strong>人 <span class=\"user-icons\"></span></div>"
    );
}

#[test]
fn counter_draws_up_to_fifty_visitors() {
    assert_eq!(counter(1, 2, 50).matches("👤").count(), 50);
    assert!(!counter(1, 2, 50).contains(" x "));
    assert_eq!(counter(1, 2, 51).matches("👤").count(), 1);
    assert!(counter(1, 2, 51).contains("<span class=\"user-icons\">👤 x 51</span>"));
}

#[test]
fn counter_writes_large_numbers() {
    let html = counter(usize::MAX - 1, usize::MAX, 1_000_000);
    assert!(html.contains(&format!("#counter-{} {{", usize::MAX - 1)));
    assert!(html.contains(&format!("id=\"counter-{}\"", usize::MAX)));
    assert!(html.contains("<strong>1000000</strong>"));
}

#[test]
fn clones_are_equal() {
    let n = note(Some("x"), "y");
    let c = n.clone();
    assert_eq!((n.id, n.text, n.created_at), (c.id, c.text, c.created_at));
    assert_eq!(n.user.name, c.user.name);
    assert_eq!(n.user.username, c.user.username);
    assert_eq!(n.user.avatar_url, c.user.avatar_url);
    let ctx = Context { previous_id: 1, current_id: 2, connection_count: 3 }.clone();
    assert_eq!((ctx.previous_id, ctx.current_id, ctx.connection_count), (1, 2, 3));
    let data = MisskeyData { html: bytes::Bytes::from_static(b"abc") };
    assert_eq!(data.clone().html, data.html);
}
