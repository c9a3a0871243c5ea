use axum::http::{HeaderMap, HeaderName, HeaderValue};
use bytes::Bytes;
use misskey_ltl::feed::{encode_data, CounterFeed};
use misskey_ltl::misskey::{MisskeyNote, MisskeyUser};
use misskey_ltl::model::MisskeyData;
use misskey_ltl::response::{answer_headers, is_cloudflare, response_headers};
use misskey_ltl::stream::{on_event, opening_chunks, StreamAction, StreamEvent};

fn html(data: &MisskeyData) -> String {
    String::from_utf8(data.html.to_vec()).unwrap()
}

fn request(name: &str) -> HeaderMap {
    let mut headers = HeaderMap::new();
    headers.insert(
        HeaderName::from_bytes(name.as_bytes()).unwrap(),
        HeaderValue::from_static("1"),
    );
    headers
}

#[test]
fn update_is_encoded_under_its_number() {
    let (id, data) = encode_data(3, 7, 1);
    assert_eq!(id, 7);
    assert_eq!(
        html(&data),
        "<style>#counter-3 { display: none; }\n</style>\n<div id=\"counter-7\" class=\"connection-counter\">接続中: <strong>1</strong>人 <span class=\"user-icons\">👤</span></div>"
    );
}

#[test]
fn feed_starts_with_update_one() {
    let (feed, data) = CounterFeed::start(0);
    assert!(html(&data).starts_with("<style></style>\n<div id=\"counter-1\""));
    assert_eq!(feed, CounterFeed { next_id: 2, previous_id: 0 });
}

#[test]
fn each_sent_update_hides_the_one_before() {
    let (mut feed, _) = CounterFeed::start(0);
    let mut sent: Vec<(usize, String)> = Vec::new();
    for delivered in [true, false, true, true] {
        let (id, data) = feed.tick(3);
        if delivered {
            feed.delivered(id);
            sent.push((id, html(&data)));
        }
    }
    assert_eq!(sent.iter().map(|s| s.0).collect::<Vec<usize>>(), vec![2, 4, 5]);
    assert!(sent[0].1.starts_with("<style></style>"));
    assert!(sent[1].1.starts_with("<style>#counter-2 {"));
    assert!(sent[2].1.starts_with("<style>#counter-4 {"));
    for i in 0..3 {
        let rule = format!("#counter-{} {{", sent[i].0);
        assert_eq!(sent.iter().any(|s| s.1.contains(&rule)), i < 2);
    }
}

#[test]
fn numbers_start_over_when_they_run_out() {
    let mut feed = CounterFeed { next_id: usize::MAX, previous_id: 5 };
    let (id, _) = feed.tick(0);
    assert_eq!(id, usize::MAX);
    assert_eq!(feed, CounterFeed { next_id: 0, previous_id: 5 });
}

#[test]
fn visitor_gets_the_counter_and_the_head_first() {
    let clock = MisskeyData { html: Bytes::from_static(b"counter") };
    let chunks = opening_chunks(clock, Bytes::from_static(b"head"));
    assert_eq!(chunks, vec![Bytes::from_static(b"counter"), Bytes::from_static(b"head")]);
}

#[test]
fn visitor_gets_updates_and_notes() {
    let data = MisskeyData { html: Bytes::from_static(b"counter") };
    assert!(matches!(
        on_event(StreamEvent::ClockChanged(data)),
        StreamAction::Send(html) if html == Bytes::from_static(b"counter")
    ));
    let note = MisskeyNote {
        id: String::new(),
        text: Some("a & b".to_string()),
        created_at: "2024-05-06T07:08:09.000Z".to_string(),
        user: MisskeyUser {
            name: String::new(),
            username: String::new(),
            avatar_url: String::new(),
        },
    };
    match on_event(StreamEvent::Note(note)) {
        StreamAction::SendThenPause(html, pause) => {
            assert_eq!(pause, 50);
            let html = String::from_utf8(html.to_vec()).unwrap();
            assert!(html.contains("<div class=\"note-content\">a &amp; b</div>"));
            assert!(html.contains("<span class=\"note-time\">2024-05-06 07:08:09</span>"));
        }
        _ => panic!("note not sent"),
    }
}

#[test]
fn visitor_gets_nothing_about_errors() {
    assert!(matches!(on_event(StreamEvent::ClockClosed), StreamAction::Skip));
    assert!(matches!(
        on_event(StreamEvent::BroadcastError),
        StreamAction::PauseThenResubscribe(1000)
    ));
}

#[test]
fn cloudflare_is_known_by_its_header() {
    assert!(is_cloudflare(&request("cf-ray")));
    assert!(is_cloudflare(&request("CF-Ray")));
    assert!(!is_cloudflare(&request("cf-ipcountry")));
    assert!(!is_cloudflare(&HeaderMap::new()));
}

#[test]
fn headers_of_the_page() {
    let direct = answer_headers(&request("host"));
    assert_eq!(
        direct,
        vec![
            ("content-type", "text/html; charset=utf-8"),
            ("x-original-content-type", "text/html; charset=utf-8"),
            ("cache-control", "no-store, no-cache, must-revalidate, max-age=0"),
        ]
    );
    assert_eq!(direct, response_headers(false));
    let behind = answer_headers(&request("cf-ray"));
    assert_eq!(behind[0], ("content-type", "application/grpc"));
    assert_eq!(behind[1..], direct[1..]);
    assert_eq!(behind, response_headers(true));
}

#[test]
fn visitor_gets_one_chunk_for_each_update_and_note() {
    let update = |html: &'static str| {
        StreamEvent::ClockChanged(MisskeyData { html: Bytes::from_static(html.as_bytes()) })
    };
    let events = vec![
        update("one"),
        StreamEvent::BroadcastError,
        update("two"),
        StreamEvent::ClockClosed,
        update("three"),
    ];
    let mut sent: Vec<Bytes> = Vec::new();
    for event in events {
        match on_event(event) {
            StreamAction::Send(html) | StreamAction::SendThenPause(html, _) => sent.push(html),
            StreamAction::Skip | StreamAction::PauseThenResubscribe(_) => {}
        }
    }
    assert_eq!(sent, vec!["one", "two", "three"]);
}
