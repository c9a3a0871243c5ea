//! Notes and the visitor counter as HTML.

use crate::chunk::{chunk_bytes, chunk_from_string, holds_text};
use crate::misskey::MisskeyNote;
use crate::model::Context;
use crate::text::{
    all_digits, decimal, decimal_string, law_decimal_reads_back, law_repeated_character,
    numeral_value, repeat_string, repeated,
};
use crate::timestamp::{
    format_utc, is_clock_reading, is_server_time, parse_rfc3339_utc, read_clock, rfc3339_utc,
    server_time_text, timestamp_text, UtcDateTime, TIMESTAMP_FORMAT,
};
use bytes::Bytes;
use vstd::prelude::*;
use vstd::utf8::encode_utf8;

verus! {

/// What stands before the address of the author's picture.
pub const NOTE_AVATAR: &'static str = r#"<div class="note">
  <div class="article">
    <div class="avatar">
      <img src=""#;

/// What stands before the author's display name.
pub const NOTE_NAME: &'static str = r#"" alt="avatar" class="avatar-img">
    </div>
    <div class="main">
      <div class="note-header">
        <span class="user-name">"#;

/// What stands before the author's user name.
pub const NOTE_USERNAME: &'static str = r#"</span>
        <span class="user-username">@"#;

/// What stands before the time of the note.
pub const NOTE_TIME: &'static str = r#"</span>
        <span class="note-time">"#;

/// What stands before the text of the note.
pub const NOTE_TEXT: &'static str = r#"</span>
      </div>
      <div class="note-content">"#;

/// What stands behind the text of the note.
pub const NOTE_END: &'static str = r#"</div>
    </div>
  </div>
</div>
"#;

/// The sign that stands for one visitor.
pub const VISITOR: &'static str = "👤";

/// Up to how many visitors one sign is drawn for each.
pub const MAX_VISITORS_DRAWN: usize = 50;

/// What stands for a character of a note's text on the page.
pub open spec fn escape_char(c: char) -> Seq<char> {
    if c == '&' {
        "&amp;"@
    } else if c == '<' {
        "&lt;"@
    } else if c == '>' {
        "&gt;"@
    } else if c == '\n' {
        "<br>"@
    } else {
        seq![c]
    }
}

/// A note's text on the page: each character by itself.
pub open spec fn escaped(text: Seq<char>) -> Seq<char> {
    text.flat_map(|c: char| escape_char(c))
}

/// Turns a note's text into HTML.
pub fn escape_html(text: &str) -> (r: String)
    ensures
        r@ == escaped(text@),
{
    let mut out = String::new();
    let ghost f = |c: char| escape_char(c);
    for c in it: text.chars()
        invariant
            it.seq() == text@,
            f == (|c: char| escape_char(c)),
            out@ == text@.take(it.index() as int).flat_map(f),
    {
        proof {
            text@.lemma_flat_map_take_append(f, it.index() as int);
        }
        if c == '&' {
            out.append("&amp;");
        } else if c == '<' {
            out.append("&lt;");
        } else if c == '>' {
            out.append("&gt;");
        } else if c == '\n' {
            out.append("<br>");
        } else {
            out.push(c);
        }
    }
    assert(text@.take(text@.len() as int) =~= text@);
    out
}

/// A note on the page, as written at `time`: the author's fields go in as they are,
/// the text with its markup escaped.
pub open spec fn note_html(note: MisskeyNote, time: UtcDateTime) -> Seq<char> {
    NOTE_AVATAR@ + note.user.avatar_url@ + NOTE_NAME@ + note.user.name@ + NOTE_USERNAME@
        + note.user.username@ + NOTE_TIME@ + timestamp_text(time) + NOTE_TEXT@ + escaped(
        note.text_or_empty(),
    ) + NOTE_END@
}

/// Whether `chunk` shows `note` under a time that it may be shown under: the time in
/// its `created_at`, which is the one written there where it is dated in the form of the
/// server, or what the clock was read to where it cannot be read.
pub open spec fn shows_note(chunk: Bytes, note: MisskeyNote) -> bool {
    &&& match rfc3339_utc(note.created_at@) {
        Some(time) => holds_text(chunk, note_html(note, time)),
        None => exists|time: UtcDateTime|
            time.wf() && is_clock_reading(time) && #[trigger] holds_text(
                chunk,
                note_html(note, time),
            ),
    }
    &&& forall|time: UtcDateTime|
        is_server_time(time) && note.created_at@ == #[trigger] server_time_text(time)
            ==> holds_text(chunk, note_html(note, time))
}

/// Encodes a note under a given time.
pub fn encode_note_at(note: &MisskeyNote, time: &UtcDateTime) -> (r: Bytes)
    requires
        time.wf(),
    ensures
        holds_text(r, note_html(*note, *time)),
{
    let text = match &note.text {
        Some(text) => escape_html(text),
        None => escape_html(""),
    };
    let created_at = format_utc(time, TIMESTAMP_FORMAT);
    let mut html = NOTE_AVATAR.to_owned();
    html.append(&note.user.avatar_url);
    html.append(NOTE_NAME);
    html.append(&note.user.name);
    html.append(NOTE_USERNAME);
    html.append(&note.user.username);
    html.append(NOTE_TIME);
    html.append(&created_at);
    html.append(NOTE_TEXT);
    html.append(&text);
    html.append(NOTE_END);
    proof {
        reveal_strlit("");
        assert(""@ =~= Seq::<char>::empty());
    }
    chunk_from_string(html)
}

/// The time that a note is shown under: that of its `created_at`, or `now` where that
/// cannot be read.
pub open spec fn note_time(note: MisskeyNote, now: UtcDateTime) -> UtcDateTime {
    match rfc3339_utc(note.created_at@) {
        Some(time) => time,
        None => now,
    }
}

/// Encodes a note under the time of its `created_at`, or under `now` where that cannot
/// be read.
pub fn encode_note_with(note: &MisskeyNote, now: &UtcDateTime) -> (r: Bytes)
    requires
        now.wf(),
    ensures
        holds_text(r, note_html(*note, note_time(*note, *now))),
{
    match parse_rfc3339_utc(&note.created_at) {
        Some(time) => encode_note_at(note, &time),
        None => encode_note_at(note, now),
    }
}

/// Encodes a note under the time of its `created_at`, or under what the clock is read to
/// where that cannot be read. The clock is read in that case only.
pub fn encode_note(note: &MisskeyNote) -> (r: Bytes)
    ensures
        shows_note(r, *note),
{
    match parse_rfc3339_utc(&note.created_at) {
        Some(time) => encode_note_at(note, &time),
        None => encode_note_with(note, &read_clock()),
    }
}

/// The element that update number `id` of the counter is shown in.
pub open spec fn counter_id(id: nat) -> Seq<char> {
    "counter-"@ + decimal(id)
}

/// The style rule that hides update number `id` of the counter; there is no update zero.
pub open spec fn hide_rule(id: nat) -> Seq<char> {
    if id > 0 {
        "#"@ + counter_id(id) + " { display: none; }\n"@
    } else {
        Seq::empty()
    }
}

/// A sign for each visitor, or one sign and their number where they are many.
pub open spec fn visitor_icons(count: nat) -> Seq<char> {
    if count <= MAX_VISITORS_DRAWN {
        repeated(VISITOR@, count)
    } else {
        VISITOR@ + " x "@ + decimal(count)
    }
}

/// An update of the counter: it hides the one before, and shows the number of visitors.
pub open spec fn counter_html(previous_id: nat, current_id: nat, count: nat) -> Seq<char> {
    "<style>"@ + hide_rule(previous_id) + "</style>\n"@ + "<div id=\""@ + counter_id(current_id)
        + "\" class=\"connection-counter\">接続中: <strong>"@ + decimal(count)
        + "</strong>人 <span class=\"user-icons\">"@ + visitor_icons(count) + "</span></div>"@
}

/// The name of the element that shows update number `id`.
fn counter_id_string(id: usize) -> (r: String)
    ensures
        r@ == counter_id(id as nat),
{
    let mut out = "counter-".to_owned();
    out.append(&decimal_string(id));
    out
}

/// Encodes an update of the counter.
pub fn encode_connection_count(ctx: &Context) -> (r: Bytes)
    ensures
        holds_text(
            r,
            counter_html(
                ctx.previous_id as nat,
                ctx.current_id as nat,
                ctx.connection_count as nat,
            ),
        ),
{
    let count = decimal_string(ctx.connection_count);
    let user_icons = if ctx.connection_count <= MAX_VISITORS_DRAWN {
        repeat_string(VISITOR, ctx.connection_count)
    } else {
        let mut icons = VISITOR.to_owned();
        icons.append(" x ");
        icons.append(&count);
        icons
    };
    let mut rule = String::new();
    if ctx.previous_id > 0 {
        rule = "#".to_owned();
        rule.append(&counter_id_string(ctx.previous_id));
        rule.append(" { display: none; }\n");
    }
    let mut html = "<style>".to_owned();
    html.append(&rule);
    html.append("</style>\n");
    html.append("<div id=\"");
    html.append(&counter_id_string(ctx.current_id));
    html.append("\" class=\"connection-counter\">接続中: <strong>");
    html.append(&count);
    html.append("</strong>人 <span class=\"user-icons\">");
    html.append(&user_icons);
    html.append("</span></div>");
    chunk_from_string(html)
}

/// What `to` in place of `from` makes of a character.
pub open spec fn replacement(from: char, to: Seq<char>) -> spec_fn(char) -> Seq<char> {
    |c: char| if c == from { to } else { seq![c] }
}

/// The text with every `from` replaced by `to`.
pub open spec fn replaced(text: Seq<char>, from: char, to: Seq<char>) -> Seq<char> {
    text.flat_map(replacement(from, to))
}

/// The first character of a text can be mapped on its own.
proof fn lemma_flat_map_first(s: Seq<char>, f: spec_fn(char) -> Seq<char>)
    requires
        s.len() > 0,
    ensures
        s.flat_map(f) == f(s[0]) + s.drop_first().flat_map(f),
{
    assert(s.map_values(f).drop_first() =~= s.drop_first().map_values(f));
    assert(s.map_values(f).first() == f(s[0]));
}

/// A text can be mapped in two parts.
proof fn lemma_flat_map_concat(a: Seq<char>, b: Seq<char>, f: spec_fn(char) -> Seq<char>)
    ensures
        (a + b).flat_map(f) == a.flat_map(f) + b.flat_map(f),
{
    assert((a + b).map_values(f) =~= a.map_values(f) + b.map_values(f));
    vstd::seq_lib::lemma_flatten_concat(a.map_values(f), b.map_values(f));
}

/// Escaping goes by the character: a text may be escaped in parts.
pub proof fn law_escape_in_parts(a: Seq<char>, b: Seq<char>)
    ensures
        escaped(a + b) == escaped(a) + escaped(b),
{
    lemma_flat_map_concat(a, b, |c: char| escape_char(c));
}

/// Replacing in a part without the character leaves the part as it is.
proof fn lemma_replaced_absent(s: Seq<char>, from: char, to: Seq<char>)
    requires
        !s.contains(from),
    ensures
        replaced(s, from, to) == s,
    decreases s.len(),
{
    let f = replacement(from, to);
    if s.len() == 0 {
        assert(replaced(s, from, to) =~= s);
    } else {
        lemma_flat_map_first(s, f);
        assert(s.contains(s[0]));
        assert forall|x: char| s.drop_first().contains(x) implies s.contains(x) by {
            let k = s.drop_first().index_of(x);
            assert(s[k + 1] == x);
        }
        lemma_replaced_absent(s.drop_first(), from, to);
        assert(replaced(s, from, to) =~= s);
    }
}

/// Replacing in a text of one character.
proof fn lemma_replaced_single(c: char, from: char, to: Seq<char>)
    ensures
        replaced(seq![c], from, to) == (if c == from { to } else { seq![c] }),
{
    let f = replacement(from, to);
    lemma_flat_map_first(seq![c], f);
    assert(seq![c].drop_first() =~= Seq::<char>::empty());
    assert(seq![c].drop_first().flat_map(f) =~= Seq::<char>::empty());
    assert(replaced(seq![c], from, to) =~= f(c));
}

/// The four replacements, one after the other.
pub open spec fn replaced_in_turn(text: Seq<char>) -> Seq<char> {
    replaced(
        replaced(replaced(replaced(text, '&', "&amp;"@), '<', "&lt;"@), '>', "&gt;"@),
        '\n',
        "<br>"@,
    )
}

/// The four replacements on one character.
proof fn lemma_replaced_in_turn_single(c: char)
    ensures
        replaced_in_turn(seq![c]) == escape_char(c),
{
    reveal_strlit("&amp;");
    reveal_strlit("&lt;");
    reveal_strlit("&gt;");
    reveal_strlit("<br>");
    lemma_replaced_single(c, '&', "&amp;"@);
    let s1 = replaced(seq![c], '&', "&amp;"@);
    if c == '&' {
        lemma_replaced_absent(s1, '<', "&lt;"@);
        lemma_replaced_absent(s1, '>', "&gt;"@);
        lemma_replaced_absent(s1, '\n', "<br>"@);
    } else {
        lemma_replaced_single(c, '<', "&lt;"@);
        let s2 = replaced(s1, '<', "&lt;"@);
        if c == '<' {
            lemma_replaced_absent(s2, '>', "&gt;"@);
            lemma_replaced_absent(s2, '\n', "<br>"@);
        } else {
            lemma_replaced_single(c, '>', "&gt;"@);
            let s3 = replaced(s2, '>', "&gt;"@);
            if c == '>' {
                lemma_replaced_absent(s3, '\n', "<br>"@);
            } else {
                lemma_replaced_single(c, '\n', "<br>"@);
            }
        }
    }
}

/// The four replacements may be made in parts.
proof fn lemma_replaced_in_turn_concat(a: Seq<char>, b: Seq<char>)
    ensures
        replaced_in_turn(a + b) == replaced_in_turn(a) + replaced_in_turn(b),
{
    let f1 = replacement('&', "&amp;"@);
    let f2 = replacement('<', "&lt;"@);
    let f3 = replacement('>', "&gt;"@);
    let f4 = replacement('\n', "<br>"@);
    lemma_flat_map_concat(a, b, f1);
    lemma_flat_map_concat(a.flat_map(f1), b.flat_map(f1), f2);
    lemma_flat_map_concat(a.flat_map(f1).flat_map(f2), b.flat_map(f1).flat_map(f2), f3);
    lemma_flat_map_concat(
        a.flat_map(f1).flat_map(f2).flat_map(f3),
        b.flat_map(f1).flat_map(f2).flat_map(f3),
        f4,
    );
}

/// Escaping is the same as replacing `&`, `<`, `>` and the line break in turn.
pub proof fn law_escape_is_replacing_in_turn(text: Seq<char>)
    ensures
        escaped(text) == replaced_in_turn(text),
    decreases text.len(),
{
    let f = |c: char| escape_char(c);
    if text.len() == 0 {
        assert(text =~= Seq::<char>::empty());
        lemma_replaced_absent(text, '&', "&amp;"@);
        lemma_replaced_absent(text, '<', "&lt;"@);
        lemma_replaced_absent(text, '>', "&gt;"@);
        lemma_replaced_absent(text, '\n', "<br>"@);
        assert(escaped(text) =~= Seq::<char>::empty());
    } else {
        lemma_flat_map_first(text, f);
        law_escape_is_replacing_in_turn(text.drop_first());
        lemma_replaced_in_turn_single(text[0]);
        assert(text =~= seq![text[0]] + text.drop_first());
        lemma_replaced_in_turn_concat(seq![text[0]], text.drop_first());
    }
}

/// Whether all markup in `html` is line breaks, written `<br>`, and every `&` begins
/// the name of an escaped character.
pub open spec fn is_escaped_markup(html: Seq<char>) -> bool {
    forall|i: int|
        0 <= i < html.len() ==> {
            &&& #[trigger] html[i] != '\n'
            &&& html[i] == '<' ==> i + 4 <= html.len() && html.subrange(i, i + 4) == "<br>"@
            &&& html[i] == '>' ==> i >= 3 && html.subrange(i - 3, i + 1) == "<br>"@
            &&& html[i] == '&' ==> {
                ||| i + 5 <= html.len() && html.subrange(i, i + 5) == "&amp;"@
                ||| i + 4 <= html.len() && html.subrange(i, i + 4) == "&lt;"@
                ||| i + 4 <= html.len() && html.subrange(i, i + 4) == "&gt;"@
            }
        }
}

/// One escaped character is free of other markup.
proof fn lemma_escape_char_markup(c: char)
    ensures
        is_escaped_markup(escape_char(c)),
{
    reveal_strlit("&amp;");
    reveal_strlit("&lt;");
    reveal_strlit("&gt;");
    reveal_strlit("<br>");
    let e = escape_char(c);
    assert(e.subrange(0, e.len() as int) =~= e);
}

/// Two texts free of other markup are so together.
proof fn lemma_markup_concat(a: Seq<char>, b: Seq<char>)
    requires
        is_escaped_markup(a),
        is_escaped_markup(b),
    ensures
        is_escaped_markup(a + b),
{
    let html = a + b;
    assert forall|i: int| 0 <= i < html.len() implies {
        &&& #[trigger] html[i] != '\n'
        &&& html[i] == '<' ==> i + 4 <= html.len() && html.subrange(i, i + 4) == "<br>"@
        &&& html[i] == '>' ==> i >= 3 && html.subrange(i - 3, i + 1) == "<br>"@
        &&& html[i] == '&' ==> {
            ||| i + 5 <= html.len() && html.subrange(i, i + 5) == "&amp;"@
            ||| i + 4 <= html.len() && html.subrange(i, i + 4) == "&lt;"@
            ||| i + 4 <= html.len() && html.subrange(i, i + 4) == "&gt;"@
        }
    } by {
        let (part, k, off) = if i < a.len() {
            (a, i, 0int)
        } else {
            (b, i - a.len(), a.len() as int)
        };
        assert(part[k] == html[i]);
        assert forall|p: int, q: int| 0 <= p <= q <= part.len() implies #[trigger] part.subrange(
            p,
            q,
        ) == html.subrange(p + off, q + off) by {
            assert(part.subrange(p, q) =~= html.subrange(p + off, q + off));
        }
    }
}

/// No markup of a note's text reaches the page: what was a line break is a `<br>`, and
/// there is no other markup.
pub proof fn law_escape_leaves_no_markup(text: Seq<char>)
    ensures
        is_escaped_markup(escaped(text)),
    decreases text.len(),
{
    let f = |c: char| escape_char(c);
    if text.len() == 0 {
        assert(escaped(text) =~= Seq::<char>::empty());
    } else {
        lemma_flat_map_first(text, f);
        law_escape_leaves_no_markup(text.drop_first());
        lemma_escape_char_markup(text[0]);
        lemma_markup_concat(escape_char(text[0]), escaped(text.drop_first()));
    }
}

/// Escaping loses nothing: no two texts look alike on the page.
pub proof fn law_escape_injective(a: Seq<char>, b: Seq<char>)
    requires
        escaped(a) == escaped(b),
    ensures
        a == b,
    decreases a.len(),
{
    reveal_strlit("&amp;");
    reveal_strlit("&lt;");
    reveal_strlit("&gt;");
    reveal_strlit("<br>");
    let f = |c: char| escape_char(c);
    if a.len() == 0 {
        assert(escaped(a) =~= Seq::<char>::empty());
        if b.len() > 0 {
            lemma_flat_map_first(b, f);
            assert(escape_char(b[0]).len() > 0);
        }
        assert(a =~= b);
    } else {
        lemma_flat_map_first(a, f);
        if b.len() == 0 {
            assert(escaped(b) =~= Seq::<char>::empty());
            assert(escape_char(a[0]).len() > 0);
        } else {
            lemma_flat_map_first(b, f);
            let e = escaped(a);
            let ea = escape_char(a[0]);
            let eb = escape_char(b[0]);
            let ra = escaped(a.drop_first());
            let rb = escaped(b.drop_first());
            assert(forall|i: int| 0 <= i < ea.len() ==> e[i] == #[trigger] ea[i]);
            assert(forall|i: int| 0 <= i < eb.len() ==> e[i] == #[trigger] eb[i]);
            assert(ea[0] == eb[0]);
            assert(ea.len() > 1 && eb.len() > 1 ==> ea[1] == eb[1]);
            assert(a[0] == b[0]);
            assert(ra =~= e.skip(ea.len() as int));
            assert(rb =~= e.skip(eb.len() as int));
            law_escape_injective(a.drop_first(), b.drop_first());
            assert(a =~= seq![a[0]] + a.drop_first());
            assert(b =~= seq![b[0]] + b.drop_first());
        }
    }
}

/// A text without `&`, `<`, `>` and line breaks is shown as it is.
pub proof fn law_plain_text_is_kept(text: Seq<char>)
    requires
        !text.contains('&'),
        !text.contains('<'),
        !text.contains('>'),
        !text.contains('\n'),
    ensures
        escaped(text) == text,
{
    law_escape_is_replacing_in_turn(text);
    lemma_replaced_absent(text, '&', "&amp;"@);
    lemma_replaced_absent(text, '<', "&lt;"@);
    lemma_replaced_absent(text, '>', "&gt;"@);
    lemma_replaced_absent(text, '\n', "<br>"@);
}

/// `escape_html` makes the four replacements in turn, in the whole text.
pub proof fn law_escape_html_replaces_in_turn(text: &str, r: String)
    requires
        call_ensures(escape_html, (text,), r),
    ensures
        r@ == replaced_in_turn(text@),
{
    law_escape_is_replacing_in_turn(text@);
}

/// A note goes onto the page whole: the three fields of its author as they are, the time,
/// and all of its text with the four replacements made, each in its place in the markup.
pub proof fn law_note_goes_onto_the_page_whole(note: MisskeyNote, time: UtcDateTime, r: Bytes)
    requires
        call_ensures(encode_note_at, (&note, &time), r),
    ensures
        chunk_bytes(r) == encode_utf8(
            r#"<div class="note">
  <div class="article">
    <div class="avatar">
      <img src=""#@ + note.user.avatar_url@
                + r#"" alt="avatar" class="avatar-img">
    </div>
    <div class="main">
      <div class="note-header">
        <span class="user-name">"#@
                + note.user.name@ + r#"</span>
        <span class="user-username">@"#@ + note.user.username@
                + r#"</span>
        <span class="note-time">"#@ + timestamp_text(time)
                + r#"</span>
      </div>
      <div class="note-content">"#@ + (match note.text {
                Some(text) => replaced_in_turn(text@),
                None => Seq::empty(),
            }) + r#"</div>
    </div>
  </div>
</div>
"#@,
        ),
{
    law_escape_is_replacing_in_turn(note.text_or_empty());
    if note.text is None {
        assert(escaped(note.text_or_empty()) =~= Seq::<char>::empty());
    }
}

/// What surrounds the text of a note does not depend on it: between two notes of one
/// author at one time the markup is the same, and the text of each is there in full.
pub proof fn law_text_stands_in_its_place(a: MisskeyNote, b: MisskeyNote, time: UtcDateTime)
    requires
        a.user == b.user,
    ensures
        exists|before: Seq<char>, after: Seq<char>|
            note_html(a, time) == before + escaped(a.text_or_empty()) + after && note_html(b, time)
                == #[trigger] (before + escaped(b.text_or_empty()) + after),
{
    let before = NOTE_AVATAR@ + a.user.avatar_url@ + NOTE_NAME@ + a.user.name@ + NOTE_USERNAME@
        + a.user.username@ + NOTE_TIME@ + timestamp_text(time) + NOTE_TEXT@;
    assert(note_html(a, time) == before + escaped(a.text_or_empty()) + NOTE_END@);
    assert(note_html(b, time) == before + escaped(b.text_or_empty()) + NOTE_END@);
}

/// Equal texts remain where equal beginnings and endings are taken off.
proof fn lemma_same_middle(before: Seq<char>, x: Seq<char>, y: Seq<char>, after: Seq<char>)
    requires
        before + x + after == before + y + after,
    ensures
        x == y,
{
    let whole = before + x + after;
    assert(whole.len() == before.len() + x.len() + after.len());
    assert(whole.len() == before.len() + y.len() + after.len());
    let end = before.len() + x.len();
    assert(x =~= whole.subrange(before.len() as int, end as int));
    assert(y =~= whole.subrange(before.len() as int, end as int));
}

/// Two notes of one author at one time look alike only where their texts are the same.
pub proof fn law_notes_with_other_texts_look_different(
    a: MisskeyNote,
    b: MisskeyNote,
    time: UtcDateTime,
)
    requires
        a.user == b.user,
        note_html(a, time) == note_html(b, time),
    ensures
        a.text_or_empty() == b.text_or_empty(),
{
    law_text_stands_in_its_place(a, b, time);
    let (before, after) = choose|before: Seq<char>, after: Seq<char>|
        note_html(a, time) == before + escaped(a.text_or_empty()) + after && note_html(b, time)
            == #[trigger] (before + escaped(b.text_or_empty()) + after);
    lemma_same_middle(before, escaped(a.text_or_empty()), escaped(b.text_or_empty()), after);
    law_escape_injective(a.text_or_empty(), b.text_or_empty());
}

/// The text of a note is what it carries, and empty where it carries none.
pub proof fn law_text_of_a_note(note: MisskeyNote)
    ensures
        note.text matches Some(text) ==> note.text_or_empty() == text@,
        note.text is None ==> note.text_or_empty().len() == 0,
{
}

/// With a time at hand, a note is encoded under its own date where that can be read, and
/// under the time at hand where not.
pub proof fn law_own_date_comes_first(
    note: MisskeyNote,
    now: UtcDateTime,
    time: UtcDateTime,
    r: Bytes,
    expected: Bytes,
)
    requires
        call_ensures(encode_note_with, (&note, &now), r),
        call_ensures(encode_note_at, (&note, &time), expected),
        rfc3339_utc(note.created_at@) matches Some(own) ==> time == own,
        rfc3339_utc(note.created_at@) is None ==> time == now,
    ensures
        chunk_bytes(r) == chunk_bytes(expected),
{
}

/// A note whose date can be read is encoded as it is under that date, whatever the time;
/// so is a note dated in the form of the server, under the date written there.
pub proof fn law_readable_date_is_shown(
    note: MisskeyNote,
    time: UtcDateTime,
    r: Bytes,
    expected: Bytes,
)
    requires
        call_ensures(encode_note, (&note,), r),
        call_ensures(encode_note_at, (&note, &time), expected),
        rfc3339_utc(note.created_at@) == Some(time) || (is_server_time(time) && note.created_at@
            == server_time_text(time)),
    ensures
        chunk_bytes(r) == chunk_bytes(expected),
{
}

/// A note whose date cannot be read is encoded as it is under a time that the clock was
/// read to.
pub proof fn law_unreadable_date_is_replaced(note: MisskeyNote, r: Bytes)
    requires
        call_ensures(encode_note, (&note,), r),
        rfc3339_utc(note.created_at@) is None,
    ensures
        exists|time: UtcDateTime|
            time.wf() && is_clock_reading(time) && chunk_bytes(r) == encode_utf8(
                #[trigger] note_html(note, time),
            ),
{
    let time = choose|time: UtcDateTime|
        time.wf() && is_clock_reading(time) && #[trigger] holds_text(r, note_html(note, time));
    assert(holds_text(r, note_html(note, time)));
}

/// Up to fifty visitors there is one sign for each.
pub proof fn law_few_visitors_are_drawn(count: nat)
    requires
        count <= 50,
    ensures
        visitor_icons(count) == Seq::new(count, |i: int| '👤'),
{
    reveal_strlit("👤");
    assert(VISITOR@ =~= seq!['👤']);
    law_repeated_character('👤', count);
}

/// Above fifty visitors there is one sign, and their number is read back behind it.
pub proof fn law_many_visitors_are_counted(count: nat)
    requires
        count > 50,
    ensures
        visitor_icons(count).len() > 4,
        visitor_icons(count).take(4) == seq!['👤', ' ', 'x', ' '],
        all_digits(visitor_icons(count).skip(4)),
        numeral_value(visitor_icons(count).skip(4)) == count,
{
    reveal_strlit("👤");
    reveal_strlit(" x ");
    law_decimal_reads_back(count);
    assert(visitor_icons(count).take(4) =~= seq!['👤', ' ', 'x', ' ']);
    assert(visitor_icons(count).skip(4) =~= decimal(count));
}

/// No two numbers of visitors are shown by the same signs.
pub proof fn law_visitor_icons_injective(a: nat, b: nat)
    requires
        visitor_icons(a) == visitor_icons(b),
    ensures
        a == b,
{
    if a <= 50 {
        law_few_visitors_are_drawn(a);
    } else {
        law_many_visitors_are_counted(a);
    }
    if b <= 50 {
        law_few_visitors_are_drawn(b);
    } else {
        law_many_visitors_are_counted(b);
    }
    if a <= 50 && b > 50 {
        assert(visitor_icons(b).take(4)[1] == visitor_icons(b)[1]);
        assert(visitor_icons(a)[1] == '👤');
    }
    if a > 50 && b <= 50 {
        assert(visitor_icons(a).take(4)[1] == visitor_icons(a)[1]);
        assert(visitor_icons(b)[1] == '👤');
    }
}

/// An update names its own element and the one that it hides by their numbers, and gives
/// the number of visitors in digits and in signs.
pub proof fn law_update_shows_its_numbers(ctx: Context, r: Bytes)
    requires
        call_ensures(encode_connection_count, (&ctx,), r),
    ensures
        chunk_bytes(r) == encode_utf8(
            "<style>"@ + (if ctx.previous_id > 0 {
                "#"@ + "counter-"@ + decimal(ctx.previous_id as nat) + " { display: none; }\n"@
            } else {
                Seq::empty()
            }) + "</style>\n"@ + "<div id=\""@ + "counter-"@ + decimal(ctx.current_id as nat)
                + "\" class=\"connection-counter\">接続中: <strong>"@ + decimal(
                ctx.connection_count as nat,
            ) + "</strong>人 <span class=\"user-icons\">"@ + (if ctx.connection_count <= 50 {
                Seq::new(ctx.connection_count as nat, |i: int| '👤')
            } else {
                seq!['👤', ' ', 'x', ' '] + decimal(ctx.connection_count as nat)
            }) + "</span></div>"@,
        ),
{
    let count = ctx.connection_count as nat;
    let icons = if ctx.connection_count <= 50 {
        Seq::new(count, |i: int| '👤')
    } else {
        seq!['👤', ' ', 'x', ' '] + decimal(count)
    };
    if ctx.connection_count <= 50 {
        law_few_visitors_are_drawn(count);
    } else {
        reveal_strlit("👤");
        reveal_strlit(" x ");
        assert(icons =~= visitor_icons(count));
    }
    let rule = if ctx.previous_id > 0 {
        "#"@ + "counter-"@ + decimal(ctx.previous_id as nat) + " { display: none; }\n"@
    } else {
        Seq::empty()
    };
    assert(rule =~= hide_rule(ctx.previous_id as nat));
    assert(counter_html(
        ctx.previous_id as nat,
        ctx.current_id as nat,
        count,
    ) =~= "<style>"@ + rule + "</style>\n"@ + "<div id=\""@ + "counter-"@ + decimal(
        ctx.current_id as nat,
    ) + "\" class=\"connection-counter\">接続中: <strong>"@ + decimal(count)
        + "</strong>人 <span class=\"user-icons\">"@ + icons + "</span></div>"@);
}

/// An update that replaces another hides the very element that the other is shown in.
pub proof fn law_update_hides_the_element_of_the_one_before(
    before: nat,
    id: nat,
    after: nat,
    count: nat,
    later_count: nat,
)
    requires
        id > 0,
    ensures
        exists|name: Seq<char>, a: Seq<char>, b: Seq<char>, c: Seq<char>, d: Seq<char>|
            counter_html(before, id, count) == #[trigger] (a + "<div id=\""@ + name + "\""@ + b)
                && counter_html(id, after, later_count) == #[trigger] (c + "#"@ + name
                + " { display: none; }\n"@ + d),
{
    reveal_strlit("\"");
    reveal_strlit("\" class=\"connection-counter\">接続中: <strong>");
    let name = counter_id(id);
    let first = counter_html(before, id, count);
    let quoted = "\" class=\"connection-counter\">接続中: <strong>"@;
    let a = "<style>"@ + hide_rule(before) + "</style>\n"@;
    let b = quoted.skip(1) + decimal(count) + "</strong>人 <span class=\"user-icons\">"@
        + visitor_icons(count) + "</span></div>"@;
    let second = counter_html(id, after, later_count);
    let c = "<style>"@;
    let d = "</style>\n"@ + "<div id=\""@ + counter_id(after) + quoted + decimal(later_count)
        + "</strong>人 <span class=\"user-icons\">"@ + visitor_icons(later_count)
        + "</span></div>"@;
    assert(quoted =~= "\""@ + quoted.skip(1));
    assert(first =~= a + "<div id=\""@ + name + "\""@ + b);
    assert(second =~= c + "#"@ + name + " { display: none; }\n"@ + d);
}

} // verus!
