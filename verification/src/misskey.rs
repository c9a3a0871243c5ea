//! Notes of the timeline and the messages that carry them.

use crate::json::{json_get, json_is_object, json_is_text, json_of, parse_json, parsed_json, Json};
use crate::text::{has_content, is_blank, is_white_space};
use serde_json::Value;
use vstd::prelude::*;

verus! {

/// The server whose timeline is shown.
pub const MISSKEY_DOMAIN: &'static str = "misskey.io";

/// The author of a note.
#[derive(Debug)]
pub struct MisskeyUser {
    pub name: String,
    pub username: String,
    pub avatar_url: String,
}

impl Clone for MisskeyUser {
    fn clone(&self) -> (r: Self)
        ensures
            r == *self,
    {
        MisskeyUser {
            name: self.name.clone(),
            username: self.username.clone(),
            avatar_url: self.avatar_url.clone(),
        }
    }
}

/// A note of the timeline.
#[derive(Debug)]
pub struct MisskeyNote {
    pub id: String,
    pub text: Option<String>,
    pub created_at: String,
    pub user: MisskeyUser,
}

impl MisskeyNote {
    /// The text of the note; empty where it has none.
    pub open spec fn text_or_empty(self) -> Seq<char> {
        match self.text {
            Some(text) => text@,
            None => Seq::empty(),
        }
    }

    /// Whether the note has a text with something in it besides white space.
    pub open spec fn is_displayable(self) -> bool {
        self.text is Some && !is_blank(self.text->0@)
    }
}

impl Clone for MisskeyNote {
    fn clone(&self) -> (r: Self)
        ensures
            r == *self,
    {
        let text = match &self.text {
            Some(text) => Some(text.clone()),
            None => None,
        };
        MisskeyNote {
            id: self.id.clone(),
            text,
            created_at: self.created_at.clone(),
            user: self.user.clone(),
        }
    }
}

/// What is asked of a channel when it is joined.
#[derive(Debug, Clone, Copy, PartialEq, Eq, Structural)]
pub struct ConnectParams {
    pub with_renotes: bool,
    pub with_replies: bool,
}

/// Which channel to join, and under which name its messages come back.
#[derive(Debug)]
pub struct ConnectBody {
    pub channel: String,
    pub id: String,
    pub params: ConnectParams,
}

/// The message that joins a channel.
#[derive(Debug)]
pub struct ConnectMessage {
    pub typ: String,
    pub body: ConnectBody,
}

impl ConnectMessage {
    /// Whether this message joins the local timeline, with renotes and without replies.
    pub open spec fn joins_local_timeline(self) -> bool {
        &&& self.typ@ == "connect"@
        &&& self.body.channel@ == "localTimeline"@
        &&& self.body.id@ == "local"@
        &&& self.body.params == (ConnectParams { with_renotes: true, with_replies: false })
    }

    /// The message that joins the local timeline.
    pub fn local_timeline() -> (r: Self)
        ensures
            r.joins_local_timeline(),
    {
        ConnectMessage {
            typ: "connect".to_owned(),
            body: ConnectBody {
                channel: "localTimeline".to_owned(),
                id: "local".to_owned(),
                params: ConnectParams { with_renotes: true, with_replies: false },
            },
        }
    }
}

/// The message that keeps a quiet connection open.
#[derive(Debug)]
pub struct PingMessage {
    pub typ: String,
}

impl PingMessage {
    /// The heartbeat.
    pub fn new() -> (r: Self)
        ensures
            r.typ@ == "ping"@,
    {
        PingMessage { typ: "ping".to_owned() }
    }
}

/// The address of the streaming service; a token goes into it as it is.
pub open spec fn ws_url_text(token: Option<Seq<char>>) -> Seq<char> {
    match token {
        Some(t) => "wss://"@ + MISSKEY_DOMAIN@ + "/streaming?i="@ + t,
        None => "wss://"@ + MISSKEY_DOMAIN@ + "/streaming"@,
    }
}

/// The characters of an optional string.
pub open spec fn optional_text(s: Option<String>) -> Option<Seq<char>> {
    match s {
        Some(s) => Some(s@),
        None => None,
    }
}

/// The address of the streaming service.
pub fn ws_url(token: &Option<String>) -> (r: String)
    ensures
        r@ == ws_url_text(optional_text(*token)),
{
    let mut url = "wss://".to_owned();
    url.append(MISSKEY_DOMAIN);
    match token {
        Some(t) => {
            url.append("/streaming?i=");
            url.append(t);
        },
        None => {
            url.append("/streaming");
        },
    }
    url
}

/// What the envelope of a message says about its content.
pub enum Envelope {
    /// The message carries no note.
    Unrelated,
    /// The message announces something and lacks the member that says what.
    Incomplete,
    /// The message carries this as a note.
    Note(Json),
}

/// Opens the envelope of a message: `{"type":"channel","body":{"type":"note","body":..}}`
/// carries a note, whatever other members it has.
pub open spec fn envelope(message: Option<Json>) -> Envelope {
    match message {
        Some(json) => if json.member("type"@) != Some(Json::Text("channel"@)) {
            Envelope::Unrelated
        } else {
            match json.member("body"@) {
                Some(Json::Object(members)) => {
                    let body = Json::Object(members);
                    match body.member("type"@) {
                        Some(kind) => if kind != Json::Text("note"@) {
                            Envelope::Unrelated
                        } else {
                            match body.member("body"@) {
                                Some(note) => Envelope::Note(note),
                                None => Envelope::Incomplete,
                            }
                        },
                        None => Envelope::Incomplete,
                    }
                },
                _ => Envelope::Unrelated,
            }
        },
        None => Envelope::Unrelated,
    }
}

/// Why a message was not processed: its envelope is incomplete.
#[derive(Debug, Clone, Copy, PartialEq, Eq, Structural)]
pub struct IncompleteEnvelope;

/// The decoded note, where there is one and it has something to show.
pub open spec fn displayable_part(decoded: Option<MisskeyNote>) -> Option<MisskeyNote> {
    match decoded {
        Some(note) => if note.is_displayable() {
            Some(note)
        } else {
            None
        },
        None => None,
    }
}

/// Keeps a decoded note that has something to show.
pub fn keep_displayable(decoded: Option<MisskeyNote>) -> (r: Option<MisskeyNote>)
    ensures
        r == displayable_part(decoded),
{
    let keep = match &decoded {
        Some(note) => match &note.text {
            Some(text) => has_content(text),
            None => false,
        },
        None => false,
    };
    if keep {
        decoded
    } else {
        None
    }
}

/// Finds what a message carries as a note.
pub fn open_envelope(message: &Value) -> (r: Result<Option<&Value>, IncompleteEnvelope>)
    ensures
        match envelope(Some(json_of(*message))) {
            Envelope::Unrelated => r == Ok::<Option<&Value>, IncompleteEnvelope>(None),
            Envelope::Incomplete => r is Err,
            Envelope::Note(json) => r is Ok && r->Ok_0 is Some && json_of(*(r->Ok_0->0)) == json,
        },
{
    let is_channel = match json_get(message, "type") {
        Some(kind) => json_is_text(kind, "channel"),
        None => false,
    };
    if !is_channel {
        return Ok(None);
    }
    let body = match json_get(message, "body") {
        Some(body) => body,
        None => return Ok(None),
    };
    if !json_is_object(body) {
        return Ok(None);
    }
    let is_note = match json_get(body, "type") {
        Some(kind) => json_is_text(kind, "note"),
        None => return Err(IncompleteEnvelope),
    };
    if !is_note {
        return Ok(None);
    }
    match json_get(body, "body") {
        Some(note) => Ok(Some(note)),
        None => Err(IncompleteEnvelope),
    }
}

/// Takes the note out of a message, if it carries one that has something to show.
///
/// `decode` reads the note from the JSON that stands for it.
pub fn process_message<F: Fn(&Value) -> Option<MisskeyNote>>(text: &str, decode: F) -> (r: Option<
    MisskeyNote,
>)
    requires
        envelope(parsed_json(text@)) !is Incomplete,
        forall|value: &Value| #[trigger] call_requires(decode, (value,)),
    ensures
        match envelope(parsed_json(text@)) {
            Envelope::Note(json) => exists|value: &Value, decoded: Option<MisskeyNote>|
                json_of(*value) == json && #[trigger] call_ensures(decode, (value,), decoded) && r
                    == displayable_part(decoded),
            _ => r is None,
        },
        r matches Some(note) ==> note.is_displayable(),
{
    let message = match parse_json(text) {
        Some(message) => message,
        None => return None,
    };
    match open_envelope(&message) {
        Ok(Some(content)) => {
            let decoded = decode(content);
            keep_displayable(decoded)
        },
        _ => None,
    }
}

/// Takes the note out of a message, or reports that the envelope is incomplete.
pub fn try_process_message<F: Fn(&Value) -> Option<MisskeyNote>>(text: &str, decode: F) -> (r:
    Result<Option<MisskeyNote>, IncompleteEnvelope>)
    requires
        forall|value: &Value| #[trigger] call_requires(decode, (value,)),
    ensures
        match envelope(parsed_json(text@)) {
            Envelope::Unrelated => r == Ok::<Option<MisskeyNote>, IncompleteEnvelope>(None),
            Envelope::Incomplete => r is Err,
            Envelope::Note(json) => exists|value: &Value, decoded: Option<MisskeyNote>|
                json_of(*value) == json && #[trigger] call_ensures(decode, (value,), decoded) && r
                    == Ok::<Option<MisskeyNote>, IncompleteEnvelope>(displayable_part(decoded)),
        },
        r matches Ok(Some(note)) ==> note.is_displayable(),
{
    let message = match parse_json(text) {
        Some(message) => message,
        None => return Ok(None),
    };
    match open_envelope(&message) {
        Ok(_) => Ok(process_message(text, decode)),
        Err(e) => Err(e),
    }
}

/// Whether `members` has `value` under `key`.
pub open spec fn has_entry(members: Map<Seq<char>, Json>, key: Seq<char>, value: Json) -> bool {
    members.dom().contains(key) && members[key] == value
}

/// Whether `message` is an object of type `channel` whose body is the object `body`.
pub open spec fn is_channel_message(message: Json, body: Map<Seq<char>, Json>) -> bool {
    message matches Json::Object(members) && has_entry(
        members,
        "type"@,
        Json::Text("channel"@),
    ) && has_entry(members, "body"@, Json::Object(body))
}

/// Whether the body of `message` is of type `note`, with `note` as its own body.
pub open spec fn is_note_message(message: Json, note: Json) -> bool {
    exists|body: Map<Seq<char>, Json>| #[trigger]
        is_channel_message(message, body) && has_entry(body, "type"@, Json::Text("note"@))
            && has_entry(body, "body"@, note)
}

/// Whether the body of `message` has no type, or is of type `note` and has no body.
pub open spec fn is_incomplete_message(message: Json) -> bool {
    exists|body: Map<Seq<char>, Json>| #[trigger]
        is_channel_message(message, body) && (!body.dom().contains("type"@) || (has_entry(
            body,
            "type"@,
            Json::Text("note"@),
        ) && !body.dom().contains("body"@)))
}

/// What the envelope of a message says is settled by the two types and by whether the
/// members are there: neither what else the message holds nor what the note holds counts.
pub proof fn law_envelope_goes_by_types(message: Json, note: Json)
    ensures
        envelope(Some(message)) == Envelope::Note(note) <==> is_note_message(message, note),
        envelope(Some(message)) is Incomplete <==> is_incomplete_message(message),
        envelope(None) is Unrelated,
{
    if let Json::Object(members) = message {
        if let Json::Object(body) = members["body"@] {
            assert(is_channel_message(message, body) <==> members.dom().contains("type"@)
                && members["type"@] == Json::Text("channel"@) && members.dom().contains("body"@));
        }
    }
}

/// A message carries one note at most.
pub proof fn law_one_note_for_each_message(message: Json, a: Json, b: Json)
    requires
        is_note_message(message, a),
        is_note_message(message, b),
    ensures
        a == b,
        !is_incomplete_message(message),
{
    law_envelope_goes_by_types(message, a);
    law_envelope_goes_by_types(message, b);
}

/// `open_envelope` finds the note of every message that carries one, reports those that
/// are incomplete, and passes over all others.
pub proof fn law_envelope_is_opened(
    message: Value,
    note: Json,
    r: Result<Option<&Value>, IncompleteEnvelope>,
)
    requires
        call_ensures(open_envelope, (&message,), r),
    ensures
        is_note_message(json_of(message), note) <==> (r matches Ok(Some(value)) && json_of(*value)
            == note),
        is_incomplete_message(json_of(message)) <==> r is Err,
{
    law_envelope_goes_by_types(json_of(message), note);
}

/// Whether `note` has a text in which some character is not white space.
pub open spec fn has_something_to_show(note: MisskeyNote) -> bool {
    note.text matches Some(text) && exists|i: int|
        0 <= i < text@.len() && !is_white_space(#[trigger] text@[i])
}

/// `keep_displayable` gives back what it is given, unchanged, where that is a note with
/// something to show, and nothing else.
pub proof fn law_notes_with_content_are_kept(decoded: Option<MisskeyNote>, r: Option<MisskeyNote>)
    requires
        call_ensures(keep_displayable, (decoded,), r),
    ensures
        r is Some ==> r == decoded,
        r is Some <==> decoded is Some && has_something_to_show(decoded->0),
{
}

/// `process_message` hands the note of a message, as it is, to the decoder, and gives back
/// what comes of it where that has something to show.
pub proof fn law_note_is_taken_out<F: Fn(&Value) -> Option<MisskeyNote>>(
    text: &str,
    decode: F,
    message: Json,
    note: Json,
    r: Option<MisskeyNote>,
)
    requires
        call_ensures(process_message::<F>, (text, decode), r),
        parsed_json(text@) == Some(message),
        is_note_message(message, note),
    ensures
        exists|value: &Value, decoded: Option<MisskeyNote>|
            json_of(*value) == note && #[trigger] call_ensures(decode, (value,), decoded) && (
            r is Some ==> r == decoded) && (r is Some <==> decoded is Some
                && has_something_to_show(decoded->0)),
{
    law_envelope_goes_by_types(message, note);
    let (value, decoded) = choose|value: &Value, decoded: Option<MisskeyNote>|
        json_of(*value) == note && #[trigger] call_ensures(decode, (value,), decoded) && r
            == displayable_part(decoded);
    assert(call_ensures(decode, (value,), decoded));
}

/// `process_message` gives nothing for a text that is no message with a note in it.
pub proof fn law_other_texts_are_passed_over<F: Fn(&Value) -> Option<MisskeyNote>>(
    text: &str,
    decode: F,
    r: Option<MisskeyNote>,
)
    requires
        call_ensures(process_message::<F>, (text, decode), r),
        parsed_json(text@) matches Some(message) ==> forall|note: Json|
            !is_note_message(message, note),
    ensures
        r is None,
{
    if let Some(message) = parsed_json(text@) {
        if let Envelope::Note(note) = envelope(Some(message)) {
            law_envelope_goes_by_types(message, note);
        }
    } else {
        law_envelope_goes_by_types(Json::Null, Json::Null);
    }
}

/// `try_process_message` takes the note out of a message as `process_message` does, passes
/// over what `process_message` passes over, and reports exactly the incomplete messages.
pub proof fn law_trying_takes_the_same_note_out<F: Fn(&Value) -> Option<MisskeyNote>>(
    text: &str,
    decode: F,
    r: Result<Option<MisskeyNote>, IncompleteEnvelope>,
)
    requires
        call_ensures(try_process_message::<F>, (text, decode), r),
    ensures
        r is Err <==> parsed_json(text@) is Some && is_incomplete_message(parsed_json(text@)->0),
        parsed_json(text@) is None ==> r == Ok::<Option<MisskeyNote>, IncompleteEnvelope>(None),
        parsed_json(text@) matches Some(message) ==> ({
            ||| r is Err
            ||| r == Ok::<Option<MisskeyNote>, IncompleteEnvelope>(None) && forall|note: Json|
                !is_note_message(message, note)
            ||| exists|value: &Value, decoded: Option<MisskeyNote>| #[trigger]
                call_ensures(decode, (value,), decoded) && is_note_message(message, json_of(*value))
                    && r is Ok && (r->Ok_0 is Some ==> r->Ok_0 == decoded) && (r->Ok_0 is Some
                    <==> decoded is Some && has_something_to_show(decoded->0))
        }),
{
    if let Some(message) = parsed_json(text@) {
        assert forall|note: Json|
            is_note_message(message, note) implies envelope(Some(message)) == Envelope::Note(note) by {
            law_envelope_goes_by_types(message, note);
        }
        law_envelope_goes_by_types(message, Json::Null);
        if let Envelope::Note(note) = envelope(Some(message)) {
            law_envelope_goes_by_types(message, note);
            let (value, decoded) = choose|value: &Value, decoded: Option<MisskeyNote>|
                json_of(*value) == note && #[trigger] call_ensures(decode, (value,), decoded) && r
                    == Ok::<Option<MisskeyNote>, IncompleteEnvelope>(displayable_part(decoded));
            assert(call_ensures(decode, (value,), decoded));
        }
    } else {
        law_envelope_goes_by_types(Json::Null, Json::Null);
    }
}

/// A copy of a note is the note, and a copy of its author is its author.
pub proof fn law_copies_of_notes(note: MisskeyNote, r: MisskeyNote, author: MisskeyUser)
    requires
        call_ensures(<MisskeyNote as Clone>::clone, (&note,), r),
        call_ensures(<MisskeyUser as Clone>::clone, (&note.user,), author),
    ensures
        r.id == note.id,
        r.text == note.text,
        r.created_at == note.created_at,
        r.user == note.user,
        author.name == note.user.name,
        author.username == note.user.username,
        author.avatar_url == note.user.avatar_url,
{
}

/// The address is the same for all who bring no token, and a token is put behind it.
pub proof fn law_address(token: Option<String>, r: String)
    requires
        call_ensures(ws_url, (&token,), r),
    ensures
        token is None ==> r@ == "wss://misskey.io/streaming"@,
        token matches Some(t) ==> r@ == "wss://misskey.io/streaming"@ + "?i="@ + t@,
{
    reveal_strlit("wss://");
    reveal_strlit("misskey.io");
    reveal_strlit("/streaming");
    reveal_strlit("/streaming?i=");
    reveal_strlit("?i=");
    reveal_strlit("wss://misskey.io/streaming");
    assert("wss://"@ + "misskey.io"@ + "/streaming"@ =~= "wss://misskey.io/streaming"@);
    assert("/streaming?i="@ =~= "/streaming"@ + "?i="@);
    if let Some(t) = token {
        assert(r@ =~= "wss://misskey.io/streaming"@ + "?i="@ + t@);
    }
}

/// The message that joins the timeline asks for the channel `localTimeline` under the name
/// `local`, with renotes and without replies.
pub proof fn law_message_that_joins(r: ConnectMessage)
    requires
        call_ensures(ConnectMessage::local_timeline, (), r),
    ensures
        r.typ@ == "connect"@,
        r.body.channel@ == "localTimeline"@,
        r.body.id@ == "local"@,
        r.body.params.with_renotes,
        !r.body.params.with_replies,
{
}

/// The heartbeat is a message of type `ping`.
pub proof fn law_heartbeat(r: PingMessage)
    requires
        call_ensures(PingMessage::new, (), r),
    ensures
        r.typ@ == "ping"@,
{
}

} // verus!
