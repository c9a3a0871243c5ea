//! What a visitor is sent over the life of a connection.

use crate::chunk::{chunk_bytes, holds_text};
use crate::html::{encode_note, note_html, shows_note};
use crate::misskey::MisskeyNote;
use crate::model::MisskeyData;
use crate::timestamp::{is_clock_reading, rfc3339_utc, UtcDateTime};
use bytes::Bytes;
use vstd::prelude::*;
use vstd::utf8::encode_utf8;

verus! {

/// How long to wait after a note before the next event is looked at.
pub const NOTE_PAUSE_MS: u64 = 50;

/// How long to wait before notes are subscribed to again.
pub const RESUBSCRIBE_PAUSE_MS: u64 = 1000;

/// What happens while a visitor is connected.
pub enum StreamEvent {
    /// The counter has an update.
    ClockChanged(MisskeyData),
    /// The counter will have no more updates.
    ClockClosed,
    /// A note has arrived.
    Note(MisskeyNote),
    /// Notes were missed, or there will be none.
    BroadcastError,
}

/// What is done about an event.
pub enum StreamAction {
    /// Nothing.
    Skip,
    /// Send a chunk.
    Send(Bytes),
    /// Send a chunk, then wait.
    SendThenPause(Bytes, u64),
    /// Wait, then subscribe to notes again.
    PauseThenResubscribe(u64),
}

/// What a visitor is sent first: the state of the counter, then the head of the page.
pub fn opening_chunks(clock: MisskeyData, head: Bytes) -> (r: Vec<Bytes>)
    ensures
        r@ == seq![clock.html, head],
{
    let chunks = vec![clock.html, head];
    chunks
}

/// Whether `action` is the answer to `event`.
pub open spec fn answers_event(event: StreamEvent, action: StreamAction) -> bool {
    match event {
        StreamEvent::ClockChanged(data) => action == StreamAction::Send(data.html),
        StreamEvent::ClockClosed => action == StreamAction::Skip,
        StreamEvent::Note(note) => action matches StreamAction::SendThenPause(html, pause) && pause
            == NOTE_PAUSE_MS && shows_note(html, note),
        StreamEvent::BroadcastError => action == StreamAction::PauseThenResubscribe(
            RESUBSCRIBE_PAUSE_MS,
        ),
    }
}

/// Decides what is done about an event.
pub fn on_event(event: StreamEvent) -> (r: StreamAction)
    ensures
        answers_event(event, r),
{
    match event {
        StreamEvent::ClockChanged(data) => StreamAction::Send(data.html),
        StreamEvent::ClockClosed => StreamAction::Skip,
        StreamEvent::Note(note) => StreamAction::SendThenPause(encode_note(&note), NOTE_PAUSE_MS),
        StreamEvent::BroadcastError => StreamAction::PauseThenResubscribe(RESUBSCRIBE_PAUSE_MS),
    }
}

/// The chunks that an action sends.
pub open spec fn chunks_of(action: StreamAction) -> Seq<Bytes> {
    match action {
        StreamAction::Skip => Seq::empty(),
        StreamAction::Send(chunk) => seq![chunk],
        StreamAction::SendThenPause(chunk, _) => seq![chunk],
        StreamAction::PauseThenResubscribe(_) => Seq::empty(),
    }
}

/// All chunks that the actions send, in order.
pub open spec fn chunks_of_all(actions: Seq<StreamAction>) -> Seq<Bytes>
    decreases actions.len(),
{
    if actions.len() == 0 {
        Seq::empty()
    } else {
        chunks_of_all(actions.drop_last()) + chunks_of(actions.last())
    }
}

/// How many of the events are an update of the counter or a note.
pub open spec fn news_count(events: Seq<StreamEvent>) -> nat
    decreases events.len(),
{
    if events.len() == 0 {
        0
    } else {
        news_count(events.drop_last()) + if events.last() is ClockChanged || events.last() is Note {
            1nat
        } else {
            0nat
        }
    }
}

/// Whether `chunk` is what a visitor is sent about `event`.
pub open spec fn tells_event(event: StreamEvent, chunk: Bytes) -> bool {
    match event {
        StreamEvent::ClockChanged(data) => chunk == data.html,
        StreamEvent::Note(note) => shows_note(chunk, note),
        _ => false,
    }
}

/// A visitor is sent one chunk for each update of the counter and each note, in the
/// order in which they come, and nothing else.
pub proof fn law_one_chunk_for_each_event(events: Seq<StreamEvent>, actions: Seq<StreamAction>)
    requires
        events.len() == actions.len(),
        forall|i: int|
            0 <= i < events.len() ==> answers_event(#[trigger] events[i], actions[i]),
    ensures
        chunks_of_all(actions).len() == news_count(events),
        forall|i: int|
            0 <= i < events.len() && (events[i] is ClockChanged || events[i] is Note) ==> {
                &&& news_count(events.take(i)) < chunks_of_all(actions).len()
                &&& tells_event(
                    #[trigger] events[i],
                    chunks_of_all(actions)[news_count(events.take(i)) as int],
                )
            },
    decreases events.len(),
{
    if events.len() > 0 {
        let es = events.drop_last();
        let acts = actions.drop_last();
        assert forall|i: int| 0 <= i < es.len() implies answers_event(#[trigger] es[i], acts[i]) by {
            assert(answers_event(events[i], actions[i]));
        }
        law_one_chunk_for_each_event(es, acts);
        assert(answers_event(events.last(), actions.last())) by {
            assert(events.last() == events[events.len() - 1]);
        }
        let before = chunks_of_all(acts);
        let all = chunks_of_all(actions);
        assert forall|i: int|
            0 <= i < events.len() && (events[i] is ClockChanged || events[i] is Note) implies {
            &&& news_count(events.take(i)) < all.len()
            &&& tells_event(#[trigger] events[i], all[news_count(events.take(i)) as int])
        } by {
            if i < es.len() {
                assert(es[i] == events[i]);
                assert(es.take(i) =~= events.take(i));
                assert(all[news_count(events.take(i)) as int] == before[news_count(
                    events.take(i),
                ) as int]);
            } else {
                assert(events.take(i) =~= es);
            }
        }
    }
}

/// A visitor is first sent the counter as it stands and the head of the page, in that
/// order, and nothing else before an event.
pub proof fn law_opening(clock: MisskeyData, head: Bytes, r: Vec<Bytes>)
    requires
        call_ensures(opening_chunks, (clock, head), r),
    ensures
        r@.len() == 2,
        r@[0] == clock.html,
        r@[1] == head,
{
}

/// Every update of the counter is sent as it is.
pub proof fn law_update_is_sent(data: MisskeyData, r: StreamAction)
    requires
        call_ensures(on_event, (StreamEvent::ClockChanged(data),), r),
    ensures
        r == StreamAction::Send(data.html),
{
}

/// Every note is sent as `encode_note` encodes it, followed by a pause of 50 milliseconds,
/// whatever is in the note.
pub proof fn law_note_is_sent(note: MisskeyNote, r: StreamAction)
    requires
        call_ensures(on_event, (StreamEvent::Note(note),), r),
    ensures
        r matches StreamAction::SendThenPause(html, pause) && pause == 50 && ({
            &&& rfc3339_utc(note.created_at@) matches Some(time) ==> chunk_bytes(html)
                == encode_utf8(note_html(note, time))
            &&& rfc3339_utc(note.created_at@) is None ==> exists|time: UtcDateTime|
                time.wf() && is_clock_reading(time) && chunk_bytes(html) == encode_utf8(
                    #[trigger] note_html(note, time),
                )
        }),
{
    if let StreamAction::SendThenPause(html, pause) = r {
        if rfc3339_utc(note.created_at@) is None {
            let time = choose|time: UtcDateTime|
                time.wf() && is_clock_reading(time) && #[trigger] holds_text(
                    html,
                    note_html(note, time),
                );
            assert(chunk_bytes(html) == encode_utf8(note_html(note, time)));
        }
    }
}

/// A counter without further updates is left alone, and lost notes are followed by a
/// second's pause and another subscription.
pub proof fn law_errors_send_nothing(r: StreamAction, s: StreamAction)
    requires
        call_ensures(on_event, (StreamEvent::ClockClosed,), r),
        call_ensures(on_event, (StreamEvent::BroadcastError,), s),
    ensures
        r is Skip,
        s == StreamAction::PauseThenResubscribe(1_000),
{
}

/// How many milliseconds an action pauses for.
pub open spec fn pause_of(action: StreamAction) -> nat {
    match action {
        StreamAction::Skip => 0,
        StreamAction::Send(_) => 0,
        StreamAction::SendThenPause(_, ms) => ms as nat,
        StreamAction::PauseThenResubscribe(ms) => ms as nat,
    }
}

/// How many milliseconds the actions pause for in all.
pub open spec fn pause_of_all(actions: Seq<StreamAction>) -> nat
    decreases actions.len(),
{
    if actions.len() == 0 {
        0
    } else {
        pause_of_all(actions.drop_last()) + pause_of(actions.last())
    }
}

/// How many of the events are a note.
pub open spec fn note_count(events: Seq<StreamEvent>) -> nat
    decreases events.len(),
{
    if events.len() == 0 {
        0
    } else {
        note_count(events.drop_last()) + if events.last() is Note {
            1nat
        } else {
            0nat
        }
    }
}

/// How many of the events are lost notes.
pub open spec fn error_count(events: Seq<StreamEvent>) -> nat
    decreases events.len(),
{
    if events.len() == 0 {
        0
    } else {
        error_count(events.drop_last()) + if events.last() is BroadcastError {
            1nat
        } else {
            0nat
        }
    }
}

/// A stream stands still for 50 milliseconds for each note and for a second for each time
/// that notes are lost, and for no longer.
pub proof fn law_time_spent_pausing(events: Seq<StreamEvent>, actions: Seq<StreamAction>)
    requires
        events.len() == actions.len(),
        forall|i: int|
            0 <= i < events.len() ==> answers_event(#[trigger] events[i], actions[i]),
    ensures
        pause_of_all(actions) == 50 * note_count(events) + 1_000 * error_count(events),
    decreases events.len(),
{
    if events.len() > 0 {
        let es = events.drop_last();
        let acts = actions.drop_last();
        assert forall|i: int| 0 <= i < es.len() implies answers_event(#[trigger] es[i], acts[i]) by {
            assert(answers_event(events[i], actions[i]));
        }
        law_time_spent_pausing(es, acts);
        assert(answers_event(events[events.len() - 1], actions[events.len() - 1]));
    }
}

} // verus!
