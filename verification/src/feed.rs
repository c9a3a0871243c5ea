//! The updates of the visitor counter.

use crate::chunk::{chunk_bytes, holds_text};
use crate::html::{counter_html, counter_id, encode_connection_count, hide_rule};
use crate::model::{Context, MisskeyData};
use crate::text::{decimal, law_decimal_injective};
use bytes::Bytes;
use vstd::prelude::*;

verus! {

/// How many seconds apart the updates are.
pub const UPDATE_INTERVAL_SECS: u64 = 5;

/// The number of the first update.
pub const FIRST_ID: usize = 1;

/// The number that comes after `id`; the numbers start over at zero when they run out.
pub open spec fn following_id(id: usize) -> usize {
    if id == usize::MAX {
        0
    } else {
        (id + 1) as usize
    }
}

/// Makes update number `current_id`, which replaces update number `previous_id`.
pub fn encode_data(previous_id: usize, current_id: usize, connection_count: usize) -> (r: (
    usize,
    MisskeyData,
))
    ensures
        r.0 == current_id,
        holds_text(
            r.1.html,
            counter_html(previous_id as nat, current_id as nat, connection_count as nat),
        ),
{
    let ctx = Context { previous_id, current_id, connection_count };
    (current_id, MisskeyData { html: encode_connection_count(&ctx) })
}

/// Numbers the updates and remembers which one was sent last.
#[derive(Debug, Clone, Copy, PartialEq, Eq, Structural)]
pub struct CounterFeed {
    /// The number of the next update.
    pub next_id: usize,
    /// The number of the update that the next one replaces, or zero.
    pub previous_id: usize,
}

impl CounterFeed {
    /// Makes the update that visitors find before the first tick; the updates of the
    /// ticks do not replace it.
    pub fn start(connection_count: usize) -> (r: (Self, MisskeyData))
        ensures
            r.0 == (CounterFeed { next_id: following_id(FIRST_ID), previous_id: 0 }),
            r.0.wf(),
            holds_text(r.1.html, counter_html(0, FIRST_ID as nat, connection_count as nat)),
    {
        let (_, data) = encode_data(0, FIRST_ID, connection_count);
        (CounterFeed { next_id: FIRST_ID.wrapping_add(1), previous_id: 0 }, data)
    }

    /// Makes the next update, and gives its number.
    pub fn tick(&mut self, connection_count: usize) -> (r: (usize, MisskeyData))
        ensures
            *final(self) == old(self).after_tick(),
            r.0 == old(self).next_id,
            holds_text(
                r.1.html,
                counter_html(
                    old(self).previous_id as nat,
                    old(self).next_id as nat,
                    connection_count as nat,
                ),
            ),
    {
        let current_id: usize = self.next_id;
        self.next_id = self.next_id.wrapping_add(1);
        encode_data(self.previous_id, current_id, connection_count)
    }

    /// Takes note that the update of that number was sent.
    pub fn delivered(&mut self, id: usize)
        ensures
            *final(self) == old(self).after_delivery(id),
    {
        self.previous_id = id;
    }

    /// Whether the numbers have not run out yet.
    pub open spec fn wf(self) -> bool {
        self.previous_id < self.next_id
    }

    /// The feed after the next update is made.
    pub open spec fn after_tick(self) -> CounterFeed {
        CounterFeed { next_id: following_id(self.next_id), previous_id: self.previous_id }
    }

    /// The feed after update number `id` is sent.
    pub open spec fn after_delivery(self, id: usize) -> CounterFeed {
        CounterFeed { next_id: self.next_id, previous_id: id }
    }

    /// The feed after one tick for each of `outcomes`, which tell whether the update
    /// was sent.
    pub open spec fn after_ticks(self, outcomes: Seq<bool>) -> CounterFeed
        decreases outcomes.len(),
    {
        if outcomes.len() == 0 {
            self
        } else {
            let before = self.after_ticks(outcomes.drop_last());
            if outcomes.last() {
                before.after_tick().after_delivery(before.next_id)
            } else {
                before.after_tick()
            }
        }
    }

    /// The updates that are sent over those ticks: each as the number that it replaces
    /// and its own.
    pub open spec fn sent_over(self, outcomes: Seq<bool>) -> Seq<(usize, usize)>
        decreases outcomes.len(),
    {
        if outcomes.len() == 0 {
            Seq::empty()
        } else {
            let sent = self.sent_over(outcomes.drop_last());
            let before = self.after_ticks(outcomes.drop_last());
            if outcomes.last() {
                sent.push((before.previous_id, before.next_id))
            } else {
                sent
            }
        }
    }
}

/// Each update that is sent replaces the one that was sent before it, and carries a
/// greater number, however many ticks in between fail to send theirs.
pub proof fn law_updates_form_a_chain(feed: CounterFeed, outcomes: Seq<bool>)
    requires
        feed.wf(),
        feed.next_id + outcomes.len() <= usize::MAX,
    ensures
        ({
            let sent = feed.sent_over(outcomes);
            &&& sent.len() > 0 ==> sent[0].0 == feed.previous_id
            &&& forall|i: int| 0 < i < sent.len() ==> (#[trigger] sent[i]).0 == sent[i - 1].1
            &&& forall|i: int| 0 <= i < sent.len() ==> (#[trigger] sent[i]).0 < sent[i].1
            &&& forall|i: int, j: int|
                0 <= i < j < sent.len() ==> (#[trigger] sent[i]).1 < (#[trigger] sent[j]).1
        }),
        ({
            let after = feed.after_ticks(outcomes);
            let sent = feed.sent_over(outcomes);
            &&& after.next_id == feed.next_id + outcomes.len()
            &&& after.wf()
            &&& after.previous_id == (if sent.len() > 0 { sent.last().1 } else { feed.previous_id })
        }),
    decreases outcomes.len(),
{
    if outcomes.len() > 0 {
        law_updates_form_a_chain(feed, outcomes.drop_last());
    }
}

/// Whether a page that has received `sent` holds a rule that hides update number `id`.
pub open spec fn is_hidden(sent: Seq<(usize, usize)>, id: usize) -> bool {
    exists|j: int|
        0 <= j < sent.len() && id > 0 && hide_rule((#[trigger] sent[j]).0 as nat) == hide_rule(
            id as nat,
        )
}

/// Of the updates that a page has received, it shows the last one and no other.
pub proof fn law_only_last_update_visible(feed: CounterFeed, outcomes: Seq<bool>, i: int)
    requires
        feed.wf(),
        feed.next_id + outcomes.len() <= usize::MAX,
        0 <= i < feed.sent_over(outcomes).len(),
    ensures
        is_hidden(feed.sent_over(outcomes), feed.sent_over(outcomes)[i].1) <==> i
            < feed.sent_over(outcomes).len() - 1,
{
    law_updates_form_a_chain(feed, outcomes);
    let sent = feed.sent_over(outcomes);
    let id = sent[i].1;
    if i < sent.len() - 1 {
        assert(sent[i + 1].0 == id);
    } else {
        assert forall|j: int| 0 <= j < sent.len() implies (#[trigger] sent[j]).0 != id by {
            assert(sent[j].0 < sent[j].1 <= id);
        }
        assert forall|j: int| 0 <= j < sent.len() implies hide_rule((#[trigger] sent[j]).0 as nat)
            != hide_rule(id as nat) by {
            law_counter_ids_distinct(sent[j].0 as nat, id as nat);
        }
    }
}

/// A style rule names one element only: two updates share neither the rule that hides
/// them nor the element that they are shown in.
pub proof fn law_counter_ids_distinct(a: nat, b: nat)
    requires
        a != b,
    ensures
        counter_id(a) != counter_id(b),
        hide_rule(a) != hide_rule(b),
{
    reveal_strlit("#");
    if decimal(a) == decimal(b) {
        law_decimal_injective(a, b);
    }
    let prefix = "counter-"@;
    if counter_id(a) == counter_id(b) {
        assert(decimal(a) =~= counter_id(a).skip(prefix.len() as int));
        assert(decimal(b) =~= counter_id(b).skip(prefix.len() as int));
    }
    if a > 0 && b > 0 && hide_rule(a) == hide_rule(b) {
        let head = "#"@;
        let tail = " { display: none; }\n"@;
        let end = hide_rule(a).len() - tail.len();
        assert(counter_id(a) =~= hide_rule(a).subrange(head.len() as int, end));
        assert(counter_id(b) =~= hide_rule(b).subrange(head.len() as int, end));
    }
}

/// An update is the counter as `encode_connection_count` encodes it for the same numbers,
/// and comes with its own number.
pub proof fn law_update_is_the_encoded_counter(
    ctx: Context,
    r: (usize, MisskeyData),
    expected: Bytes,
)
    requires
        call_ensures(encode_data, (ctx.previous_id, ctx.current_id, ctx.connection_count), r),
        call_ensures(encode_connection_count, (&ctx,), expected),
    ensures
        r.0 == ctx.current_id,
        chunk_bytes(r.1.html) == chunk_bytes(expected),
{
}

/// The first update has the number one and replaces none, and the next has the number two
/// and replaces none either.
pub proof fn law_feed_starts(
    connection_count: usize,
    r: (CounterFeed, MisskeyData),
    ctx: Context,
    expected: Bytes,
)
    requires
        call_ensures(CounterFeed::start, (connection_count,), r),
        ctx.previous_id == 0,
        ctx.current_id == 1,
        ctx.connection_count == connection_count,
        call_ensures(encode_connection_count, (&ctx,), expected),
    ensures
        r.0.next_id == 2,
        r.0.previous_id == 0,
        chunk_bytes(r.1.html) == chunk_bytes(expected),
{
}

/// Every five seconds there is an update. It takes the next number and leaves what the
/// next one replaces; sending it makes it what the next one replaces, and takes no number.
pub proof fn law_feed_counts_on(feed: CounterFeed, id: usize)
    ensures
        UPDATE_INTERVAL_SECS == 5,
        feed.next_id < usize::MAX ==> feed.after_tick().next_id == feed.next_id + 1,
        feed.next_id == usize::MAX ==> feed.after_tick().next_id == 0,
        feed.after_tick().previous_id == feed.previous_id,
        feed.after_delivery(id).previous_id == id,
        feed.after_delivery(id).next_id == feed.next_id,
{
}

/// A tick encodes the counter for the number that is next and the one that was sent last,
/// and moves on to the number after it.
pub proof fn law_tick_makes_the_next_update(
    feed: &mut CounterFeed,
    connection_count: usize,
    r: (usize, MisskeyData),
    ctx: Context,
    expected: Bytes,
)
    requires
        call_ensures(CounterFeed::tick, (feed, connection_count), r),
        ctx.previous_id == old(feed).previous_id,
        ctx.current_id == old(feed).next_id,
        ctx.connection_count == connection_count,
        call_ensures(encode_connection_count, (&ctx,), expected),
    ensures
        r.0 == old(feed).next_id,
        chunk_bytes(r.1.html) == chunk_bytes(expected),
        final(feed).previous_id == old(feed).previous_id,
        old(feed).next_id < usize::MAX ==> final(feed).next_id == old(feed).next_id + 1,
        old(feed).next_id == usize::MAX ==> final(feed).next_id == 0,
{
}

/// What was sent is what the next update replaces.
pub proof fn law_sent_update_is_replaced_next(feed: &mut CounterFeed, id: usize)
    requires
        call_ensures(CounterFeed::delivered, (feed, id), ()),
    ensures
        final(feed).previous_id == id,
        final(feed).next_id == old(feed).next_id,
{
}

} // verus!
