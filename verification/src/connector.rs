//! Keeping a connection to the streaming service.
//!
//! The connector decides; its caller carries out one action at a time and reports
//! what came of it as the next event.

use crate::misskey::{
    optional_text, ws_url, ws_url_text, ConnectMessage, MisskeyNote, PingMessage,
};
use bytes::Bytes;
use vstd::prelude::*;

verus! {

/// How many failures in a row are followed by a growing delay.
pub const MAX_RECONNECT_ATTEMPTS: usize = 10;

/// The delay after the first failure.
pub const INITIAL_RECONNECT_DELAY_MS: u64 = 1_000;

/// The longest delay that failures grow to.
pub const MAX_RECONNECT_DELAY_MS: u64 = 30_000;

/// The rest after one failure too many.
pub const EXHAUSTED_REST_MS: u64 = 60_000;

/// The rest after a connection that lasted.
pub const PROMPT_REST_MS: u64 = 100;

/// A connection that ends before this many seconds counts as a failure.
pub const SHORT_SESSION_SECS: u64 = 10;

/// How many seconds apart the heartbeats are.
pub const PING_INTERVAL_SECS: u64 = 30;

/// How often connecting has failed in a row, and how long to wait after the next time.
#[derive(Debug, Clone, Copy, PartialEq, Eq, Structural)]
pub struct Backoff {
    pub attempts: usize,
    pub delay_ms: u64,
}

/// Twice the delay, up to the longest.
pub open spec fn grown_delay(delay_ms: u64) -> u64 {
    if 2 * delay_ms <= MAX_RECONNECT_DELAY_MS {
        (2 * delay_ms) as u64
    } else {
        MAX_RECONNECT_DELAY_MS
    }
}

impl Backoff {
    /// The state without failures.
    pub open spec fn fresh() -> Backoff {
        Backoff { attempts: 0, delay_ms: INITIAL_RECONNECT_DELAY_MS }
    }

    /// Whether the numbers are within their limits.
    pub open spec fn wf(self) -> bool {
        &&& self.attempts <= MAX_RECONNECT_ATTEMPTS
        &&& INITIAL_RECONNECT_DELAY_MS <= self.delay_ms <= MAX_RECONNECT_DELAY_MS
    }

    /// Whether the next failure is one too many.
    pub open spec fn is_exhausted(self) -> bool {
        self.attempts >= MAX_RECONNECT_ATTEMPTS
    }

    /// What the next failure makes of this: the count starts over after one failure too
    /// many, and the delay grows at all others.
    pub open spec fn after_failure(self) -> Backoff {
        if self.is_exhausted() {
            Backoff { attempts: 0, delay_ms: self.delay_ms }
        } else {
            Backoff {
                attempts: (self.attempts + 1) as usize,
                delay_ms: grown_delay(self.delay_ms),
            }
        }
    }

    /// The rest after a failure to connect: the delay as it was.
    pub open spec fn rest_after_connect_error(self) -> u64 {
        if self.is_exhausted() {
            EXHAUSTED_REST_MS
        } else {
            self.delay_ms
        }
    }

    /// The rest after a connection that ended at once: the delay as it has grown.
    pub open spec fn rest_after_short_session(self) -> u64 {
        if self.is_exhausted() {
            EXHAUSTED_REST_MS
        } else {
            grown_delay(self.delay_ms)
        }
    }

    /// Starts without failures.
    pub fn new() -> (r: Self)
        ensures
            r == Backoff::fresh(),
    {
        Backoff { attempts: 0, delay_ms: INITIAL_RECONNECT_DELAY_MS }
    }

    /// Doubles the delay, up to the longest.
    fn grow(&mut self)
        requires
            old(self).wf(),
        ensures
            final(self).attempts == old(self).attempts,
            final(self).delay_ms == grown_delay(old(self).delay_ms),
    {
        let doubled: u64 = self.delay_ms * 2;
        self.delay_ms = if doubled <= MAX_RECONNECT_DELAY_MS {
            doubled
        } else {
            MAX_RECONNECT_DELAY_MS
        };
    }

    /// Counts a failure to connect; gives how long to rest.
    pub fn on_connect_error(&mut self) -> (rest_ms: u64)
        requires
            old(self).wf(),
        ensures
            final(self).wf(),
            *final(self) == old(self).after_failure(),
            rest_ms == old(self).rest_after_connect_error(),
    {
        self.attempts += 1;
        if self.attempts > MAX_RECONNECT_ATTEMPTS {
            self.attempts = 0;
            EXHAUSTED_REST_MS
        } else {
            let rest_ms: u64 = self.delay_ms;
            self.grow();
            rest_ms
        }
    }

    /// Counts a connection that ended at once; gives how long to rest.
    pub fn on_short_session(&mut self) -> (rest_ms: u64)
        requires
            old(self).wf(),
        ensures
            final(self).wf(),
            *final(self) == old(self).after_failure(),
            rest_ms == old(self).rest_after_short_session(),
    {
        self.attempts += 1;
        if self.attempts > MAX_RECONNECT_ATTEMPTS {
            self.attempts = 0;
            EXHAUSTED_REST_MS
        } else {
            self.grow();
            self.delay_ms
        }
    }
}

/// What the connector waits for.
#[derive(Debug, Clone, Copy, PartialEq, Eq, Structural)]
pub enum Phase {
    /// A connection to be made.
    Connecting,
    /// The message that joins the timeline to be sent.
    Subscribing,
    /// A message, or the time of the next heartbeat.
    Listening,
    /// A note to be handed on.
    Delivering,
    /// The reply to a ping to be sent.
    Ponging,
    /// A heartbeat to be sent.
    Pinging,
    /// The age of a connection that is over.
    Closing,
    /// The end of a rest.
    Resting,
    /// Nothing any more.
    Stopped,
}

/// What became of an action.
pub enum Event {
    /// The connection is made.
    Connected,
    /// No connection could be made.
    ConnectError,
    /// The message is sent.
    Sent,
    /// The message could not be sent.
    SendError,
    /// A text message came, with this note in it to be shown, if any.
    Text(Option<MisskeyNote>),
    /// A ping came, with this payload.
    Ping(Bytes),
    /// The server closed the connection.
    Close,
    /// Receiving failed.
    ReadError,
    /// The connection is at its end.
    Ended,
    /// A message of another kind came.
    Other,
    /// It is time for a heartbeat.
    Tick,
    /// The note is handed on.
    Delivered,
    /// Nobody takes notes any more.
    ReceiverGone,
    /// This many whole seconds have passed since connecting began.
    Uptime(u64),
    /// The rest is over.
    Rested,
}

/// What is to be done next.
pub enum Action {
    /// Connect to this address.
    Connect(String),
    /// Send this message.
    Subscribe(ConnectMessage),
    /// Wait for a message, or for the time of the next heartbeat.
    Listen,
    /// Hand this note on.
    Deliver(MisskeyNote),
    /// Send a pong with this payload.
    Pong(Bytes),
    /// Send this message.
    Ping(PingMessage),
    /// Tell how many whole seconds have passed since connecting began.
    MeasureUptime,
    /// Wait this many milliseconds.
    Rest(u64),
    /// End.
    Stop,
}

/// What the decisions of the connector depend on.
pub struct State {
    pub phase: Phase,
    pub backoff: Backoff,
}

/// Whether a connection is open, or has just ended.
pub open spec fn in_session(phase: Phase) -> bool {
    phase is Subscribing || phase is Listening || phase is Delivering || phase is Ponging
        || phase is Pinging || phase is Closing
}

impl State {
    /// The numbers are within their limits, and a connection wipes out the failures
    /// before it.
    pub open spec fn wf(self) -> bool {
        &&& self.backoff.wf()
        &&& in_session(self.phase) ==> self.backoff == Backoff::fresh()
    }

    /// Where the connector starts.
    pub open spec fn initial() -> State {
        State { phase: Phase::Connecting, backoff: Backoff::fresh() }
    }

    /// Whether `event` can come of what is being done.
    pub open spec fn accepts(self, event: Event) -> bool {
        match self.phase {
            Phase::Connecting => event is Connected || event is ConnectError,
            Phase::Subscribing | Phase::Ponging | Phase::Pinging => event is Sent
                || event is SendError,
            Phase::Listening => event is Text || event is Ping || event is Close
                || event is ReadError || event is Ended || event is Other || event is Tick,
            Phase::Delivering => event is Delivered || event is ReceiverGone,
            Phase::Closing => event is Uptime,
            Phase::Resting => event is Rested,
            Phase::Stopped => false,
        }
    }

    /// What the connector waits for next.
    pub open spec fn next_phase(self, event: Event) -> Phase {
        match event {
            Event::Connected => Phase::Subscribing,
            Event::ConnectError => Phase::Resting,
            Event::Sent => Phase::Listening,
            Event::SendError => if self.phase is Subscribing {
                Phase::Resting
            } else {
                Phase::Closing
            },
            Event::Text(Some(_)) => Phase::Delivering,
            Event::Text(None) => Phase::Listening,
            Event::Ping(_) => Phase::Ponging,
            Event::Close => Phase::Closing,
            Event::ReadError => Phase::Closing,
            Event::Ended => Phase::Closing,
            Event::Other => Phase::Listening,
            Event::Tick => Phase::Pinging,
            Event::Delivered => Phase::Listening,
            Event::ReceiverGone => Phase::Stopped,
            Event::Uptime(_) => Phase::Resting,
            Event::Rested => Phase::Connecting,
        }
    }

    /// The failures that count after `event`.
    pub open spec fn next_backoff(self, event: Event) -> Backoff {
        match event {
            Event::Connected => Backoff::fresh(),
            Event::ConnectError => self.backoff.after_failure(),
            Event::Uptime(secs) => if secs < SHORT_SESSION_SECS {
                self.backoff.after_failure()
            } else {
                self.backoff
            },
            _ => self.backoff,
        }
    }

    /// The state after `event`.
    pub open spec fn next(self, event: Event) -> State {
        State { phase: self.next_phase(event), backoff: self.next_backoff(event) }
    }

    /// How long the rest is that `event` leads to.
    pub open spec fn rest_ms(self, event: Event) -> u64 {
        match event {
            Event::ConnectError => self.backoff.rest_after_connect_error(),
            Event::Uptime(secs) => if secs < SHORT_SESSION_SECS {
                self.backoff.rest_after_short_session()
            } else {
                PROMPT_REST_MS
            },
            _ => self.backoff.delay_ms,
        }
    }

    /// Whether `action` is what `event` calls for, with this token.
    pub open spec fn answers(self, token: Option<Seq<char>>, event: Event, action: Action) -> bool {
        match self.next_phase(event) {
            Phase::Connecting => action matches Action::Connect(url) && url@ == ws_url_text(token),
            Phase::Subscribing => action matches Action::Subscribe(message)
                && message.joins_local_timeline(),
            Phase::Listening => action is Listen,
            Phase::Delivering => action matches Action::Deliver(note) && event == Event::Text(
                Some(note),
            ),
            Phase::Ponging => action matches Action::Pong(payload) && event == Event::Ping(payload),
            Phase::Pinging => action matches Action::Ping(message) && message.typ@ == "ping"@,
            Phase::Closing => action is MeasureUptime,
            Phase::Resting => action == Action::Rest(self.rest_ms(event)),
            Phase::Stopped => action is Stop,
        }
    }
}

/// Keeps the connection.
pub struct Connector {
    phase: Phase,
    backoff: Backoff,
    token: Option<String>,
}

impl Connector {
    /// What the decisions depend on.
    pub closed spec fn state(self) -> State {
        State { phase: self.phase, backoff: self.backoff }
    }

    /// The token that connections are made with.
    pub closed spec fn token_text(self) -> Option<Seq<char>> {
        optional_text(self.token)
    }

    #[verifier::type_invariant]
    spec fn invariant_holds(self) -> bool {
        self.state().wf()
    }

    /// Starts; gives what is to be done first.
    pub fn start(token: Option<String>) -> (r: (Self, Action))
        ensures
            r.0.state() == State::initial(),
            r.0.token_text() == optional_text(token),
            r.1 matches Action::Connect(url) && url@ == ws_url_text(optional_text(token)),
    {
        let url = ws_url(&token);
        let connector = Connector { phase: Phase::Connecting, backoff: Backoff::new(), token };
        (connector, Action::Connect(url))
    }

    /// What the connector waits for.
    pub fn phase(&self) -> (r: Phase)
        ensures
            r == self.state().phase,
    {
        self.phase
    }

    /// The failures that count.
    pub fn backoff(&self) -> (r: Backoff)
        ensures
            r == self.state().backoff,
            self.state().wf(),
    {
        proof {
            use_type_invariant(self);
        }
        self.backoff
    }

    /// Whether `event` can come of what is being done.
    pub fn accepts(&self, event: &Event) -> (r: bool)
        ensures
            r == self.state().accepts(*event),
    {
        match (self.phase, event) {
            (Phase::Connecting, Event::Connected | Event::ConnectError) => true,
            (
                Phase::Subscribing | Phase::Ponging | Phase::Pinging,
                Event::Sent | Event::SendError,
            ) => true,
            (
                Phase::Listening,
                Event::Text(_) | Event::Ping(_) | Event::Close | Event::ReadError | Event::Ended
                | Event::Other | Event::Tick,
            ) => true,
            (Phase::Delivering, Event::Delivered | Event::ReceiverGone) => true,
            (Phase::Closing, Event::Uptime(_)) => true,
            (Phase::Resting, Event::Rested) => true,
            _ => false,
        }
    }

    /// Takes in what became of the last action; gives what is to be done next.
    pub fn step(self, event: Event) -> (r: (Self, Action))
        requires
            self.state().accepts(event),
        ensures
            self.state().wf(),
            r.0.state() == self.state().next(event),
            r.0.state().wf(),
            r.0.token_text() == self.token_text(),
            self.state().answers(self.token_text(), event, r.1),
    {
        proof {
            use_type_invariant(&self);
        }
        let subscribing = match self.phase {
            Phase::Subscribing => true,
            _ => false,
        };
        let Connector { phase: _, mut backoff, token } = self;
        let (phase, action) = match event {
            Event::Connected => {
                backoff = Backoff::new();
                (Phase::Subscribing, Action::Subscribe(ConnectMessage::local_timeline()))
            },
            Event::ConnectError => {
                let rest_ms: u64 = backoff.on_connect_error();
                (Phase::Resting, Action::Rest(rest_ms))
            },
            Event::SendError => if subscribing {
                (Phase::Resting, Action::Rest(backoff.delay_ms))
            } else {
                (Phase::Closing, Action::MeasureUptime)
            },
            Event::Text(Some(note)) => (Phase::Delivering, Action::Deliver(note)),
            Event::Ping(payload) => (Phase::Ponging, Action::Pong(payload)),
            Event::Tick => (Phase::Pinging, Action::Ping(PingMessage::new())),
            Event::Sent | Event::Text(None) | Event::Other | Event::Delivered => (
                Phase::Listening,
                Action::Listen,
            ),
            Event::Close | Event::ReadError | Event::Ended => (
                Phase::Closing,
                Action::MeasureUptime,
            ),
            Event::Uptime(secs) => if secs < SHORT_SESSION_SECS {
                let rest_ms: u64 = backoff.on_short_session();
                (Phase::Resting, Action::Rest(rest_ms))
            } else {
                (Phase::Resting, Action::Rest(PROMPT_REST_MS))
            },
            Event::ReceiverGone => (Phase::Stopped, Action::Stop),
            Event::Rested => (Phase::Connecting, Action::Connect(ws_url(&token))),
        };
        (Connector { phase, backoff, token }, action)
    }
}

/// What the connector keeps at every step: the count of failures and the delay stay
/// within their limits, and neither is left over while a connection is open.
pub proof fn law_limits_are_kept(state: State, event: Event)
    requires
        state.wf(),
        state.accepts(event),
    ensures
        state.next(event).wf(),
{
}

/// The state after `n` more failures to connect, each with the rest that follows it.
pub open spec fn after_outage(state: State, n: nat) -> State
    decreases n,
{
    if n == 0 {
        state
    } else {
        after_outage(state, (n - 1) as nat).next(Event::ConnectError).next(Event::Rested)
    }
}

/// The delay after `n` failures in a row.
pub open spec fn outage_delay(n: nat) -> int {
    if n == 0 {
        1_000
    } else if n == 1 {
        2_000
    } else if n == 2 {
        4_000
    } else if n == 3 {
        8_000
    } else if n == 4 {
        16_000
    } else {
        30_000
    }
}

/// The failures that count where an outage begins: none, or the one that a connection
/// which ended within ten seconds leaves behind.
pub open spec fn begins_outage(backoff: Backoff) -> bool {
    backoff == Backoff::fresh() || backoff == (Backoff { attempts: 1, delay_ms: 2_000 })
}

/// The connector starts, and connects again after any connection, with the failures that
/// an outage can begin with.
pub proof fn law_outages_begin_alike(state: State, event: Event)
    requires
        state.wf(),
        in_session(state.phase),
        state.accepts(event),
        state.next(event).phase is Resting,
    ensures
        begins_outage(State::initial().backoff),
        state.next(event).next(Event::Rested).phase is Connecting,
        begins_outage(state.next(event).next(Event::Rested).backoff),
{
}

/// While the server cannot be reached, the rests are 1, 2, 4, 8 and 16 seconds, then 30
/// seconds each, but for every eleventh, which is a minute; after a connection that ended
/// within ten seconds they begin with the second of these.
pub proof fn law_rests_in_an_outage(state: State, n: nat)
    requires
        state.phase is Connecting,
        begins_outage(state.backoff),
    ensures
        ({
            let after = after_outage(state, n);
            let failures = (state.backoff.attempts + n) as nat;
            &&& after.phase is Connecting
            &&& after.wf()
            &&& after.backoff.attempts == failures % 11
            &&& after.backoff.delay_ms == outage_delay(failures)
            &&& after.rest_ms(Event::ConnectError) == (if failures % 11 == 10 {
                60_000
            } else {
                outage_delay(failures)
            })
        }),
    decreases n,
{
    if n > 0 {
        law_rests_in_an_outage(state, (n - 1) as nat);
    }
}

/// After a connection that ended within ten seconds the rest is two seconds, and after
/// any other a tenth of a second, whatever failures came before the connection.
pub proof fn law_rest_after_a_session(state: State, secs: u64)
    requires
        state.wf(),
        state.phase is Closing,
    ensures
        state.rest_ms(Event::Uptime(secs)) == (if secs < 10 {
            2_000int
        } else {
            100int
        }),
        state.next(Event::Uptime(secs)).backoff == (if secs < 10 {
            Backoff { attempts: 1, delay_ms: 2_000 }
        } else {
            Backoff::fresh()
        }),
{
}

/// There is no connecting again without a rest before it, of a tenth of a second at
/// least and of a minute at most.
pub proof fn law_rest_before_connecting(state: State, event: Event)
    requires
        state.wf(),
        state.accepts(event),
    ensures
        state.next(event).phase is Connecting <==> state.phase is Resting,
        state.next(event).phase is Resting ==> 100 <= state.rest_ms(event) <= 60_000,
{
}

/// The connector stops when nobody takes its notes any more, and for no other reason.
pub proof fn law_stops_only_without_receiver(state: State, event: Event)
    requires
        state.accepts(event),
    ensures
        state.next(event).phase is Stopped <==> event is ReceiverGone,
        event is ReceiverGone ==> state.phase is Delivering,
{
}

/// Once a note is handed on, or a pong or a heartbeat is sent, the connector listens
/// as before.
pub proof fn law_listening_resumes(state: State, event: Event, outcome: Event)
    requires
        state.wf(),
        state.phase is Listening,
        state.accepts(event),
        state.next(event).accepts(outcome),
        outcome is Sent || outcome is Delivered,
    ensures
        state.next(event).next(outcome) == state,
{
}

/// The connector starts by connecting, without failures, to the address for its token.
pub proof fn law_start(token: Option<String>, r: (Connector, Action))
    requires
        call_ensures(Connector::start, (token,), r),
    ensures
        r.0.state() == (State {
            phase: Phase::Connecting,
            backoff: Backoff { attempts: 0, delay_ms: 1_000 },
        }),
        r.0.token_text() == (match token {
            Some(t) => Some(t@),
            None => None,
        }),
        r.1 matches Action::Connect(url) && url@ == address(r.0.token_text()),
{
    lemma_address(r.0.token_text());
}

/// Where the service is reached, with and without a token.
pub open spec fn address(token: Option<Seq<char>>) -> Seq<char> {
    match token {
        Some(t) => "wss://misskey.io/streaming"@ + "?i="@ + t,
        None => "wss://misskey.io/streaming"@,
    }
}

/// The pieces of the address make up the whole.
proof fn lemma_address(token: Option<Seq<char>>)
    ensures
        ws_url_text(token) == address(token),
{
    reveal_strlit("wss://");
    reveal_strlit("misskey.io");
    reveal_strlit("/streaming");
    reveal_strlit("/streaming?i=");
    reveal_strlit("?i=");
    reveal_strlit("wss://misskey.io/streaming");
    assert(ws_url_text(token) =~= address(token));
}

/// What the connector tells of itself is what its decisions depend on.
pub proof fn law_connector_tells_its_state(connector: Connector, phase: Phase, backoff: Backoff)
    requires
        call_ensures(Connector::phase, (&connector,), phase),
        call_ensures(Connector::backoff, (&connector,), backoff),
    ensures
        connector.state() == (State { phase, backoff }),
        backoff.attempts <= 10,
        1_000 <= backoff.delay_ms <= 30_000,
{
}

/// Each event comes of one kind of action: in these phases it is taken in, and in no
/// other, whatever it carries.
pub proof fn law_events_have_their_phase(connector: Connector, event: Event, r: bool)
    requires
        call_ensures(Connector::accepts, (&connector, &event), r),
    ensures
        r == connector.state().accepts(event),
        r <==> ({
            let phase = connector.state().phase;
            match event {
                Event::Connected | Event::ConnectError => phase is Connecting,
                Event::Sent | Event::SendError => phase is Subscribing || phase is Ponging
                    || phase is Pinging,
                Event::Text(_) | Event::Ping(_) | Event::Close | Event::ReadError | Event::Ended
                | Event::Other | Event::Tick => phase is Listening,
                Event::Delivered | Event::ReceiverGone => phase is Delivering,
                Event::Uptime(_) => phase is Closing,
                Event::Rested => phase is Resting,
            }
        }),
{
}

/// Every note that arrives is handed on as it is.
pub proof fn law_note_is_handed_on(connector: Connector, note: MisskeyNote, r: (Connector, Action))
    requires
        connector.state().phase is Listening,
        call_ensures(Connector::step, (connector, Event::Text(Some(note))), r),
    ensures
        connector.state().accepts(Event::Text(Some(note))),
        r.1 == Action::Deliver(note),
        r.0.state() == (State { phase: Phase::Delivering, ..connector.state() }),
        r.0.token_text() == connector.token_text(),
{
}

/// Every ping is answered with its own payload.
pub proof fn law_ping_is_answered(connector: Connector, payload: Bytes, r: (Connector, Action))
    requires
        connector.state().phase is Listening,
        call_ensures(Connector::step, (connector, Event::Ping(payload)), r),
    ensures
        connector.state().accepts(Event::Ping(payload)),
        r.1 == Action::Pong(payload),
        r.0.state() == (State { phase: Phase::Ponging, ..connector.state() }),
        r.0.token_text() == connector.token_text(),
{
}

/// When it is time for a heartbeat, one is sent; that is every half minute.
pub proof fn law_heartbeat_is_sent(connector: Connector, r: (Connector, Action))
    requires
        connector.state().phase is Listening,
        call_ensures(Connector::step, (connector, Event::Tick), r),
    ensures
        connector.state().accepts(Event::Tick),
        PING_INTERVAL_SECS == 30,
        r.1 matches Action::Ping(message) && message.typ@ == "ping"@,
        r.0.state() == (State { phase: Phase::Pinging, ..connector.state() }),
        r.0.token_text() == connector.token_text(),
{
}

/// A message without a note in it changes nothing.
pub proof fn law_other_message_changes_nothing(
    connector: Connector,
    event: Event,
    r: (Connector, Action),
)
    requires
        connector.state().phase is Listening,
        event == Event::Text(None) || event is Other,
        call_ensures(Connector::step, (connector, event), r),
    ensures
        connector.state().accepts(event),
        r.1 is Listen,
        r.0.state() == connector.state(),
        r.0.token_text() == connector.token_text(),
{
}

/// What was to be sent is sent, or handed on: the connector listens.
pub proof fn law_done_and_listening(connector: Connector, event: Event, r: (Connector, Action))
    requires
        connector.state().phase is Delivering && event is Delivered || (
        connector.state().phase is Subscribing || connector.state().phase is Ponging
            || connector.state().phase is Pinging) && event is Sent,
        call_ensures(Connector::step, (connector, event), r),
    ensures
        connector.state().accepts(event),
        r.1 is Listen,
        r.0.state() == (State { phase: Phase::Listening, ..connector.state() }),
        r.0.token_text() == connector.token_text(),
{
}

/// A connection that is closed, fails or ends, or over which a pong or a heartbeat cannot
/// be sent, is over: its age is asked for.
pub proof fn law_connection_is_over(connector: Connector, event: Event, r: (Connector, Action))
    requires
        connector.state().phase is Listening && (event is Close || event is ReadError
            || event is Ended) || (connector.state().phase is Ponging
            || connector.state().phase is Pinging) && event is SendError,
        call_ensures(Connector::step, (connector, event), r),
    ensures
        connector.state().accepts(event),
        r.1 is MeasureUptime,
        r.0.state() == (State { phase: Phase::Closing, ..connector.state() }),
        r.0.token_text() == connector.token_text(),
{
}

/// Where nobody takes the note, the connector stops.
pub proof fn law_receiver_is_gone(connector: Connector, r: (Connector, Action))
    requires
        connector.state().phase is Delivering,
        call_ensures(Connector::step, (connector, Event::ReceiverGone), r),
    ensures
        connector.state().accepts(Event::ReceiverGone),
        r.1 is Stop,
        r.0.state().phase is Stopped,
{
}

/// A connection that is made joins the local timeline, and the failures are forgotten.
pub proof fn law_connection_joins_the_timeline(connector: Connector, r: (Connector, Action))
    requires
        connector.state().phase is Connecting,
        call_ensures(Connector::step, (connector, Event::Connected), r),
    ensures
        connector.state().accepts(Event::Connected),
        r.1 matches Action::Subscribe(message) && message.typ@ == "connect"@
            && message.body.channel@ == "localTimeline"@ && message.body.id@ == "local"@
            && message.body.params.with_renotes && !message.body.params.with_replies,
        r.0.state() == (State {
            phase: Phase::Subscribing,
            backoff: Backoff { attempts: 0, delay_ms: 1_000 },
        }),
        r.0.token_text() == connector.token_text(),
{
}

/// Where the timeline cannot be joined, the rest is a second and no failure is counted.
pub proof fn law_failed_subscription(connector: Connector, r: (Connector, Action))
    requires
        connector.state().phase is Subscribing,
        call_ensures(Connector::step, (connector, Event::SendError), r),
    ensures
        connector.state().accepts(Event::SendError),
        r.1 == Action::Rest(1_000),
        r.0.state() == (State {
            phase: Phase::Resting,
            backoff: Backoff { attempts: 0, delay_ms: 1_000 },
        }),
        r.0.token_text() == connector.token_text(),
{
}

/// Ten failures in a row are counted, with the delay doubled at each up to half a minute;
/// the one after them starts the count over and keeps the delay.
pub proof fn law_failures_are_counted(backoff: Backoff)
    requires
        backoff.attempts <= 10,
        1_000 <= backoff.delay_ms <= 30_000,
    ensures
        backoff.wf(),
        backoff.attempts < 10 ==> {
            &&& backoff.after_failure().attempts == backoff.attempts + 1
            &&& backoff.delay_ms <= 15_000 ==> backoff.after_failure().delay_ms
                == backoff.delay_ms + backoff.delay_ms
            &&& backoff.delay_ms > 15_000 ==> backoff.after_failure().delay_ms == 30_000
            &&& backoff.rest_after_connect_error() == backoff.delay_ms
            &&& backoff.rest_after_short_session() == backoff.after_failure().delay_ms
        },
        backoff.attempts == 10 ==> {
            &&& backoff.after_failure() == (Backoff { attempts: 0, ..backoff })
            &&& backoff.rest_after_connect_error() == 60_000
            &&& backoff.rest_after_short_session() == 60_000
        },
{
}

/// Counting a failure to connect gives the delay as it stood, and counting a connection
/// that ended at once the delay as it has grown; after ten others both give a minute.
pub proof fn law_counting_gives_the_rest(
    connecting: &mut Backoff,
    connected: &mut Backoff,
    a: u64,
    b: u64,
)
    requires
        *old(connecting) == *old(connected),
        old(connecting).wf(),
        call_ensures(Backoff::on_connect_error, (connecting,), a),
        call_ensures(Backoff::on_short_session, (connected,), b),
    ensures
        *final(connecting) == *final(connected),
        old(connecting).attempts < 10 ==> {
            &&& a == old(connecting).delay_ms
            &&& b == final(connected).delay_ms
            &&& final(connecting).attempts == old(connecting).attempts + 1
            &&& final(connecting).delay_ms == (if old(connecting).delay_ms <= 15_000 {
                old(connecting).delay_ms + old(connecting).delay_ms
            } else {
                30_000
            })
        },
        old(connecting).attempts == 10 ==> {
            &&& a == 60_000
            &&& b == 60_000
            &&& final(connecting).attempts == 0
            &&& final(connecting).delay_ms == old(connecting).delay_ms
        },
{
}

/// A fresh count has no failures and a delay of a second.
pub proof fn law_fresh_count(r: Backoff)
    requires
        call_ensures(Backoff::new, (), r),
    ensures
        r.attempts == 0,
        r.delay_ms == 1_000,
{
}

/// A failure to connect is followed by the delay as it stood, or by a minute after ten
/// others, and is counted.
pub proof fn law_failure_to_connect(connector: Connector, r: (Connector, Action))
    requires
        connector.state().phase is Connecting,
        call_ensures(Connector::step, (connector, Event::ConnectError), r),
    ensures
        connector.state().accepts(Event::ConnectError),
        ({
            let before = connector.state().backoff;
            let after = r.0.state().backoff;
            &&& before.attempts <= 10 && 1_000 <= before.delay_ms <= 30_000
            &&& r.0.state().phase is Resting
            &&& before.attempts < 10 ==> r.1 == Action::Rest(before.delay_ms) && after.attempts
                == before.attempts + 1 && after.delay_ms == (if before.delay_ms <= 15_000 {
                before.delay_ms + before.delay_ms
            } else {
                30_000
            })
            &&& before.attempts == 10 ==> r.1 == Action::Rest(60_000) && after.attempts == 0
                && after.delay_ms == before.delay_ms
        }),
        r.0.token_text() == connector.token_text(),
{
}

/// After a connection of less than ten seconds the rest is two seconds and one failure
/// counts; after any other it is a tenth of a second and none does.
pub proof fn law_age_of_a_connection(connector: Connector, secs: u64, r: (Connector, Action))
    requires
        connector.state().phase is Closing,
        call_ensures(Connector::step, (connector, Event::Uptime(secs)), r),
    ensures
        connector.state().accepts(Event::Uptime(secs)),
        secs < 10 ==> r.1 == Action::Rest(2_000) && r.0.state().backoff == (Backoff {
            attempts: 1,
            delay_ms: 2_000,
        }),
        secs >= 10 ==> r.1 == Action::Rest(100) && r.0.state().backoff == (Backoff {
            attempts: 0,
            delay_ms: 1_000,
        }),
        r.0.state().phase is Resting,
        r.0.token_text() == connector.token_text(),
{
}

/// After a rest the connector connects, to the address for its token.
pub proof fn law_rest_is_over(connector: Connector, r: (Connector, Action))
    requires
        connector.state().phase is Resting,
        call_ensures(Connector::step, (connector, Event::Rested), r),
    ensures
        connector.state().accepts(Event::Rested),
        r.1 matches Action::Connect(url) && url@ == address(connector.token_text()),
        r.0.state() == (State { phase: Phase::Connecting, ..connector.state() }),
        r.0.token_text() == connector.token_text(),
{
    lemma_address(connector.token_text());
}

/// The state after `events`, one after the other.
pub open spec fn after_run(state: State, events: Seq<Event>) -> State
    decreases events.len(),
{
    if events.len() == 0 {
        state
    } else {
        after_run(state, events.drop_last()).next(events.last())
    }
}

/// Whether each event can come of what is being done when it comes, and is answered by the
/// action at its place.
pub open spec fn is_run(
    state: State,
    token: Option<Seq<char>>,
    events: Seq<Event>,
    actions: Seq<Action>,
) -> bool
    decreases events.len(),
{
    &&& events.len() == actions.len()
    &&& events.len() > 0 ==> {
        let before = after_run(state, events.drop_last());
        &&& is_run(state, token, events.drop_last(), actions.drop_last())
        &&& before.accepts(events.last())
        &&& before.answers(token, events.last(), actions.last())
    }
}

/// The notes that arrive with `events`, in order.
pub open spec fn arrived_notes(events: Seq<Event>) -> Seq<MisskeyNote>
    decreases events.len(),
{
    if events.len() == 0 {
        Seq::empty()
    } else {
        match events.last() {
            Event::Text(Some(note)) => arrived_notes(events.drop_last()).push(note),
            _ => arrived_notes(events.drop_last()),
        }
    }
}

/// The notes that `actions` hand on, in order.
pub open spec fn delivered_notes(actions: Seq<Action>) -> Seq<MisskeyNote>
    decreases actions.len(),
{
    if actions.len() == 0 {
        Seq::empty()
    } else {
        match actions.last() {
            Action::Deliver(note) => delivered_notes(actions.drop_last()).push(note),
            _ => delivered_notes(actions.drop_last()),
        }
    }
}

/// The payloads of the pings that arrive with `events`, in order.
pub open spec fn arrived_pings(events: Seq<Event>) -> Seq<Bytes>
    decreases events.len(),
{
    if events.len() == 0 {
        Seq::empty()
    } else {
        match events.last() {
            Event::Ping(payload) => arrived_pings(events.drop_last()).push(payload),
            _ => arrived_pings(events.drop_last()),
        }
    }
}

/// The payloads of the pongs that `actions` send, in order.
pub open spec fn sent_pongs(actions: Seq<Action>) -> Seq<Bytes>
    decreases actions.len(),
{
    if actions.len() == 0 {
        Seq::empty()
    } else {
        match actions.last() {
            Action::Pong(payload) => sent_pongs(actions.drop_last()).push(payload),
            _ => sent_pongs(actions.drop_last()),
        }
    }
}

/// Over any run, the notes that are handed on are the notes that arrived, all of them and
/// in order, and the pongs that are sent are the pings that arrived.
pub proof fn law_nothing_is_lost(
    state: State,
    token: Option<Seq<char>>,
    events: Seq<Event>,
    actions: Seq<Action>,
)
    requires
        is_run(state, token, events, actions),
    ensures
        delivered_notes(actions) == arrived_notes(events),
        sent_pongs(actions) == arrived_pings(events),
    decreases events.len(),
{
    if events.len() > 0 {
        law_nothing_is_lost(state, token, events.drop_last(), actions.drop_last());
    }
}

} // verus!
