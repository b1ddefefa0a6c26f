//! The one-shot callback exchange that completes a browser-based OAuth
//! redirect.
//!
//! The listener owns a bound socket; this module owns every decision. The
//! listener reports what arrived, [`CallbackSession::advance`] says what to
//! answer and whether to go on, and writes the payload into the [`TokenSlot`]
//! that the rest of the process polls.

use vstd::prelude::*;
use vstd::string::*;
use crate::request::{code_payload_of, has_code, query_string, relay_payload, relay_payload_of};
use crate::token::{after_offer, after_store, after_take, taken, TokenSlot};

verus! {

/// How long the listener waits for the relay request, in seconds.
pub const RELAY_TIMEOUT_SECS: u64 = 5;

/// The content type of the confirmation page.
pub const PAGE_CONTENT_TYPE: &'static str = "text/html";

/// The page that answers the redirect.
///
/// A URL fragment never reaches a server, so the page's script reads it and,
/// where it is not empty, sends it to `/tokens` as a query string.
pub const CONFIRMATION_PAGE: &'static str = "
<!DOCTYPE html>
<html>
<head>
    <title>Authentication Complete</title>
    <style>
        body {
            font-family: -apple-system, BlinkMacSystemFont, 'Segoe UI', sans-serif;
            display: flex; justify-content: center; align-items: center;
            height: 100vh; margin: 0;
            background: #0A0A0A; color: white;
        }
        .container { text-align: center; padding: 2rem; }
        h1 { color: #F5C300; font-size: 2rem; }
        p { color: #888; margin-top: 1rem; }
    </style>
</head>
<body>
    <div class=\"container\">
        <h1>\u{e2}\u{203a}\u{b3} Authentication Successful</h1>
        <p>You can close this tab and return to The Clubhouse.</p>
    </div>
    <script>
        const hash = window.location.hash.substring(1);
        const status = document.querySelector('p');
        if (hash) {
            fetch('/tokens?' + hash, { method: 'POST' })
                .then(() => { status.textContent = 'Done! You can close this tab.'; })
                .catch(err => { status.textContent = 'Error: ' + err.message; });
        } else {
            status.textContent = 'Done! You can close this tab.';
        }
    </script>
</body>
</html>";

/// The body of the answer to the relay request.
pub const RELAY_REPLY: &'static str = "ok";

/// Why the listener could not start.
#[derive(Debug, PartialEq, Eq)]
pub enum BindError {
    /// No local port could be bound; the text is the host's account.
    Refused(String),
    /// The bound socket reports no port.
    NoPort,
}

/// The value that a [`BindError`] stands for.
pub enum BindErrorView {
    Refused(Seq<char>),
    NoPort,
}

impl View for BindError {
    type V = BindErrorView;

    open spec fn view(&self) -> BindErrorView {
        match self {
            BindError::Refused(d) => BindErrorView::Refused(d@),
            BindError::NoPort => BindErrorView::NoPort,
        }
    }
}

impl BindErrorView {
    /// The one descriptive line that the caller is shown.
    pub open spec fn message(self) -> Seq<char> {
        match self {
            BindErrorView::Refused(d) => d,
            BindErrorView::NoPort => "Failed to get server port"@,
        }
    }
}

impl BindError {
    /// The one descriptive line that the caller is shown.
    pub fn message(&self) -> (text: String)
        ensures
            text@ == self@.message(),
    {
        match self {
            BindError::Refused(d) => d.clone(),
            BindError::NoPort => String::from_str("Failed to get server port"),
        }
    }
}

/// The port that the listener was given, from what the bound socket
/// reports: an address without a port, or port zero, is no port.
pub fn bound_port(reported: Option<u16>) -> (port: Result<u16, BindError>)
    ensures
        match port {
            Ok(p) => reported == Some(p) && p != 0,
            Err(e) => e@ == BindErrorView::NoPort && (reported is None || reported == Some(0u16)),
        },
{
    match reported {
        Some(p) => if p != 0 {
            Ok(p)
        } else {
            Err(BindError::NoPort)
        },
        None => Err(BindError::NoPort),
    }
}

/// Where a session stands.
#[derive(Clone, Copy, Debug, PartialEq, Eq)]
pub enum Phase {
    /// Waiting, without limit, for the browser's redirect.
    AwaitingCallback,
    /// The redirect was answered; waiting a bounded time for the page's
    /// script to relay the fragment.
    AwaitingRelay,
    /// The session is over: nothing more is served.
    Closed,
}

/// How long the listener is to wait for the next request.
#[derive(Clone, Copy, Debug, PartialEq, Eq)]
pub enum Wait {
    /// As long as it takes: the user may need any time to authenticate.
    Unbounded,
    /// This many seconds at most.
    AtMost(u64),
    /// Not at all: nothing more is served.
    Over,
}

/// What the listener reports to the session.
#[derive(Debug, PartialEq, Eq)]
pub enum Incoming {
    /// A request arrived, with this target.
    Request(String),
    /// The bounded wait ran out.
    TimedOut,
    /// The socket failed.
    Failed,
}

/// The value that an [`Incoming`] stands for.
pub enum IncomingView {
    Request(Seq<char>),
    TimedOut,
    Failed,
}

impl View for Incoming {
    type V = IncomingView;

    open spec fn view(&self) -> IncomingView {
        match self {
            Incoming::Request(target) => IncomingView::Request(target@),
            Incoming::TimedOut => IncomingView::TimedOut,
            Incoming::Failed => IncomingView::Failed,
        }
    }
}

/// What the listener is to do next.
#[derive(Clone, Copy, Debug, PartialEq, Eq)]
pub enum Directive {
    /// Answer the request with [`CONFIRMATION_PAGE`], as
    /// [`PAGE_CONTENT_TYPE`].
    ServePage,
    /// Answer the request with [`RELAY_REPLY`].
    ServeOk,
    /// Answer nothing: there is no request, or the session is over.
    Stop,
}

/// Where a session stands, with its mark.
pub struct SessionView {
    /// The phase in which the session stands.
    pub phase: Phase,
    /// Whether the redirect carried an authorization code. A session so
    /// resolved produces no other payload.
    pub resolved_via_code: bool,
}

/// A session that has just begun.
pub open spec fn fresh() -> SessionView {
    SessionView { phase: Phase::AwaitingCallback, resolved_via_code: false }
}

/// How long the listener waits for the next request in `phase`.
pub open spec fn wait_in(phase: Phase) -> Wait {
    match phase {
        Phase::AwaitingCallback => Wait::Unbounded,
        Phase::AwaitingRelay => Wait::AtMost(RELAY_TIMEOUT_SECS),
        Phase::Closed => Wait::Over,
    }
}

/// The phase that follows `phase` once `incoming` was reported.
pub open spec fn next_phase(phase: Phase, incoming: IncomingView) -> Phase {
    match (phase, incoming) {
        (Phase::AwaitingCallback, IncomingView::Request(_)) => Phase::AwaitingRelay,
        _ => Phase::Closed,
    }
}

/// What the listener does once `incoming` was reported in `phase`.
pub open spec fn directive_for(phase: Phase, incoming: IncomingView) -> Directive {
    match (phase, incoming) {
        (Phase::AwaitingCallback, IncomingView::Request(_)) => Directive::ServePage,
        (Phase::AwaitingRelay, IncomingView::Request(_)) => Directive::ServeOk,
        _ => Directive::Stop,
    }
}

/// Where a session stands once `incoming` was reported: in the next phase,
/// and resolved via a code from the moment the redirect carries one.
pub open spec fn session_after(session: SessionView, incoming: IncomingView) -> SessionView {
    SessionView {
        phase: next_phase(session.phase, incoming),
        resolved_via_code: match (session.phase, incoming) {
            (Phase::AwaitingCallback, IncomingView::Request(target)) => session.resolved_via_code
                || code_payload_of(target) is Some,
            _ => session.resolved_via_code,
        },
    }
}

/// What the slot holds once `incoming` was reported to `session`, if it held
/// `held` before.
///
/// The redirect writes its query string where that carries a code. The relay
/// request offers its payload only to a session that no code has resolved,
/// and an occupied slot declines it. Nothing else touches the slot.
pub open spec fn slot_after(
    session: SessionView,
    incoming: IncomingView,
    held: Option<Seq<char>>,
) -> Option<Seq<char>> {
    match (session.phase, incoming) {
        (Phase::AwaitingCallback, IncomingView::Request(target)) => match code_payload_of(target) {
            Some(query) => after_store(held, query),
            None => held,
        },
        (Phase::AwaitingRelay, IncomingView::Request(target)) => match relay_payload_of(target) {
            Some(payload) => if session.resolved_via_code {
                held
            } else {
                after_offer(held, payload)
            },
            None => held,
        },
        _ => held,
    }
}

/// Where a session stands after the listener reported `events` in turn, and
/// what the slot then holds, if nobody read it meanwhile.
pub open spec fn after_all(
    session: SessionView,
    held: Option<Seq<char>>,
    events: Seq<IncomingView>,
) -> (SessionView, Option<Seq<char>>)
    decreases events.len(),
{
    if events.len() == 0 {
        (session, held)
    } else {
        after_all(
            session_after(session, events[0]),
            slot_after(session, events[0], held),
            events.skip(1),
        )
    }
}

/// What a read of the slot returns after a whole session in which the
/// listener reported `events` and nobody read the slot meanwhile.
pub open spec fn session_yield(events: Seq<IncomingView>) -> Option<Seq<char>> {
    taken(after_all(fresh(), None, events).1)
}

/// What happens around a session: the listener reports something, or the
/// rest of the process reads the slot.
pub enum Move {
    Arrival(IncomingView),
    Read,
}

/// What the reads among `moves` return, in order, where the moves happen in
/// turn to a session that stands at `session` with `held` in the slot.
pub open spec fn reads_during(
    session: SessionView,
    held: Option<Seq<char>>,
    moves: Seq<Move>,
) -> Seq<Option<Seq<char>>>
    decreases moves.len(),
{
    if moves.len() == 0 {
        Seq::empty()
    } else {
        match moves[0] {
            Move::Read => seq![taken(held)] + reads_during(
                session,
                after_take(held),
                moves.skip(1),
            ),
            Move::Arrival(incoming) => reads_during(
                session_after(session, incoming),
                slot_after(session, incoming, held),
                moves.skip(1),
            ),
        }
    }
}

/// One authentication attempt, from the moment the socket is bound.
///
/// The view is the phase in which the session stands, with its mark.
pub struct CallbackSession {
    phase: Phase,
    resolved_via_code: bool,
}

impl View for CallbackSession {
    type V = SessionView;

    closed spec fn view(&self) -> SessionView {
        SessionView { phase: self.phase, resolved_via_code: self.resolved_via_code }
    }
}

impl CallbackSession {
    /// Starts a session: whatever an earlier session left in `slot` is
    /// discarded, and the listener is to wait for the redirect.
    pub fn begin(slot: &mut TokenSlot) -> (session: CallbackSession)
        ensures
            session@ == fresh(),
            final(slot)@ is None,
    {
        slot.clear();
        CallbackSession { phase: Phase::AwaitingCallback, resolved_via_code: false }
    }

    /// Whether the redirect carried an authorization code.
    pub fn resolved_via_code(&self) -> (resolved: bool)
        ensures
            resolved == self@.resolved_via_code,
    {
        self.resolved_via_code
    }

    /// Where the session stands.
    pub fn phase(&self) -> (phase: Phase)
        ensures
            phase == self@.phase,
    {
        self.phase
    }

    /// How long the listener is to wait for the next request.
    pub fn awaits(&self) -> (wait: Wait)
        ensures
            wait == wait_in(self@.phase),
    {
        match self.phase {
            Phase::AwaitingCallback => Wait::Unbounded,
            Phase::AwaitingRelay => Wait::AtMost(RELAY_TIMEOUT_SECS),
            Phase::Closed => Wait::Over,
        }
    }

    /// Takes in what the listener reports, and says what it is to do next.
    ///
    /// A session produces one payload at most. Once the redirect carried a
    /// code, a relayed fragment is answered and dropped, whether or not the
    /// code was read meanwhile.
    pub fn advance(&mut self, incoming: &Incoming, slot: &mut TokenSlot) -> (directive: Directive)
        ensures
            final(self)@ == session_after(old(self)@, incoming@),
            directive == directive_for(old(self)@.phase, incoming@),
            final(slot)@ == slot_after(old(self)@, incoming@, old(slot)@),
    {
        match self.phase {
            Phase::AwaitingCallback => match incoming {
                Incoming::Request(target) => {
                    match query_string(target.as_str()) {
                        Some(query) => {
                            if has_code(query.as_str()) {
                                slot.store(query);
                                self.resolved_via_code = true;
                            }
                        },
                        None => {},
                    }
                    self.phase = Phase::AwaitingRelay;
                    Directive::ServePage
                },
                _ => {
                    self.phase = Phase::Closed;
                    Directive::Stop
                },
            },
            Phase::AwaitingRelay => {
                self.phase = Phase::Closed;
                match incoming {
                    Incoming::Request(target) => {
                        if !self.resolved_via_code {
                            match relay_payload(target.as_str()) {
                                Some(payload) => {
                                    slot.offer(payload);
                                },
                                None => {},
                            }
                        }
                        Directive::ServeOk
                    },
                    _ => Directive::Stop,
                }
            },
            Phase::Closed => Directive::Stop,
        }
    }
}

/// A closed session serves nothing and writes nothing, whatever arrives.
pub proof fn closed_is_inert(
    session: SessionView,
    held: Option<Seq<char>>,
    events: Seq<IncomingView>,
)
    requires
        session.phase == Phase::Closed,
    ensures
        after_all(session, held, events) == (session, held),
    decreases events.len(),
{
    if events.len() > 0 {
        closed_is_inert(session, held, events.skip(1));
    }
}

/// A session takes in at most two reports: after the answer to the redirect,
/// whatever comes next closes it.
pub proof fn relay_wait_ends_session(
    session: SessionView,
    held: Option<Seq<char>>,
    events: Seq<IncomingView>,
)
    requires
        session.phase == Phase::AwaitingRelay,
        events.len() > 0,
    ensures
        after_all(session, held, events) == (
            session_after(session, events[0]),
            slot_after(session, events[0], held),
        ),
        after_all(session, held, events).0.phase == Phase::Closed,
{
    closed_is_inert(
        session_after(session, events[0]),
        slot_after(session, events[0], held),
        events.skip(1),
    );
}

/// First writer wins: where the redirect carries a code, a read after the
/// session returns the redirect's query string, whatever arrived later, a
/// relayed fragment included.
pub proof fn code_wins(first: Seq<char>, rest: Seq<IncomingView>)
    requires
        code_payload_of(first) is Some,
    ensures
        session_yield(seq![IncomingView::Request(first)] + rest) == code_payload_of(first),
{
    let events = seq![IncomingView::Request(first)] + rest;
    let resolved = session_after(fresh(), events[0]);
    let held = code_payload_of(first);
    assert(events.skip(1) == rest);
    if rest.len() > 0 {
        relay_wait_ends_session(resolved, held, rest);
    } else {
        assert(after_all(resolved, held, rest).1 == held);
    }
}

/// A session that a code has resolved writes nothing more: the reads that
/// follow return what the slot held, once, and nothing after that, whatever
/// arrives between them.
pub proof fn resolved_session_writes_nothing(
    session: SessionView,
    held: Option<Seq<char>>,
    moves: Seq<Move>,
    i: int,
)
    requires
        session.resolved_via_code,
        session.phase != Phase::AwaitingCallback,
        0 <= i < reads_during(session, held, moves).len(),
    ensures
        reads_during(session, held, moves)[i] == (if i == 0 {
            held
        } else {
            None
        }),
    decreases moves.len(),
{
    if moves.len() > 0 {
        match moves[0] {
            Move::Read => {
                if i > 0 {
                    resolved_session_writes_nothing(session, None, moves.skip(1), i - 1);
                }
            },
            Move::Arrival(incoming) => {
                resolved_session_writes_nothing(
                    session_after(session, incoming),
                    held,
                    moves.skip(1),
                    i,
                );
            },
        }
    }
}

/// A session produces its payload once. Where the redirect carries a code,
/// the first read after it returns the redirect's query string and every
/// later read returns nothing, whenever the reads happen: a fragment relayed
/// after the code was read is never handed out.
pub proof fn code_is_never_followed_by_fragment(first: Seq<char>, moves: Seq<Move>, i: int)
    requires
        code_payload_of(first) is Some,
        0 <= i < reads_during(
            fresh(),
            None,
            seq![Move::Arrival(IncomingView::Request(first))] + moves,
        ).len(),
    ensures
        reads_during(fresh(), None, seq![Move::Arrival(IncomingView::Request(first))] + moves)[i]
            == (if i == 0 {
            code_payload_of(first)
        } else {
            None
        }),
{
    let all = seq![Move::Arrival(IncomingView::Request(first))] + moves;
    assert(all.skip(1) == moves);
    resolved_session_writes_nothing(
        session_after(fresh(), IncomingView::Request(first)),
        code_payload_of(first),
        moves,
        i,
    );
}

/// Where the redirect carries no code and the relay request arrives in time,
/// a read after the session returns the relayed payload.
pub proof fn relay_fills_empty_slot(first: Seq<char>, second: Seq<char>, rest: Seq<IncomingView>)
    requires
        code_payload_of(first) is None,
        relay_payload_of(second) is Some,
    ensures
        session_yield(
            seq![IncomingView::Request(first), IncomingView::Request(second)] + rest,
        ) == relay_payload_of(second),
{
    let events = seq![IncomingView::Request(first), IncomingView::Request(second)] + rest;
    relay_wait_ends_session(session_after(fresh(), events[0]), None, events.skip(1));
}

/// Where the redirect carries no code and no relay request follows it (the
/// wait runs out, the socket fails, or the next request targets another
/// path), a read after the session returns nothing.
pub proof fn no_payload_without_code_or_relay(first: Seq<char>, rest: Seq<IncomingView>)
    requires
        code_payload_of(first) is None,
        rest.len() > 0 ==> match rest[0] {
            IncomingView::Request(target) => relay_payload_of(target) is None,
            _ => true,
        },
    ensures
        session_yield(seq![IncomingView::Request(first)] + rest) is None,
{
    let events = seq![IncomingView::Request(first)] + rest;
    let waiting = session_after(fresh(), events[0]);
    assert(events.skip(1) == rest);
    if rest.len() > 0 {
        relay_wait_ends_session(waiting, None, rest);
    } else {
        assert(after_all(waiting, None, rest).1 is None);
    }
}

} // verus!
