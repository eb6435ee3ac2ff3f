//! The receive loop as a machine: a phase, one event at a time, and the
//! effects that each event causes. The phase says what the caller is to do
//! next: open the stream, ask whether the loop may go on, or read a frame.
//! The caller waits, reads and delivers; what happens next is decided here.

use crate::message::{notification_for, InboundMessage, Notification};
use vstd::prelude::*;
use vstd::string::*;

verus! {

/// Whether the stream is up, as the user interface is told.
#[derive(Debug, Clone, Copy, PartialEq, Eq, Structural)]
pub enum ConnectionStatus {
    Connected,
    Disconnected,
}

/// Where a receive loop stands, and with that what it waits for.
#[derive(Debug, Clone, Copy, PartialEq, Eq, Structural)]
pub enum Phase {
    /// Launched; waits for the handshake to end.
    Connecting,
    /// The stream is open; waits to be told whether the loop may go on.
    /// Every read is preceded by this question.
    Checking,
    /// The stream is open and the loop may go on; waits for the next frame.
    Reading,
    /// Over. A loop never leaves this phase, nor reconnects.
    Closed,
}

/// One unit delivered by the stream, or the stream's end.
#[derive(Debug, PartialEq, Eq)]
pub enum Frame {
    /// A text frame, with the message it decoded to if it did.
    Text(Option<InboundMessage>),
    /// A frame that carries no message: binary, ping, pong.
    Other,
    /// The server closed the stream.
    Close,
    /// Reading failed.
    Failure,
    /// The stream ended without a close frame.
    End,
}

/// What a receive loop can be told.
#[derive(Debug, PartialEq, Eq)]
pub enum Event {
    /// The handshake succeeded.
    Connected,
    /// No stream could be opened.
    ConnectFailed,
    /// Whether the loop may go on, as the controller answered for the
    /// loop's ticket.
    Poll(bool),
    /// The stream delivered this.
    Frame(Frame),
}

/// What the caller is to do, in the order given.
#[derive(Debug, PartialEq, Eq)]
pub enum Effect {
    /// Tell the user interface the connection status.
    Status(ConnectionStatus),
    /// Show this notification.
    Notify(Notification),
    /// Hand this message to the user interface.
    Forward(InboundMessage),
    /// Give the loop's ticket back to the controller.
    ReleaseRunState,
}

/// The word that stands for a status in the event sent to the user
/// interface.
pub open spec fn status_word(status: ConnectionStatus) -> Seq<char> {
    match status {
        ConnectionStatus::Connected => "connected"@,
        ConnectionStatus::Disconnected => "disconnected"@,
    }
}

impl ConnectionStatus {
    /// This status as the payload of its event.
    pub fn word(&self) -> (r: &'static str)
        ensures
            r@ == status_word(*self),
    {
        match self {
            ConnectionStatus::Connected => "connected",
            ConnectionStatus::Disconnected => "disconnected",
        }
    }
}

/// The name of the user-interface event that an effect is sent as; none for
/// an effect that does not go to the user interface.
pub open spec fn event_name_of(effect: Effect) -> Option<Seq<char>> {
    match effect {
        Effect::Status(_) => Some("connection-status"@),
        Effect::Forward(_) => Some("message-received"@),
        _ => None,
    }
}

impl Effect {
    /// The name of the event that carries this effect to the user interface.
    pub fn event_name(&self) -> (r: Option<&'static str>)
        ensures
            match event_name_of(*self) {
                Some(name) => r.is_some() && r.unwrap()@ == name,
                None => r.is_none(),
            },
    {
        match self {
            Effect::Status(_) => Some("connection-status"),
            Effect::Forward(_) => Some("message-received"),
            _ => None,
        }
    }
}

/// Whether a frame ends the stream.
pub open spec fn ends_stream(frame: Frame) -> bool {
    frame is Close || frame is Failure || frame is End
}

/// Whether the stream is open in this phase.
pub open spec fn streams(phase: Phase) -> bool {
    phase is Checking || phase is Reading
}

/// Whether an event ends the loop in this phase: the loop asked and may not
/// go on, or it read and the stream is over.
pub open spec fn closes(phase: Phase, event: Event) -> bool {
    match (phase, event) {
        (Phase::Checking, Event::Poll(go)) => !go,
        (Phase::Reading, Event::Frame(frame)) => ends_stream(frame),
        _ => false,
    }
}

/// The phase after `event`. An event that the phase does not wait for
/// leaves it as it is.
pub open spec fn next_phase(phase: Phase, event: Event) -> Phase {
    match (phase, event) {
        (Phase::Connecting, Event::Connected) => Phase::Checking,
        (Phase::Connecting, Event::ConnectFailed) => Phase::Closed,
        (Phase::Checking, Event::Poll(go)) => if go {
            Phase::Reading
        } else {
            Phase::Closed
        },
        (Phase::Reading, Event::Frame(frame)) => if ends_stream(frame) {
            Phase::Closed
        } else {
            Phase::Checking
        },
        _ => phase,
    }
}

/// The effects of leaving an open stream: the status event, then the
/// ticket.
pub open spec fn closing_effects() -> Seq<Effect> {
    seq![Effect::Status(ConnectionStatus::Disconnected), Effect::ReleaseRunState]
}

/// The effects of `event` in `phase`, in order. A decoded message is
/// notified and then forwarded; a text frame that did not decode, and any
/// frame without a message, cause nothing, and so does an event that the
/// phase does not wait for.
pub open spec fn effects_of(phase: Phase, event: Event) -> Seq<Effect> {
    if closes(phase, event) {
        closing_effects()
    } else {
        match (phase, event) {
            (Phase::Connecting, Event::Connected) => seq![
                Effect::Status(ConnectionStatus::Connected),
            ],
            (Phase::Connecting, Event::ConnectFailed) => seq![Effect::ReleaseRunState],
            (Phase::Reading, Event::Frame(Frame::Text(Some(message)))) => seq![
                Effect::Notify(notification_for(message)),
                Effect::Forward(message),
            ],
            _ => seq![],
        }
    }
}

fn closing() -> (r: Vec<Effect>)
    ensures
        r@ == closing_effects(),
{
    let mut effects: Vec<Effect> = Vec::new();
    effects.push(Effect::Status(ConnectionStatus::Disconnected));
    effects.push(Effect::ReleaseRunState);
    effects
}

/// Takes one event. Returns the next phase and what the caller is to do
/// before it reports the next event, which is the one that the next phase
/// waits for.
pub fn step(phase: Phase, event: Event) -> (r: (Phase, Vec<Effect>))
    ensures
        r.0 == next_phase(phase, event),
        r.1@ == effects_of(phase, event),
{
    let mut effects: Vec<Effect> = Vec::new();
    match (phase, event) {
        (Phase::Connecting, Event::Connected) => {
            effects.push(Effect::Status(ConnectionStatus::Connected));
            (Phase::Checking, effects)
        },
        (Phase::Connecting, Event::ConnectFailed) => {
            effects.push(Effect::ReleaseRunState);
            (Phase::Closed, effects)
        },
        (Phase::Checking, Event::Poll(true)) => (Phase::Reading, effects),
        (Phase::Checking, Event::Poll(false)) => (Phase::Closed, closing()),
        (Phase::Reading, Event::Frame(Frame::Close)) => (Phase::Closed, closing()),
        (Phase::Reading, Event::Frame(Frame::Failure)) => (Phase::Closed, closing()),
        (Phase::Reading, Event::Frame(Frame::End)) => (Phase::Closed, closing()),
        (Phase::Reading, Event::Frame(Frame::Text(Some(message)))) => {
            effects.push(Effect::Notify(message.notification()));
            effects.push(Effect::Forward(message));
            (Phase::Checking, effects)
        },
        (Phase::Reading, Event::Frame(_)) => (Phase::Checking, effects),
        _ => (phase, effects),
    }
}

/// The phase after a run of events.
pub open spec fn phase_after(phase: Phase, events: Seq<Event>) -> Phase
    decreases events.len(),
{
    if events.len() == 0 {
        phase
    } else {
        phase_after(next_phase(phase, events[0]), events.drop_first())
    }
}

/// All effects of a run of events, in order.
pub open spec fn effects_during(phase: Phase, events: Seq<Event>) -> Seq<Effect>
    decreases events.len(),
{
    if events.len() == 0 {
        Seq::empty()
    } else {
        effects_of(phase, events[0]) + effects_during(
            next_phase(phase, events[0]),
            events.drop_first(),
        )
    }
}

/// How often `effect` occurs among `effects`.
pub open spec fn occurrences(effects: Seq<Effect>, effect: Effect) -> nat
    decreases effects.len(),
{
    if effects.len() == 0 {
        0
    } else {
        occurrences(effects.drop_last(), effect) + if effects.last() == effect {
            1nat
        } else {
            0nat
        }
    }
}

proof fn lemma_occurrences_concat(first: Seq<Effect>, second: Seq<Effect>, effect: Effect)
    ensures
        occurrences(first + second, effect) == occurrences(first, effect) + occurrences(
            second,
            effect,
        ),
    decreases second.len(),
{
    if second.len() == 0 {
        assert(first + second =~= first);
    } else {
        assert((first + second).drop_last() =~= first + second.drop_last());
        lemma_occurrences_concat(first, second.drop_last(), effect);
    }
}

proof fn lemma_phase_after_concat(phase: Phase, first: Seq<Event>, second: Seq<Event>)
    ensures
        phase_after(phase, first + second) == phase_after(phase_after(phase, first), second),
    decreases first.len(),
{
    if first.len() == 0 {
        assert(first + second =~= second);
    } else {
        assert((first + second).drop_first() =~= first.drop_first() + second);
        lemma_phase_after_concat(next_phase(phase, first[0]), first.drop_first(), second);
    }
}

/// A loop that is over stays over and causes nothing more.
pub proof fn lemma_closed_is_final(events: Seq<Event>)
    ensures
        phase_after(Phase::Closed, events) == Phase::Closed,
        effects_during(Phase::Closed, events) == Seq::<Effect>::empty(),
    decreases events.len(),
{
    if events.len() > 0 {
        lemma_closed_is_final(events.drop_first());
        assert(effects_during(Phase::Closed, events) =~= Seq::<Effect>::empty());
    }
}

/// Whatever a loop with an open stream is told, it never goes back to
/// connecting, and it has told the user interface `Disconnected` and given
/// its ticket back exactly once if it is over, and not at all if its stream
/// is still open.
pub proof fn lemma_stream_closes_once(phase: Phase, events: Seq<Event>)
    requires
        streams(phase),
    ensures
        streams(phase_after(phase, events)) || phase_after(phase, events) == Phase::Closed,
        occurrences(
            effects_during(phase, events),
            Effect::Status(ConnectionStatus::Disconnected),
        ) == (if phase_after(phase, events) == Phase::Closed {
            1nat
        } else {
            0nat
        }),
        occurrences(effects_during(phase, events), Effect::ReleaseRunState) == (if phase_after(
            phase,
            events,
        ) == Phase::Closed {
            1nat
        } else {
            0nat
        }),
    decreases events.len(),
{
    let gone = Effect::Status(ConnectionStatus::Disconnected);
    if events.len() > 0 {
        let head = effects_of(phase, events[0]);
        let next = next_phase(phase, events[0]);
        let rest = events.drop_first();
        reveal_with_fuel(occurrences, 3);
        if closes(phase, events[0]) {
            lemma_closed_is_final(rest);
            assert(effects_during(phase, events) =~= head);
            assert(occurrences(head, gone) == 1);
            assert(occurrences(head, Effect::ReleaseRunState) == 1);
        } else {
            lemma_stream_closes_once(next, rest);
            assert(occurrences(head, gone) == 0);
            assert(occurrences(head, Effect::ReleaseRunState) == 0);
            lemma_occurrences_concat(head, effects_during(next, rest), gone);
            lemma_occurrences_concat(head, effects_during(next, rest), Effect::ReleaseRunState);
        }
    }
}

/// Once a loop has read the end of its stream, be it a close frame, a read
/// error or the plain end, the loop is over, and over the whole run,
/// whatever came before and whatever is reported after, and however its
/// questions were answered in between, `Disconnected` was sent exactly once
/// and the ticket given back exactly once.
pub proof fn lemma_stream_end_disconnects_once(
    before: Seq<Event>,
    frame: Frame,
    after: Seq<Event>,
)
    requires
        phase_after(Phase::Checking, before) == Phase::Reading,
        ends_stream(frame),
    ensures
        ({
            let events = before + seq![Event::Frame(frame)] + after;
            &&& phase_after(Phase::Checking, events) == Phase::Closed
            &&& occurrences(
                effects_during(Phase::Checking, events),
                Effect::Status(ConnectionStatus::Disconnected),
            ) == 1
            &&& occurrences(effects_during(Phase::Checking, events), Effect::ReleaseRunState)
                == 1
        }),
{
    let end = seq![Event::Frame(frame)];
    let events = before + end + after;
    lemma_phase_after_concat(Phase::Checking, before + end, after);
    lemma_phase_after_concat(Phase::Checking, before, end);
    assert(end.drop_first() =~= Seq::<Event>::empty());
    assert(phase_after(next_phase(Phase::Reading, end[0]), end.drop_first()) == next_phase(
        Phase::Reading,
        end[0],
    ));
    lemma_closed_is_final(after);
    lemma_stream_closes_once(Phase::Checking, events);
}

/// A loop that is told it may not go on is over at once, whatever the
/// stream still holds: `Disconnected` is sent and the ticket given back, and
/// nothing that is reported afterwards causes anything.
pub proof fn lemma_refused_loop_closes(after: Seq<Event>)
    ensures
        phase_after(Phase::Checking, seq![Event::Poll(false)] + after) == Phase::Closed,
        effects_during(Phase::Checking, seq![Event::Poll(false)] + after) == closing_effects(),
{
    let events = seq![Event::Poll(false)] + after;
    assert(events.drop_first() =~= after);
    assert(events[0] == Event::Poll(false));
    lemma_closed_is_final(after);
    assert(effects_during(Phase::Checking, events) =~= closing_effects());
}

/// A text frame that did not decode causes nothing and does not end the
/// loop: once the loop has asked again and may go on, the run continues as
/// if the frame had not come.
pub proof fn lemma_undecodable_text_is_skipped(rest: Seq<Event>)
    ensures
        ({
            let skipped = Event::Frame(Frame::Text(None));
            let resumed = seq![skipped, Event::Poll(true)] + rest;
            &&& effects_of(Phase::Reading, skipped) == Seq::<Effect>::empty()
            &&& next_phase(Phase::Reading, skipped) == Phase::Checking
            &&& effects_during(Phase::Reading, resumed) == effects_during(Phase::Reading, rest)
            &&& phase_after(Phase::Reading, resumed) == phase_after(Phase::Reading, rest)
        }),
{
    let skipped = Event::Frame(Frame::Text(None));
    let resumed = seq![skipped, Event::Poll(true)] + rest;
    let tail = resumed.drop_first();
    assert(resumed[0] == skipped);
    assert(tail[0] == Event::Poll(true));
    assert(tail.drop_first() =~= rest);
    assert(effects_of(Phase::Reading, skipped) =~= Seq::<Effect>::empty());
    assert(effects_of(Phase::Checking, Event::Poll(true)) =~= Seq::<Effect>::empty());
    assert(effects_during(Phase::Checking, tail) =~= effects_during(Phase::Reading, rest));
    assert(effects_during(Phase::Reading, resumed) =~= effects_during(Phase::Reading, rest));
    assert(phase_after(Phase::Checking, tail) == phase_after(Phase::Reading, rest));
}

/// From its launch on, a loop gives its ticket back exactly once if it is
/// over and not before, reports `Connected` at most once, and reports
/// `Disconnected` only after `Connected`: as often, once it is over.
pub proof fn lemma_loop_releases_once(events: Seq<Event>)
    ensures
        ({
            let effects = effects_during(Phase::Connecting, events);
            let over = phase_after(Phase::Connecting, events) == Phase::Closed;
            let up = occurrences(effects, Effect::Status(ConnectionStatus::Connected));
            let down = occurrences(effects, Effect::Status(ConnectionStatus::Disconnected));
            &&& occurrences(effects, Effect::ReleaseRunState) == (if over {
                1nat
            } else {
                0nat
            })
            &&& down <= up <= 1
            &&& over ==> down == up
        }),
    decreases events.len(),
{
    let up = Effect::Status(ConnectionStatus::Connected);
    let down = Effect::Status(ConnectionStatus::Disconnected);
    if events.len() > 0 {
        let head = effects_of(Phase::Connecting, events[0]);
        let rest = events.drop_first();
        reveal_with_fuel(occurrences, 3);
        match events[0] {
            Event::Connected => {
                let tail = effects_during(Phase::Checking, rest);
                lemma_stream_closes_once(Phase::Checking, rest);
                lemma_no_connect_while_streaming(Phase::Checking, rest);
                lemma_occurrences_concat(head, tail, up);
                lemma_occurrences_concat(head, tail, down);
                lemma_occurrences_concat(head, tail, Effect::ReleaseRunState);
                assert(occurrences(head, up) == 1);
                assert(occurrences(head, down) == 0);
                assert(occurrences(head, Effect::ReleaseRunState) == 0);
            },
            Event::ConnectFailed => {
                lemma_closed_is_final(rest);
                assert(effects_during(Phase::Connecting, events) =~= head);
                assert(occurrences(head, up) == 0);
                assert(occurrences(head, down) == 0);
                assert(occurrences(head, Effect::ReleaseRunState) == 1);
            },
            _ => {
                lemma_loop_releases_once(rest);
                assert(effects_during(Phase::Connecting, events) =~= effects_during(
                    Phase::Connecting,
                    rest,
                ));
            },
        }
    }
}

proof fn lemma_no_connect_while_streaming(phase: Phase, events: Seq<Event>)
    requires
        streams(phase),
    ensures
        occurrences(
            effects_during(phase, events),
            Effect::Status(ConnectionStatus::Connected),
        ) == 0,
    decreases events.len(),
{
    let up = Effect::Status(ConnectionStatus::Connected);
    if events.len() > 0 {
        let head = effects_of(phase, events[0]);
        let next = next_phase(phase, events[0]);
        let rest = events.drop_first();
        reveal_with_fuel(occurrences, 3);
        assert(occurrences(head, up) == 0);
        if closes(phase, events[0]) {
            lemma_closed_is_final(rest);
            assert(effects_during(phase, events) =~= head);
        } else {
            lemma_no_connect_while_streaming(next, rest);
            lemma_occurrences_concat(head, effects_during(next, rest), up);
        }
    }
}

} // verus!
