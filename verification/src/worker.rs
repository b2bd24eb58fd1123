//! The connection worker state machine.
//!
//! A worker owns exactly one connection for its entire life. It moves through
//! the phases Negotiating (only when transport security is configured) →
//! Handshaking → Open → Closed, and while Open it repeats: receive one
//! message, echo it back verbatim if it is a data message, discard it if it
//! is a control message, and stop on a clean close or on the first failure.
//!
//! The process around the library performs the actual socket work and feeds
//! each outcome to the worker; the worker makes every decision. The spec-level
//! transition function [`step`] says what each outcome does to the state, and
//! the ghost history of received and echoed messages lets the echo guarantees
//! be stated and proved of whole executions.

use vstd::prelude::*;
use crate::errors::{WorkerError, WorkerExit};
use crate::message::{Msg, MsgView};

verus! {

/// The lifecycle phase of one connection worker.
#[derive(Clone, Copy, PartialEq, Eq, Structural, Debug)]
pub enum Phase {
    /// Waiting for the transport-security negotiation on the raw stream.
    Negotiating,
    /// Waiting for the protocol upgrade handshake.
    Handshaking,
    /// The session is established; messages are being received and echoed.
    Open,
    /// Terminal: the connection is finished and every resource it owned can
    /// be released. No transition leaves this phase.
    Closed,
}

/// The outcome the session hands back for one receive call.
pub enum RecvEvent {
    /// One complete logical message arrived.
    Received(Msg),
    /// The peer signalled a clean close: expected termination, not an error.
    PeerClosed,
    /// Receiving failed with a protocol or transport error.
    Failed,
}

/// One observable step of a worker's life, at the specification level.
pub enum Event {
    /// The transport-security negotiation finished, successfully or not.
    NegotiationDone(bool),
    /// The protocol upgrade handshake finished, successfully or not.
    HandshakeDone(bool),
    /// One complete logical message arrived.
    Received(MsgView),
    /// The peer signalled a clean close.
    PeerClosed,
    /// Receiving failed with a protocol or transport error.
    RecvFailed,
    /// Sending the pending echo finished, successfully or not.
    SendDone(bool),
}

impl View for RecvEvent {
    type V = Event;

    open spec fn view(&self) -> Event {
        match self {
            RecvEvent::Received(m) => Event::Received(m@),
            RecvEvent::PeerClosed => Event::PeerClosed,
            RecvEvent::Failed => Event::RecvFailed,
        }
    }
}

/// The mathematical state of one worker: its phase, how it ended (once
/// Closed), the echo it still owes the peer, and the full history of
/// messages received and echoed on its connection.
#[verifier::ext_equal]
pub struct WorkerView {
    pub phase: Phase,
    pub exit: Option<WorkerExit>,
    /// The data message handed out for sending whose outcome has not been
    /// reported back yet.
    pub pending: Option<MsgView>,
    /// Every message received on this connection, oldest first.
    pub received: Seq<MsgView>,
    /// Every message echoed back on this connection, oldest first.
    pub echoed: Seq<MsgView>,
}

/// The messages a connection's peer is owed back: the data messages among
/// those it sent, in the order it sent them, byte for byte.
pub open spec fn echoes_of(ms: Seq<MsgView>) -> Seq<MsgView>
    decreases ms.len(),
{
    if ms.len() == 0 {
        Seq::empty()
    } else if ms.last().is_data() {
        echoes_of(ms.drop_last()).push(ms.last())
    } else {
        echoes_of(ms.drop_last())
    }
}

impl WorkerView {
    /// The state after closing with the given exit, everything else kept.
    pub open spec fn closed_with(self, exit: WorkerExit) -> WorkerView {
        WorkerView { phase: Phase::Closed, exit: Some(exit), ..self }
    }

    /// Well-formedness: the echoed history is exactly what the received
    /// history owes (up to the one echo still in flight), nothing is
    /// received before the session is open, and the exit is recorded
    /// exactly in the terminal phase.
    pub open spec fn wf(self) -> bool {
        &&& (self.pending matches Some(m) ==> m.is_data() && self.echoed.push(m) == echoes_of(
            self.received,
        ))
        &&& (self.pending is None ==> self.echoed == echoes_of(self.received))
        &&& ((self.phase is Negotiating || self.phase is Handshaking) ==> self.received.len() == 0
            && self.echoed.len() == 0 && self.pending is None)
        &&& ((self.phase is Negotiating || self.phase is Handshaking || self.phase is Open)
            ==> self.exit is None)
        &&& (self.phase is Closed <==> self.exit is Some)
    }
}

/// A fresh worker's state; `secured` says whether a transport-security
/// negotiation precedes the protocol handshake on this connection.
pub open spec fn initial_worker(secured: bool) -> WorkerView {
    WorkerView {
        phase: if secured {
            Phase::Negotiating
        } else {
            Phase::Handshaking
        },
        exit: None,
        pending: None,
        received: Seq::empty(),
        echoed: Seq::empty(),
    }
}

/// The transition function of the worker state machine: what one observed
/// outcome does to the worker's state. An outcome that cannot happen in the
/// current phase leaves the state unchanged; in particular Closed is
/// terminal.
pub open spec fn step(w: WorkerView, e: Event) -> WorkerView {
    match e {
        Event::NegotiationDone(ok) => if w.phase is Negotiating {
            if ok {
                WorkerView { phase: Phase::Handshaking, ..w }
            } else {
                w.closed_with(WorkerExit::Failed(WorkerError::Negotiation))
            }
        } else {
            w
        },
        Event::HandshakeDone(ok) => if w.phase is Handshaking {
            if ok {
                WorkerView { phase: Phase::Open, ..w }
            } else {
                w.closed_with(WorkerExit::Failed(WorkerError::WebSocketAccept))
            }
        } else {
            w
        },
        Event::Received(m) => if w.phase is Open && w.pending is None {
            if m.is_data() {
                WorkerView { pending: Some(m), received: w.received.push(m), ..w }
            } else {
                WorkerView { received: w.received.push(m), ..w }
            }
        } else {
            w
        },
        Event::PeerClosed => if w.phase is Open && w.pending is None {
            w.closed_with(WorkerExit::CleanClose)
        } else {
            w
        },
        Event::RecvFailed => if w.phase is Open && w.pending is None {
            w.closed_with(WorkerExit::Failed(WorkerError::ReadMessage))
        } else {
            w
        },
        Event::SendDone(ok) => match w.pending {
            Some(m) => if w.phase is Open {
                if ok {
                    WorkerView { pending: None, echoed: w.echoed.push(m), ..w }
                } else {
                    w.closed_with(WorkerExit::Failed(WorkerError::WriteMessage))
                }
            } else {
                w
            },
            None => w,
        },
    }
}

/// The state after a whole sequence of outcomes, first outcome first.
pub open spec fn run_steps(w: WorkerView, es: Seq<Event>) -> WorkerView
    decreases es.len(),
{
    if es.len() == 0 {
        w
    } else {
        run_steps(step(w, es[0]), es.drop_first())
    }
}

/// Appending one message to a history extends what it owes by that message
/// exactly when the message is a data message.
proof fn lemma_echoes_of_push(ms: Seq<MsgView>, m: MsgView)
    ensures
        echoes_of(ms.push(m)) == if m.is_data() {
            echoes_of(ms).push(m)
        } else {
            echoes_of(ms)
        },
{
    assert(ms.push(m).drop_last() =~= ms);
    assert(ms.push(m).last() == m);
}

/// Every message a history owes is a data message.
proof fn lemma_echoes_of_all_data(ms: Seq<MsgView>)
    ensures
        forall|i: int| 0 <= i < echoes_of(ms).len() ==> echoes_of(ms)[i].is_data(),
    decreases ms.len(),
{
    if ms.len() > 0 {
        lemma_echoes_of_all_data(ms.drop_last());
        let sub = echoes_of(ms.drop_last());
        if ms.last().is_data() {
            assert forall|i: int| 0 <= i < echoes_of(ms).len() implies echoes_of(
                ms,
            )[i].is_data() by {
                if i < sub.len() {
                    assert(echoes_of(ms)[i] == sub[i]);
                } else {
                    assert(echoes_of(ms)[i] == ms.last());
                }
            }
        }
    }
}

/// A history made of data messages alone is owed back whole.
proof fn lemma_echoes_of_identity_on_data(ms: Seq<MsgView>)
    requires
        forall|i: int| 0 <= i < ms.len() ==> ms[i].is_data(),
    ensures
        echoes_of(ms) =~= ms,
    decreases ms.len(),
{
    if ms.len() > 0 {
        assert(forall|i: int| 0 <= i < ms.drop_last().len() ==> ms.drop_last()[i] == ms[i]);
        lemma_echoes_of_identity_on_data(ms.drop_last());
    }
}

/// Well-formedness is preserved by every transition.
pub proof fn lemma_step_preserves_wf(w: WorkerView, e: Event)
    requires
        w.wf(),
    ensures
        step(w, e).wf(),
{
    match e {
        Event::Received(m) => {
            if w.phase is Open && w.pending is None {
                lemma_echoes_of_push(w.received, m);
            }
        },
        _ => {},
    }
}

/// Well-formedness is preserved by every whole execution.
pub proof fn lemma_run_preserves_wf(w: WorkerView, es: Seq<Event>)
    requires
        w.wf(),
    ensures
        run_steps(w, es).wf(),
    decreases es.len(),
{
    if es.len() > 0 {
        lemma_step_preserves_wf(w, es[0]);
        lemma_run_preserves_wf(step(w, es[0]), es.drop_first());
    }
}

/// The echo guarantee: with no echo in flight, the messages echoed on a
/// connection are exactly the data messages received on it, in the order
/// received, byte for byte; in particular a peer that sent only data
/// messages gets its whole sequence back unchanged.
pub proof fn lemma_echo_order_and_content(w: WorkerView)
    requires
        w.wf(),
        w.pending is None,
    ensures
        w.echoed == echoes_of(w.received),
        (forall|i: int| 0 <= i < w.received.len() ==> w.received[i].is_data()) ==> w.echoed
            =~= w.received,
{
    if forall|i: int| 0 <= i < w.received.len() ==> w.received[i].is_data() {
        lemma_echoes_of_identity_on_data(w.received);
    }
}

/// Control messages are never echoed: everything in the echoed history is a
/// data message, so no Ping, Pong or Close ever comes back as an echo.
pub proof fn lemma_control_never_echoed(w: WorkerView)
    requires
        w.wf(),
    ensures
        forall|i: int| 0 <= i < w.echoed.len() ==> w.echoed[i].is_data(),
{
    lemma_echoes_of_all_data(w.received);
    if w.pending matches Some(m) {
        assert(forall|i: int|
            0 <= i < w.echoed.len() ==> w.echoed[i] == echoes_of(w.received)[i]);
    }
}

/// A worker's echoes are determined by its own connection's traffic alone:
/// two workers that received the same messages have echoed the same
/// messages, so no worker's output can depend on another connection.
pub proof fn lemma_echo_depends_only_on_own_traffic(w1: WorkerView, w2: WorkerView)
    requires
        w1.wf(),
        w2.wf(),
        w1.received == w2.received,
        w1.pending == w2.pending,
    ensures
        w1.echoed == w2.echoed,
{
    match w1.pending {
        Some(m) => {
            assert(w1.echoed.push(m).drop_last() =~= w1.echoed);
            assert(w2.echoed.push(m).drop_last() =~= w2.echoed);
            assert(w1.echoed =~= w2.echoed);
        },
        None => {},
    }
}

/// Once Closed, a worker never moves again: no outcome changes its state,
/// so each worker handles exactly one connection for its entire existence.
pub proof fn lemma_closed_is_terminal(w: WorkerView, e: Event)
    requires
        w.phase is Closed,
    ensures
        step(w, e) == w,
{
}

/// A clean close is silent: the worker ends in the terminal phase with the
/// expected-termination exit, not with an error, and still owes the full
/// echo history for what it received.
pub proof fn lemma_clean_close_is_silent(w: WorkerView)
    requires
        w.wf(),
        w.phase is Open,
        w.pending is None,
    ensures
        step(w, Event::PeerClosed).phase is Closed,
        step(w, Event::PeerClosed).exit == Some(WorkerExit::CleanClose),
        step(w, Event::PeerClosed).exit matches Some(x) && !x.spec_is_error(),
        step(w, Event::PeerClosed).echoed == echoes_of(w.received),
{
}

/// A malformed protocol handshake refuses the connection outright: the
/// worker closes with the handshake failure, no session ever opened, no
/// message was ever received or echoed, and no further outcome moves it.
pub proof fn lemma_failed_handshake_refused(w: WorkerView)
    requires
        w.wf(),
        w.phase is Handshaking,
    ensures
        step(w, Event::HandshakeDone(false)).phase is Closed,
        step(w, Event::HandshakeDone(false)).exit == Some(
            WorkerExit::Failed(WorkerError::WebSocketAccept),
        ),
        step(w, Event::HandshakeDone(false)).received.len() == 0,
        step(w, Event::HandshakeDone(false)).echoed.len() == 0,
        forall|e: Event|
            step(step(w, Event::HandshakeDone(false)), e) == step(w, Event::HandshakeDone(false)),
{
    assert forall|e: Event|
        step(step(w, Event::HandshakeDone(false)), e) == step(
            w,
            Event::HandshakeDone(false),
        ) by {
        lemma_closed_is_terminal(step(w, Event::HandshakeDone(false)), e);
    }
}

/// A peer that passes the security negotiation but then sends a malformed
/// protocol handshake fails at the protocol layer, not the security layer:
/// the exit names the handshake, never the negotiation.
pub proof fn lemma_protocol_failure_is_not_security_failure(w: WorkerView)
    requires
        w.wf(),
        w.phase is Negotiating,
    ensures
        ({
            let after = step(step(w, Event::NegotiationDone(true)), Event::HandshakeDone(false));
            &&& after.phase is Closed
            &&& after.exit == Some(WorkerExit::Failed(WorkerError::WebSocketAccept))
            &&& after.exit != Some(WorkerExit::Failed(WorkerError::Negotiation))
        }),
{
}

/// A peer that fails the security negotiation never reaches the protocol
/// handshake: the worker closes with the negotiation failure, nothing was
/// ever received, and no later outcome (the handshake's included) moves it.
pub proof fn lemma_failed_negotiation_never_handshakes(w: WorkerView)
    requires
        w.wf(),
        w.phase is Negotiating,
    ensures
        step(w, Event::NegotiationDone(false)).phase is Closed,
        step(w, Event::NegotiationDone(false)).exit == Some(
            WorkerExit::Failed(WorkerError::Negotiation),
        ),
        step(w, Event::NegotiationDone(false)).received.len() == 0,
        forall|e: Event|
            step(step(w, Event::NegotiationDone(false)), e) == step(
                w,
                Event::NegotiationDone(false),
            ),
{
    assert forall|e: Event|
        step(step(w, Event::NegotiationDone(false)), e) == step(
            w,
            Event::NegotiationDone(false),
        ) by {
        lemma_closed_is_terminal(step(w, Event::NegotiationDone(false)), e);
    }
}

/// One connection's worker. The process feeds it the outcome of each piece
/// of outside work; the worker decides everything and records the histories
/// its guarantees are stated over.
pub struct Worker {
    phase: Phase,
    exit: Option<WorkerExit>,
    received: Ghost<Seq<MsgView>>,
    echoed: Ghost<Seq<MsgView>>,
    pending: Ghost<Option<MsgView>>,
}

impl View for Worker {
    type V = WorkerView;

    closed spec fn view(&self) -> WorkerView {
        WorkerView {
            phase: self.phase,
            exit: self.exit,
            pending: self.pending@,
            received: self.received@,
            echoed: self.echoed@,
        }
    }
}

impl Worker {
    pub open spec fn wf(&self) -> bool {
        self@.wf()
    }

    /// A fresh worker for one accepted connection; `secured` says whether a
    /// transport-security negotiation precedes the protocol handshake.
    pub fn new(secured: bool) -> (w: Worker)
        ensures
            w@ == initial_worker(secured),
            w.wf(),
    {
        Worker {
            phase: if secured {
                Phase::Negotiating
            } else {
                Phase::Handshaking
            },
            exit: None,
            received: Ghost(Seq::empty()),
            echoed: Ghost(Seq::empty()),
            pending: Ghost(None),
        }
    }

    /// The worker's current lifecycle phase.
    pub fn phase(&self) -> (p: Phase)
        ensures
            p == self@.phase,
    {
        self.phase
    }

    /// How the worker ended: the exit once it is Closed, nothing before.
    pub fn exit(&self) -> (e: Option<WorkerExit>)
        ensures
            e == self@.exit,
    {
        self.exit
    }

    /// Records the outcome of the transport-security negotiation on this
    /// worker's stream. On failure the worker closes with the negotiation
    /// error and the protocol handshake is never attempted.
    pub fn on_negotiation(&mut self, ok: bool)
        requires
            old(self)@.phase is Negotiating,
            old(self).wf(),
        ensures
            final(self)@ == step(old(self)@, Event::NegotiationDone(ok)),
            final(self).wf(),
    {
        if ok {
            self.phase = Phase::Handshaking;
        } else {
            self.phase = Phase::Closed;
            self.exit = Some(WorkerExit::Failed(WorkerError::Negotiation));
        }
        proof {
            lemma_step_preserves_wf(old(self)@, Event::NegotiationDone(ok));
        }
    }

    /// Records the outcome of the protocol upgrade handshake. On success the
    /// session is open; on failure the worker closes with the handshake
    /// error and no session ever exists.
    pub fn on_handshake(&mut self, ok: bool)
        requires
            old(self)@.phase is Handshaking,
            old(self).wf(),
        ensures
            final(self)@ == step(old(self)@, Event::HandshakeDone(ok)),
            final(self).wf(),
    {
        if ok {
            self.phase = Phase::Open;
        } else {
            self.phase = Phase::Closed;
            self.exit = Some(WorkerExit::Failed(WorkerError::WebSocketAccept));
        }
        proof {
            lemma_step_preserves_wf(old(self)@, Event::HandshakeDone(ok));
        }
    }

    /// Feeds the worker the outcome of one receive call. Returns the message
    /// to send back, exactly when the received message is a data message; a
    /// control message is discarded with no reply. The caller must report the
    /// result of the requested send through `on_send_result` before feeding
    /// the next outcome. A clean close ends the worker silently; a receive
    /// failure ends it with the read error.
    pub fn on_receive(&mut self, ev: RecvEvent) -> (reply: Option<Msg>)
        requires
            old(self)@.phase is Open,
            old(self)@.pending is None,
            old(self).wf(),
        ensures
            final(self)@ == step(old(self)@, ev@),
            final(self).wf(),
            reply matches Some(m) ==> (ev matches RecvEvent::Received(orig) && m@ == orig@
                && m@.is_data()),
            (ev matches RecvEvent::Received(orig) && orig@.is_data()) <==> reply is Some,
            reply is Some <==> final(self)@.pending is Some,
    {
        proof {
            lemma_step_preserves_wf(old(self)@, ev@);
        }
        match ev {
            RecvEvent::Received(m) => {
                self.received = Ghost(self.received@.push(m@));
                if m.should_echo() {
                    self.pending = Ghost(Some(m@));
                    Some(m)
                } else {
                    None
                }
            },
            RecvEvent::PeerClosed => {
                self.phase = Phase::Closed;
                self.exit = Some(WorkerExit::CleanClose);
                None
            },
            RecvEvent::Failed => {
                self.phase = Phase::Closed;
                self.exit = Some(WorkerExit::Failed(WorkerError::ReadMessage));
                None
            },
        }
    }

    /// Records whether sending the requested echo succeeded. On success the
    /// echo history grows by the message just delivered and the worker stays
    /// open; on failure it closes with the write error.
    pub fn on_send_result(&mut self, ok: bool)
        requires
            old(self)@.phase is Open,
            old(self)@.pending is Some,
            old(self).wf(),
        ensures
            final(self)@ == step(old(self)@, Event::SendDone(ok)),
            final(self).wf(),
    {
        if ok {
            self.echoed = Ghost(self.echoed@.push(self.pending@->0));
            self.pending = Ghost(None);
        } else {
            self.phase = Phase::Closed;
            self.exit = Some(WorkerExit::Failed(WorkerError::WriteMessage));
        }
        proof {
            lemma_step_preserves_wf(old(self)@, Event::SendDone(ok));
        }
    }
}

} // verus!
