//! The two ends of a session, without the socket.
//!
//! The caller owns the connection. It hands every outcome of a read to the
//! end it holds, and writes the frames that the end gives it, each with a
//! single call. The end collects what arrives, finds the frames in it, and
//! tells what they carry.

use vstd::prelude::*;
use crate::codec::{
    lemma_move_round_trip, lemma_optional_round_trip, lemma_start_round_trip, move_bytes,
    start_bytes, start_fits, START_HEAD,
};
use crate::error::SessionError;
use crate::framing::{
    after_first, has_frame, lemma_frame_round_trip, lemma_partial_frame, KIND_MOVE, KIND_START,
    MAX_PAYLOAD,
};
use crate::link::{
    frame_view, move_frame, opening_frame, opening_view, reply_frame, Link, LinkView, Phase,
    ReadOutcome, ReadView, Setup, SetupView,
};
use crate::records::{AckRecord, MoveRecord, Start, StartView};

verus! {

/// What both ends of a session do.
pub trait ChessProtocol: Sized {
    /// What the end holds.
    spec fn link(&self) -> LinkView;

    /// Whether this is the hosting end.
    spec fn hosts(&self) -> bool;

    /// Notes the switch of the connection to non-blocking reads, which the
    /// caller makes once, right after the handshake. Any other switch is a
    /// `ProtocolError`.
    fn set_blocking(&mut self, block: bool) -> (done: Result<(), SessionError>)
        ensures
            final(self).hosts() == old(self).hosts(),
            final(self).link() == old(self).link().switched(block).0,
            done == old(self).link().switched(block).1,
    ;

    /// The frame that this end sends before it reads the handshake of the
    /// peer: what it asks for, on the joining end, and nothing on the hosting
    /// end.
    fn opening(&self, desired_start: &Start) -> (frame: Result<Option<Vec<u8>>, SessionError>)
        ensures
            opening_view(frame) == self.link().opening(self.hosts(), desired_start@),
    ;

    /// Takes the one read of the handshake, and settles the session.
    fn handle_setup(&mut self, desired_start: Start, read: ReadOutcome) -> (setup: Result<
        Setup,
        SessionError,
    >)
        ensures
            final(self).hosts() == old(self).hosts(),
            final(self).link() == old(self).link().setup(old(self).hosts(), desired_start@, read@).0,
            match setup {
                Ok(s) => old(self).link().setup(old(self).hosts(), desired_start@, read@).1 == Ok::<
                    SetupView,
                    SessionError,
                >(s@),
                Err(e) => old(self).link().setup(old(self).hosts(), desired_start@, read@).1
                    == Err::<SetupView, SessionError>(e),
            },
    ;

    /// The frame of a move, for the caller to write with a single call.
    fn send_move(&self, m: MoveRecord) -> (frame: Result<Vec<u8>, SessionError>)
        ensures
            frame_view(frame) == self.link().sent_move(m),
    ;

    /// Takes what a poll of the connection gave, and returns the move that
    /// has arrived whole, if one has.
    fn receive_move(&mut self, read: ReadOutcome) -> (received: Result<
        Option<MoveRecord>,
        SessionError,
    >)
        ensures
            final(self).hosts() == old(self).hosts(),
            final(self).link() == old(self).link().take_move(read@).0,
            received == old(self).link().take_move(read@).1,
            received matches Ok(Some(record)) ==> record.wf(),
    ;

    /// Takes what a poll of the connection gave, and returns the
    /// acknowledgment that has arrived whole, if one has.
    fn receive_ack(&mut self, read: ReadOutcome) -> (received: Result<
        Option<AckRecord>,
        SessionError,
    >)
        ensures
            final(self).hosts() == old(self).hosts(),
            final(self).link() == old(self).link().take_ack(read@).0,
            received == old(self).link().take_ack(read@).1,
    ;

    /// The frame of an acknowledgment, for the caller to write with a single
    /// call.
    fn send_ack(&self, ack: AckRecord) -> (frame: Result<Vec<u8>, SessionError>)
        ensures
            frame_view(frame) == self.link().sent_ack(ack),
    ;
}

/// The hosting end: it waits for the peer, and its wishes settle the session.
pub struct Server {
    link: Link,
}

/// The joining end: it asks, and takes what the host settles.
pub struct Client {
    link: Link,
}

impl Server {
    /// The hosting end of a session, once a peer has been accepted; a
    /// `ConnectionError` when none could be.
    pub fn new(accepted: bool) -> (server: Result<Server, SessionError>)
        ensures
            server is Ok <==> accepted,
            server matches Ok(s) ==> s.link() == LinkView::fresh() && s.hosts(),
            server matches Err(e) ==> e == SessionError::ConnectionError,
    {
        if accepted {
            Ok(Server { link: Link::new() })
        } else {
            Err(SessionError::ConnectionError)
        }
    }
}

impl Client {
    /// The joining end of a session, once the host has been reached; a
    /// `ConnectionError` when it could not be.
    pub fn new(connected: bool) -> (client: Result<Client, SessionError>)
        ensures
            client is Ok <==> connected,
            client matches Ok(c) ==> c.link() == LinkView::fresh() && !c.hosts(),
            client matches Err(e) ==> e == SessionError::ConnectionError,
    {
        if connected {
            Ok(Client { link: Link::new() })
        } else {
            Err(SessionError::ConnectionError)
        }
    }
}

impl ChessProtocol for Server {
    closed spec fn link(&self) -> LinkView {
        self.link@
    }

    open spec fn hosts(&self) -> bool {
        true
    }

    fn set_blocking(&mut self, block: bool) -> (done: Result<(), SessionError>) {
        self.link.switch(block)
    }

    fn opening(&self, desired_start: &Start) -> (frame: Result<Option<Vec<u8>>, SessionError>) {
        self.link.opening(true, desired_start)
    }

    fn handle_setup(&mut self, desired_start: Start, read: ReadOutcome) -> (setup: Result<
        Setup,
        SessionError,
    >) {
        self.link.setup(true, desired_start, read)
    }

    fn send_move(&self, m: MoveRecord) -> (frame: Result<Vec<u8>, SessionError>) {
        self.link.frame_move(&m)
    }

    fn receive_move(&mut self, read: ReadOutcome) -> (received: Result<
        Option<MoveRecord>,
        SessionError,
    >) {
        self.link.take_move(read)
    }

    fn receive_ack(&mut self, read: ReadOutcome) -> (received: Result<
        Option<AckRecord>,
        SessionError,
    >) {
        self.link.take_ack(read)
    }

    fn send_ack(&self, ack: AckRecord) -> (frame: Result<Vec<u8>, SessionError>) {
        self.link.frame_ack(&ack)
    }
}

impl ChessProtocol for Client {
    closed spec fn link(&self) -> LinkView {
        self.link@
    }

    open spec fn hosts(&self) -> bool {
        false
    }

    fn set_blocking(&mut self, block: bool) -> (done: Result<(), SessionError>) {
        self.link.switch(block)
    }

    fn opening(&self, desired_start: &Start) -> (frame: Result<Option<Vec<u8>>, SessionError>) {
        self.link.opening(false, desired_start)
    }

    fn handle_setup(&mut self, desired_start: Start, read: ReadOutcome) -> (setup: Result<
        Setup,
        SessionError,
    >) {
        self.link.setup(false, desired_start, read)
    }

    fn send_move(&self, m: MoveRecord) -> (frame: Result<Vec<u8>, SessionError>) {
        self.link.frame_move(&m)
    }

    fn receive_move(&mut self, read: ReadOutcome) -> (received: Result<
        Option<MoveRecord>,
        SessionError,
    >) {
        self.link.take_move(read)
    }

    fn receive_ack(&mut self, read: ReadOutcome) -> (received: Result<
        Option<AckRecord>,
        SessionError,
    >) {
        self.link.take_ack(read)
    }

    fn send_ack(&self, ack: AckRecord) -> (frame: Result<Vec<u8>, SessionError>) {
        self.link.frame_ack(&ack)
    }
}

/// The two ends of a handshake agree. Whatever the joining end asks for, the
/// hosting end reads it and keeps what it wanted itself. The joining end
/// reads the answer of the host as the same handshake with the other colour:
/// the colours of the two ends differ, and everything else is the same.
pub proof fn lemma_handshake_agrees(host: StartView, joiner: StartView)
    requires
        start_fits(host),
        start_fits(joiner),
    ensures
        LinkView::fresh().opening(false, joiner) == Ok::<Option<Seq<u8>>, SessionError>(
            Some(opening_frame(joiner)),
        ),
        LinkView::fresh().setup(true, host, ReadView::Data(opening_frame(joiner))) == ((
            LinkView { phase: Phase::Settled, inbox: Seq::empty() },
            Ok::<SetupView, SessionError>(
                SetupView { start: host, reply: Some(reply_frame(host)) },
            ),
        )),
        LinkView::fresh().setup(false, joiner, ReadView::Data(reply_frame(host))) == ((
            LinkView { phase: Phase::Settled, inbox: Seq::empty() },
            Ok::<SetupView, SessionError>(SetupView { start: host.for_peer(), reply: None }),
        )),
        host.for_peer().complements(host),
{
    lemma_start_arrives(joiner);
    lemma_start_arrives(host.for_peer());
}

/// A handshake frame that arrives whole at a fresh end is read as the
/// handshake it was written for.
pub proof fn lemma_start_arrives(start: StartView)
    requires
        start_fits(start),
    ensures
        LinkView::fresh().take_start(ReadView::Data(opening_frame(start))) == ((
            LinkView { phase: Phase::Settled, inbox: Seq::empty() },
            Ok::<StartView, SessionError>(start),
        )),
{
    let link = LinkView::fresh();
    let payload = start_bytes(start);
    let frame = opening_frame(start);
    lemma_start_round_trip(start);
    lemma_start_len(start);
    lemma_frame_round_trip(KIND_START, payload, Seq::empty());
    assert(frame + Seq::<u8>::empty() =~= frame);
    assert(link.inbox + frame =~= frame);
    assert(after_first(frame) =~= link.inbox);
}

/// The payload of a handshake that fits is no longer than a frame allows.
pub proof fn lemma_start_len(start: StartView)
    requires
        start_fits(start),
    ensures
        START_HEAD <= start_bytes(start).len() <= MAX_PAYLOAD,
{
    lemma_optional_round_trip(start.time);
    lemma_optional_round_trip(start.inc);
}

/// A move that is sent arrives: the frame that one end gives for a
/// well-formed move, read whole by an end that holds nothing, gives the
/// move back and leaves nothing behind.
pub proof fn lemma_move_arrives(sender: LinkView, receiver: LinkView, record: MoveRecord)
    requires
        record.wf(),
        sender.phase == Phase::Gameplay,
        receiver.phase == Phase::Gameplay,
        receiver.inbox.len() == 0,
    ensures
        sender.sent_move(record) is Ok,
        receiver.take_move(ReadView::Data(sender.sent_move(record)->Ok_0)) == ((
            receiver,
            Ok::<Option<MoveRecord>, SessionError>(Some(record)),
        )),
{
    let frame = move_frame(record);
    lemma_move_round_trip(record);
    lemma_frame_round_trip(KIND_MOVE, move_bytes(record), Seq::empty());
    assert(frame + Seq::<u8>::empty() =~= frame);
    assert(receiver.inbox + frame =~= frame);
    assert(after_first(frame) =~= receiver.inbox);
}

/// A move that arrives in two pieces is given once, with the second piece:
/// the first poll gives nothing, and the second gives the move.
pub proof fn lemma_move_arrives_in_pieces(receiver: LinkView, record: MoveRecord, cut: int)
    requires
        record.wf(),
        receiver.phase == Phase::Gameplay,
        receiver.inbox.len() == 0,
        0 < cut < move_frame(record).len(),
    ensures
        ({
            let frame = move_frame(record);
            let first = receiver.take_move(ReadView::Data(frame.subrange(0, cut)));
            let second = first.0.take_move(ReadView::Data(frame.subrange(cut, frame.len() as int)));
            &&& first.1 == Ok::<Option<MoveRecord>, SessionError>(None)
            &&& second.1 == Ok::<Option<MoveRecord>, SessionError>(Some(record))
            &&& second.0 == receiver
        }),
{
    let frame = move_frame(record);
    let head = frame.subrange(0, cut);
    let tail = frame.subrange(cut, frame.len() as int);
    let sender = LinkView { phase: Phase::Gameplay, inbox: Seq::empty() };
    lemma_partial_frame(KIND_MOVE, move_bytes(record), cut);
    assert(receiver.inbox + head =~= head);
    assert(head + tail =~= frame);
    lemma_move_arrives(sender, receiver, record);
    assert(receiver.inbox + frame =~= frame);
}

/// A poll that finds nothing to read gives no move and is no error, and
/// leaves the end as it was, as long as no whole frame has arrived before.
pub proof fn lemma_nothing_pending(link: LinkView)
    requires
        link.phase == Phase::Gameplay,
        !has_frame(link.inbox),
    ensures
        link.take_move(ReadView::WouldBlock) == ((
            link,
            Ok::<Option<MoveRecord>, SessionError>(None),
        )),
{
}

/// The connection is switched to non-blocking reads exactly once: the
/// switch is in order right after the handshake, and never again.
pub proof fn lemma_switch_once(link: LinkView, block: bool)
    ensures
        link.switched(block).1 is Ok <==> link.phase == Phase::Settled && !block,
        link.blocking() && link.switched(block).1 is Err ==> link.switched(block).0.blocking(),
        link.switched(block).1 is Ok ==> !link.switched(block).0.blocking() && link.switched(
            block,
        ).0.switched(block).1 is Err,
        link.switched(block).1 is Err ==> link.switched(block).0 == link,
{
}

} // verus!
