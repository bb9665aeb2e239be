//! What an end of a session holds, and what every step does to it.
//!
//! A session goes through three phases. It starts with the handshake, on a
//! blocking connection: the joining end sends what it asks for, and the
//! hosting end answers with what it has settled. Once that is done the
//! connection is switched to non-blocking reads, once. From then on moves
//! and acknowledgments are sent and polled for. What is asked of an end out
//! of its turn is a `ProtocolError`, and leaves the end as it was.

use vstd::prelude::*;
use crate::codec::{
    ack_bytes, ack_of_bytes, decode_ack, decode_move, decode_start, encode_ack, encode_move,
    encode_start, move_bytes, move_of_bytes, start_bytes, start_fits, start_of_bytes,
};
use crate::error::SessionError;
use crate::framing::{
    after_first, append_bytes, encode_frame, first_kind, first_payload, frame_of, has_frame,
    split_frame, KIND_ACK, KIND_MOVE, KIND_START,
};
use crate::records::{AckRecord, MoveRecord, Start, StartView};

verus! {

/// What one read on the connection gave.
#[derive(Debug, PartialEq, Eq)]
pub enum ReadOutcome {
    /// The bytes that were read; none when the peer has closed the connection.
    Data(Vec<u8>),
    /// Nothing is there to read yet.
    WouldBlock,
    /// The read failed.
    Failed,
}

/// What a `ReadOutcome` holds.
pub enum ReadView {
    Data(Seq<u8>),
    WouldBlock,
    Failed,
}

impl View for ReadOutcome {
    type V = ReadView;

    open spec fn view(&self) -> ReadView {
        match *self {
            ReadOutcome::Data(data) => ReadView::Data(data@),
            ReadOutcome::WouldBlock => ReadView::WouldBlock,
            ReadOutcome::Failed => ReadView::Failed,
        }
    }
}

/// What one write on the connection gave.
#[derive(Clone, Copy, Debug, PartialEq, Eq, Structural)]
pub enum WriteOutcome {
    /// The number of bytes that were written.
    Wrote(usize),
    /// The write failed.
    Failed,
}

/// Judges the write of a frame: everything must have gone out with that one
/// call, and anything less is an `IoError`.
pub fn check_write(frame_len: usize, written: WriteOutcome) -> (done: Result<(), SessionError>)
    ensures
        done == if written == WriteOutcome::Wrote(frame_len) {
            Ok::<(), SessionError>(())
        } else {
            Err(SessionError::IoError)
        },
{
    match written {
        WriteOutcome::Wrote(n) => if n == frame_len {
            Ok(())
        } else {
            Err(SessionError::IoError)
        },
        WriteOutcome::Failed => Err(SessionError::IoError),
    }
}

/// How far a session has come.
#[derive(Clone, Copy, Debug, PartialEq, Eq, Structural)]
pub enum Phase {
    /// The handshake is still to come; reads block.
    Handshake,
    /// The handshake is done; the connection is still to be switched to
    /// non-blocking reads.
    Settled,
    /// Moves and acknowledgments travel; reads do not block.
    Gameplay,
}

/// What an end of the session holds.
pub struct LinkView {
    /// How far the session has come.
    pub phase: Phase,
    /// The bytes that have arrived and belong to no frame taken so far.
    pub inbox: Seq<u8>,
}

/// What the handshake gives an end.
#[derive(Debug, PartialEq, Eq)]
pub struct Setup {
    /// What is settled, as this end sees it.
    pub start: Start,
    /// The frame to send to the peer now, if this end owes one.
    pub reply: Option<Vec<u8>>,
}

/// What a `Setup` holds.
pub struct SetupView {
    pub start: StartView,
    pub reply: Option<Seq<u8>>,
}

impl View for Setup {
    type V = SetupView;

    open spec fn view(&self) -> SetupView {
        SetupView {
            start: self.start@,
            reply: match self.reply {
                Some(frame) => Some(frame@),
                None => None,
            },
        }
    }
}

/// The frame with which a joining end opens the handshake.
pub open spec fn opening_frame(desired: StartView) -> Seq<u8> {
    frame_of(KIND_START, start_bytes(desired))
}

/// The frame with which a hosting end answers: what it wanted itself, seen
/// from the other side.
pub open spec fn reply_frame(desired: StartView) -> Seq<u8> {
    frame_of(KIND_START, start_bytes(desired.for_peer()))
}

/// The frame of a move.
pub open spec fn move_frame(record: MoveRecord) -> Seq<u8> {
    frame_of(KIND_MOVE, move_bytes(record))
}

/// The frame of an acknowledgment.
pub open spec fn ack_frame(ack: AckRecord) -> Seq<u8> {
    frame_of(KIND_ACK, ack_bytes(ack))
}

impl LinkView {
    /// An end at the start of a session.
    pub open spec fn fresh() -> LinkView {
        LinkView { phase: Phase::Handshake, inbox: Seq::empty() }
    }

    /// Whether reads on the connection block.
    pub open spec fn blocking(self) -> bool {
        self.phase != Phase::Gameplay
    }

    /// The end after the switch between blocking and non-blocking reads.
    /// Only one switch is in order: to non-blocking reads, once the
    /// handshake is done.
    pub open spec fn switched(self, block: bool) -> (LinkView, Result<(), SessionError>) {
        if self.phase == Phase::Settled && !block {
            (LinkView { phase: Phase::Gameplay, ..self }, Ok(()))
        } else {
            (self, Err(SessionError::ProtocolError))
        }
    }

    /// What is there to look at after a poll: what had arrived before, and
    /// what the read added. A failed read and a closed connection are
    /// failures; that nothing is there to read is none.
    pub open spec fn polled(self, read: ReadView) -> Result<Seq<u8>, SessionError> {
        match read {
            ReadView::Failed => Err(SessionError::IoError),
            ReadView::Data(data) => if data.len() == 0 {
                Err(SessionError::IoError)
            } else {
                Ok(self.inbox + data)
            },
            ReadView::WouldBlock => Ok(self.inbox),
        }
    }

    /// The end after a poll for a frame of one kind, and the payload that the
    /// poll gave: none while no whole frame is there. A whole frame of
    /// another kind is a `ProtocolError` and stays where it is.
    pub open spec fn take(self, kind: u8, read: ReadView) -> (
        LinkView,
        Result<Option<Seq<u8>>, SessionError>,
    ) {
        if self.phase != Phase::Gameplay {
            (self, Err(SessionError::ProtocolError))
        } else {
            match self.polled(read) {
                Err(e) => (self, Err(e)),
                Ok(buf) => if !has_frame(buf) {
                    (LinkView { inbox: buf, ..self }, Ok(None))
                } else if first_kind(buf) != kind {
                    (LinkView { inbox: buf, ..self }, Err(SessionError::ProtocolError))
                } else {
                    (LinkView { inbox: after_first(buf), ..self }, Ok(Some(first_payload(buf))))
                },
            }
        }
    }

    /// The end after a poll for a move, and what the poll gave. A frame whose
    /// payload is no move is a `ProtocolError`.
    pub open spec fn take_move(self, read: ReadView) -> (
        LinkView,
        Result<Option<MoveRecord>, SessionError>,
    ) {
        let (link, taken) = self.take(KIND_MOVE, read);
        match taken {
            Err(e) => (link, Err(e)),
            Ok(None) => (link, Ok(None)),
            Ok(Some(payload)) => match move_of_bytes(payload) {
                Some(record) => (link, Ok(Some(record))),
                None => (link, Err(SessionError::ProtocolError)),
            },
        }
    }

    /// The end after a poll for an acknowledgment, and what the poll gave.
    pub open spec fn take_ack(self, read: ReadView) -> (
        LinkView,
        Result<Option<AckRecord>, SessionError>,
    ) {
        let (link, taken) = self.take(KIND_ACK, read);
        match taken {
            Err(e) => (link, Err(e)),
            Ok(None) => (link, Ok(None)),
            Ok(Some(payload)) => match ack_of_bytes(payload) {
                Some(ack) => (link, Ok(Some(ack))),
                None => (link, Err(SessionError::ProtocolError)),
            },
        }
    }

    /// The end after the one read of the handshake, and the handshake that
    /// the read gave. The read must bring a whole handshake frame: a failed
    /// read is an `IoError`, and nothing, too little or anything else a
    /// `ProtocolError`. On an error the end stays as it was.
    pub open spec fn take_start(self, read: ReadView) -> (
        LinkView,
        Result<StartView, SessionError>,
    ) {
        if self.phase != Phase::Handshake {
            (self, Err(SessionError::ProtocolError))
        } else {
            match read {
                ReadView::Failed => (self, Err(SessionError::IoError)),
                ReadView::WouldBlock => (self, Err(SessionError::ProtocolError)),
                ReadView::Data(data) => {
                    let buf = self.inbox + data;
                    if data.len() > 0 && has_frame(buf) && first_kind(buf) == KIND_START
                        && start_of_bytes(first_payload(buf)) is Some {
                        (
                            LinkView { phase: Phase::Settled, inbox: after_first(buf) },
                            Ok(start_of_bytes(first_payload(buf))->0),
                        )
                    } else {
                        (self, Err(SessionError::ProtocolError))
                    }
                },
            }
        }
    }

    /// The end after the handshake, and what the handshake gave it.
    ///
    /// The hosting end reads what the joining end asks for, keeps what it
    /// wanted itself, and owes the peer the same with the other colour; what
    /// it wants must fit in a frame, or nothing is read. The joining end
    /// reads what the host has settled and takes it as it is.
    pub open spec fn setup(self, hosts: bool, desired: StartView, read: ReadView) -> (
        LinkView,
        Result<SetupView, SessionError>,
    ) {
        if hosts && !start_fits(desired) {
            (self, Err(SessionError::ProtocolError))
        } else {
            let (link, taken) = self.take_start(read);
            match taken {
                Err(e) => (self, Err(e)),
                Ok(received) => if hosts {
                    (link, Ok(SetupView { start: desired, reply: Some(reply_frame(desired)) }))
                } else {
                    (link, Ok(SetupView { start: received, reply: None }))
                },
            }
        }
    }

    /// The frame with which the end opens the handshake, if it owes one: the
    /// joining end sends what it asks for, which must fit in a frame, and the
    /// hosting end sends nothing.
    pub open spec fn opening(self, hosts: bool, desired: StartView) -> Result<
        Option<Seq<u8>>,
        SessionError,
    > {
        if self.phase != Phase::Handshake {
            Err(SessionError::ProtocolError)
        } else if hosts {
            Ok(None)
        } else if start_fits(desired) {
            Ok(Some(opening_frame(desired)))
        } else {
            Err(SessionError::ProtocolError)
        }
    }

    /// The frame of a move to send: there is one for a well-formed move,
    /// once moves travel.
    pub open spec fn sent_move(self, m: MoveRecord) -> Result<Seq<u8>, SessionError> {
        if self.phase == Phase::Gameplay && m.wf() {
            Ok(move_frame(m))
        } else {
            Err(SessionError::ProtocolError)
        }
    }

    /// The frame of an acknowledgment to send, once acknowledgments travel.
    pub open spec fn sent_ack(self, ack: AckRecord) -> Result<Seq<u8>, SessionError> {
        if self.phase == Phase::Gameplay {
            Ok(ack_frame(ack))
        } else {
            Err(SessionError::ProtocolError)
        }
    }
}

/// What a frame to send is, as a sequence of bytes.
pub open spec fn frame_view(frame: Result<Vec<u8>, SessionError>) -> Result<Seq<u8>, SessionError> {
    match frame {
        Ok(f) => Ok(f@),
        Err(e) => Err(e),
    }
}

/// What a frame to send, if one is owed, is as a sequence of bytes.
pub open spec fn opening_view(frame: Result<Option<Vec<u8>>, SessionError>) -> Result<
    Option<Seq<u8>>,
    SessionError,
> {
    match frame {
        Ok(Some(f)) => Ok(Some(f@)),
        Ok(None) => Ok(None),
        Err(e) => Err(e),
    }
}

/// The state that both kinds of end share.
pub(crate) struct Link {
    phase: Phase,
    inbox: Vec<u8>,
}

impl View for Link {
    type V = LinkView;

    closed spec fn view(&self) -> LinkView {
        LinkView { phase: self.phase, inbox: self.inbox@ }
    }
}

impl Link {
    pub(crate) fn new() -> (link: Link)
        ensures
            link@ == LinkView::fresh(),
    {
        Link { phase: Phase::Handshake, inbox: Vec::new() }
    }

    pub(crate) fn in_phase(&self, phase: Phase) -> (same: bool)
        ensures
            same == (self@.phase == phase),
    {
        match (self.phase, phase) {
            (Phase::Handshake, Phase::Handshake) => true,
            (Phase::Settled, Phase::Settled) => true,
            (Phase::Gameplay, Phase::Gameplay) => true,
            _ => false,
        }
    }

    pub(crate) fn switch(&mut self, block: bool) -> (done: Result<(), SessionError>)
        ensures
            final(self)@ == old(self)@.switched(block).0,
            done == old(self)@.switched(block).1,
    {
        if self.in_phase(Phase::Settled) && !block {
            self.phase = Phase::Gameplay;
            Ok(())
        } else {
            Err(SessionError::ProtocolError)
        }
    }

    pub(crate) fn take(&mut self, kind: u8, read: ReadOutcome) -> (taken: Result<Option<Vec<u8>>, SessionError>)
        ensures
            final(self)@ == old(self)@.take(kind, read@).0,
            match taken {
                Ok(Some(payload)) => old(self)@.take(kind, read@).1 == Ok::<
                    Option<Seq<u8>>,
                    SessionError,
                >(Some(payload@)),
                Ok(None) => old(self)@.take(kind, read@).1 == Ok::<Option<Seq<u8>>, SessionError>(
                    None,
                ),
                Err(e) => old(self)@.take(kind, read@).1 == Err::<Option<Seq<u8>>, SessionError>(e),
            },
    {
        if !self.in_phase(Phase::Gameplay) {
            return Err(SessionError::ProtocolError);
        }
        match read {
            ReadOutcome::Failed => {
                return Err(SessionError::IoError);
            },
            ReadOutcome::Data(data) => {
                if data.len() == 0 {
                    return Err(SessionError::IoError);
                }
                append_bytes(&mut self.inbox, &data);
            },
            ReadOutcome::WouldBlock => {
                assert(self.inbox@ =~= old(self).inbox@);
            },
        }
        match split_frame(&self.inbox) {
            None => Ok(None),
            Some(split) => {
                if split.kind != kind {
                    return Err(SessionError::ProtocolError);
                }
                self.inbox = split.rest;
                Ok(Some(split.payload))
            },
        }
    }

    pub(crate) fn take_move(&mut self, read: ReadOutcome) -> (taken: Result<Option<MoveRecord>, SessionError>)
        ensures
            final(self)@ == old(self)@.take_move(read@).0,
            taken == old(self)@.take_move(read@).1,
            taken matches Ok(Some(record)) ==> record.wf(),
    {
        match self.take(KIND_MOVE, read) {
            Err(e) => Err(e),
            Ok(None) => Ok(None),
            Ok(Some(payload)) => match decode_move(&payload) {
                Some(record) => Ok(Some(record)),
                None => Err(SessionError::ProtocolError),
            },
        }
    }

    pub(crate) fn take_ack(&mut self, read: ReadOutcome) -> (taken: Result<Option<AckRecord>, SessionError>)
        ensures
            final(self)@ == old(self)@.take_ack(read@).0,
            taken == old(self)@.take_ack(read@).1,
    {
        match self.take(KIND_ACK, read) {
            Err(e) => Err(e),
            Ok(None) => Ok(None),
            Ok(Some(payload)) => match decode_ack(&payload) {
                Some(ack) => Ok(Some(ack)),
                None => Err(SessionError::ProtocolError),
            },
        }
    }

    pub(crate) fn take_start(&mut self, read: ReadOutcome) -> (taken: Result<Start, SessionError>)
        ensures
            final(self)@ == old(self)@.take_start(read@).0,
            match taken {
                Ok(start) => old(self)@.take_start(read@).1 == Ok::<StartView, SessionError>(start@),
                Err(e) => old(self)@.take_start(read@).1 == Err::<StartView, SessionError>(e),
            },
    {
        if !self.in_phase(Phase::Handshake) {
            return Err(SessionError::ProtocolError);
        }
        let data = match read {
            ReadOutcome::Failed => {
                return Err(SessionError::IoError);
            },
            ReadOutcome::WouldBlock => {
                return Err(SessionError::ProtocolError);
            },
            ReadOutcome::Data(data) => data,
        };
        if data.len() == 0 {
            return Err(SessionError::ProtocolError);
        }
        let mut buf: Vec<u8> = Vec::new();
        append_bytes(&mut buf, &self.inbox);
        append_bytes(&mut buf, &data);
        assert(buf@ =~= self.inbox@ + data@);
        let split = match split_frame(&buf) {
            Some(split) => split,
            None => {
                return Err(SessionError::ProtocolError);
            },
        };
        if split.kind != KIND_START {
            return Err(SessionError::ProtocolError);
        }
        match decode_start(&split.payload) {
            Some(start) => {
                self.inbox = split.rest;
                self.phase = Phase::Settled;
                Ok(start)
            },
            None => Err(SessionError::ProtocolError),
        }
    }

    pub(crate) fn setup(&mut self, hosts: bool, desired_start: Start, read: ReadOutcome) -> (setup: Result<
        Setup,
        SessionError,
    >)
        ensures
            final(self)@ == old(self)@.setup(hosts, desired_start@, read@).0,
            match setup {
                Ok(s) => old(self)@.setup(hosts, desired_start@, read@).1 == Ok::<
                    SetupView,
                    SessionError,
                >(s@),
                Err(e) => old(self)@.setup(hosts, desired_start@, read@).1 == Err::<
                    SetupView,
                    SessionError,
                >(e),
            },
    {
        if !hosts {
            return match self.take_start(read) {
                Ok(start) => Ok(Setup { start, reply: None }),
                Err(e) => Err(e),
            };
        }
        let answer = desired_start.for_peer();
        let frame = match encode_start(&answer) {
            Some(payload) => match encode_frame(KIND_START, &payload) {
                Some(frame) => frame,
                None => {
                    return Err(SessionError::ProtocolError);
                },
            },
            None => {
                return Err(SessionError::ProtocolError);
            },
        };
        match self.take_start(read) {
            Ok(_) => Ok(Setup { start: desired_start, reply: Some(frame) }),
            Err(e) => Err(e),
        }
    }

    pub(crate) fn opening(&self, hosts: bool, desired_start: &Start) -> (frame: Result<
        Option<Vec<u8>>,
        SessionError,
    >)
        ensures
            opening_view(frame) == self@.opening(hosts, desired_start@),
    {
        if !self.in_phase(Phase::Handshake) {
            return Err(SessionError::ProtocolError);
        }
        if hosts {
            return Ok(None);
        }
        match encode_start(desired_start) {
            Some(payload) => match encode_frame(KIND_START, &payload) {
                Some(frame) => Ok(Some(frame)),
                None => Err(SessionError::ProtocolError),
            },
            None => Err(SessionError::ProtocolError),
        }
    }

    pub(crate) fn frame_move(&self, m: &MoveRecord) -> (frame: Result<Vec<u8>, SessionError>)
        ensures
            frame_view(frame) == self@.sent_move(*m),
    {
        if !self.in_phase(Phase::Gameplay) {
            return Err(SessionError::ProtocolError);
        }
        match encode_move(m) {
            Some(payload) => match encode_frame(KIND_MOVE, &payload) {
                Some(frame) => Ok(frame),
                None => Err(SessionError::ProtocolError),
            },
            None => Err(SessionError::ProtocolError),
        }
    }

    pub(crate) fn frame_ack(&self, ack: &AckRecord) -> (frame: Result<Vec<u8>, SessionError>)
        ensures
            frame_view(frame) == self@.sent_ack(*ack),
    {
        if !self.in_phase(Phase::Gameplay) {
            return Err(SessionError::ProtocolError);
        }
        let payload = encode_ack(ack);
        match encode_frame(KIND_ACK, &payload) {
            Some(frame) => Ok(frame),
            None => Err(SessionError::ProtocolError),
        }
    }
}

} // verus!
