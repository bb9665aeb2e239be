//! The bytes of a handshake, of a move and of an acknowledgment.
//!
//! A handshake starts with 22 bytes: the colour (1 for White), a mark and
//! eight bytes for the clock time, a mark and eight bytes for the increment,
//! a mark for the starting position, and two bytes for the length of the
//! name. The name follows in UTF-8, and the starting position, where its
//! mark is 1, takes the rest. Numbers stand most significant byte first; a
//! mark is 1 where the value is present and 0 where it is not.
//!
//! A move takes six bytes: the file and the row of the square it leaves, the
//! file and the row of the square it reaches, the promotion piece (0 for
//! none, then 1 to 4 for knight, bishop, rook and queen), and the flags (1
//! for a resignation, 2 for a draw offer). An acknowledgment takes one byte,
//! 1 for accepted and 0 for declined.

use vstd::prelude::*;
use vstd::string::*;
use vstd::utf8::{decode_utf8, encode_utf8, encode_utf8_decode_utf8, encode_utf8_valid_utf8, valid_utf8};
use crate::framing::{append_bytes, copy_range, MAX_PAYLOAD};
use crate::piece::PromotionPiece;
use crate::records::{AckRecord, MoveRecord, Start, StartView};

verus! {

/// The length of a move's payload.
pub const MOVE_LEN: usize = 6;

/// The length of an acknowledgment's payload.
pub const ACK_LEN: usize = 1;

/// The byte of a promotion.
pub open spec fn promotion_byte(promotion: Option<PromotionPiece>) -> u8 {
    match promotion {
        None => 0,
        Some(PromotionPiece::Knight) => 1,
        Some(PromotionPiece::Bishop) => 2,
        Some(PromotionPiece::Rook) => 3,
        Some(PromotionPiece::Queen) => 4,
    }
}

/// The promotion of a byte up to 4.
pub open spec fn promotion_of_byte(b: u8) -> Option<PromotionPiece> {
    if b == 1 {
        Some(PromotionPiece::Knight)
    } else if b == 2 {
        Some(PromotionPiece::Bishop)
    } else if b == 3 {
        Some(PromotionPiece::Rook)
    } else if b == 4 {
        Some(PromotionPiece::Queen)
    } else {
        None
    }
}

/// The byte of the two flags of a move.
pub open spec fn flags_byte(forfeit: bool, offer_draw: bool) -> u8 {
    if forfeit {
        if offer_draw {
            3
        } else {
            1
        }
    } else {
        if offer_draw {
            2
        } else {
            0
        }
    }
}

/// The payload of a move.
pub open spec fn move_bytes(record: MoveRecord) -> Seq<u8> {
    seq![
        record.from.0,
        record.from.1,
        record.to.0,
        record.to.1,
        promotion_byte(record.promotion),
        flags_byte(record.forfeit, record.offer_draw),
    ]
}

/// The move of a payload: there is one exactly when the payload has six
/// bytes, each in its range, and does not both resign and offer a draw.
pub open spec fn move_of_bytes(bytes: Seq<u8>) -> Option<MoveRecord> {
    if bytes.len() == MOVE_LEN && bytes[0] < 8 && bytes[1] < 8 && bytes[2] < 8 && bytes[3] < 8
        && bytes[4] <= 4 && bytes[5] <= 2 {
        Some(
            MoveRecord {
                from: (bytes[0], bytes[1]),
                to: (bytes[2], bytes[3]),
                promotion: promotion_of_byte(bytes[4]),
                forfeit: bytes[5] == 1,
                offer_draw: bytes[5] == 2,
            },
        )
    } else {
        None
    }
}

/// The payload of an acknowledgment.
pub open spec fn ack_bytes(ack: AckRecord) -> Seq<u8> {
    seq![if ack.accepted { 1u8 } else { 0u8 }]
}

/// The acknowledgment of a payload: there is one exactly when the payload
/// is the single byte 0 or 1.
pub open spec fn ack_of_bytes(bytes: Seq<u8>) -> Option<AckRecord> {
    if bytes.len() == ACK_LEN && bytes[0] <= 1 {
        Some(AckRecord { accepted: bytes[0] == 1 })
    } else {
        None
    }
}

/// Writes the payload of a move.
///
/// `None` exactly when the record is not well formed.
pub fn encode_move(record: &MoveRecord) -> (bytes: Option<Vec<u8>>)
    ensures
        bytes is Some <==> record.wf(),
        bytes matches Some(b) ==> b@ == move_bytes(*record),
{
    if !record.is_wf() {
        return None;
    }
    let promotion: u8 = match record.promotion {
        None => 0,
        Some(PromotionPiece::Knight) => 1,
        Some(PromotionPiece::Bishop) => 2,
        Some(PromotionPiece::Rook) => 3,
        Some(PromotionPiece::Queen) => 4,
    };
    let flags: u8 = if record.forfeit {
        1
    } else if record.offer_draw {
        2
    } else {
        0
    };
    let mut bytes: Vec<u8> = Vec::new();
    bytes.push(record.from.0);
    bytes.push(record.from.1);
    bytes.push(record.to.0);
    bytes.push(record.to.1);
    bytes.push(promotion);
    bytes.push(flags);
    assert(bytes@ =~= move_bytes(*record));
    Some(bytes)
}

/// Reads the payload of a move.
///
/// `None` exactly when the payload is no move. A move that comes out is
/// well formed.
pub fn decode_move(bytes: &Vec<u8>) -> (record: Option<MoveRecord>)
    ensures
        record == move_of_bytes(bytes@),
        record matches Some(r) ==> r.wf(),
{
    if bytes.len() != MOVE_LEN {
        return None;
    }
    if !(bytes[0] < 8 && bytes[1] < 8 && bytes[2] < 8 && bytes[3] < 8 && bytes[4] <= 4 && bytes[5]
        <= 2) {
        return None;
    }
    let promotion = if bytes[4] == 1 {
        Some(PromotionPiece::Knight)
    } else if bytes[4] == 2 {
        Some(PromotionPiece::Bishop)
    } else if bytes[4] == 3 {
        Some(PromotionPiece::Rook)
    } else if bytes[4] == 4 {
        Some(PromotionPiece::Queen)
    } else {
        None
    };
    Some(
        MoveRecord {
            from: (bytes[0], bytes[1]),
            to: (bytes[2], bytes[3]),
            promotion,
            forfeit: bytes[5] == 1,
            offer_draw: bytes[5] == 2,
        },
    )
}

/// Writes the payload of an acknowledgment.
pub fn encode_ack(ack: &AckRecord) -> (bytes: Vec<u8>)
    ensures
        bytes@ == ack_bytes(*ack),
{
    let mut bytes: Vec<u8> = Vec::new();
    bytes.push(if ack.accepted { 1 } else { 0 });
    assert(bytes@ =~= ack_bytes(*ack));
    bytes
}

/// Reads the payload of an acknowledgment.
///
/// `None` exactly when the payload is no acknowledgment.
pub fn decode_ack(bytes: &Vec<u8>) -> (ack: Option<AckRecord>)
    ensures
        ack == ack_of_bytes(bytes@),
{
    if bytes.len() != ACK_LEN || bytes[0] > 1 {
        return None;
    }
    Some(AckRecord { accepted: bytes[0] == 1 })
}

/// The length of what a handshake holds before the name.
pub const START_HEAD: usize = 22;

/// The eight bytes of a number, most significant first.
pub open spec fn be_bytes(v: u64) -> Seq<u8> {
    seq![
        (v / 0x100000000000000) as u8,
        ((v / 0x1000000000000) % 256) as u8,
        ((v / 0x10000000000) % 256) as u8,
        ((v / 0x100000000) % 256) as u8,
        ((v / 0x1000000) % 256) as u8,
        ((v / 0x10000) % 256) as u8,
        ((v / 0x100) % 256) as u8,
        (v % 256) as u8,
    ]
}

/// The number that eight bytes state, most significant first.
pub open spec fn be_value(b: Seq<u8>) -> u64 {
    (b[0] * 0x100000000000000 + b[1] * 0x1000000000000 + b[2] * 0x10000000000 + b[3]
        * 0x100000000 + b[4] * 0x1000000 + b[5] * 0x10000 + b[6] * 0x100 + b[7]) as u64
}

/// The mark and the eight bytes of a number that may be absent.
pub open spec fn optional_bytes(v: Option<u64>) -> Seq<u8> {
    match v {
        Some(v) => seq![1u8] + be_bytes(v),
        None => seq![0u8] + be_bytes(0),
    }
}

/// The number that a mark and eight bytes state.
pub open spec fn optional_value(b: Seq<u8>) -> Option<u64> {
    if b[0] == 1 {
        Some(be_value(b.subrange(1, 9)))
    } else {
        None
    }
}

/// The bytes of the starting position of a handshake.
pub open spec fn fen_bytes(fen: Option<Seq<char>>) -> Seq<u8> {
    match fen {
        Some(fen) => encode_utf8(fen),
        None => Seq::empty(),
    }
}

/// A handshake whose payload fits in a frame, with a name that fits in its
/// length field.
pub open spec fn start_fits(start: StartView) -> bool {
    START_HEAD + encode_utf8(start.name).len() + fen_bytes(start.fen).len() <= MAX_PAYLOAD
}

/// The first 22 bytes of the payload of a handshake.
pub open spec fn start_head(start: StartView) -> Seq<u8> {
    seq![if start.is_white { 1u8 } else { 0u8 }] + optional_bytes(start.time) + optional_bytes(
        start.inc,
    ) + seq![
        if start.fen is Some { 1u8 } else { 0u8 },
        (encode_utf8(start.name).len() / 256) as u8,
        (encode_utf8(start.name).len() % 256) as u8,
    ]
}

/// The payload of a handshake that fits.
pub open spec fn start_bytes(start: StartView) -> Seq<u8> {
    start_head(start) + encode_utf8(start.name) + fen_bytes(start.fen)
}

/// The length of the name that the first 22 bytes of a payload state.
pub open spec fn start_name_len(bytes: Seq<u8>) -> int {
    bytes[20] as int * 256 + bytes[21] as int
}

/// The bytes of the name in the payload of a handshake.
pub open spec fn start_name_part(bytes: Seq<u8>) -> Seq<u8> {
    bytes.subrange(START_HEAD as int, START_HEAD + start_name_len(bytes))
}

/// The bytes after the name in the payload of a handshake.
pub open spec fn start_fen_part(bytes: Seq<u8>) -> Seq<u8> {
    bytes.subrange(START_HEAD + start_name_len(bytes), bytes.len() as int)
}

/// A payload has the shape of a handshake: its marks are marks, the name it
/// announces is there, the texts are UTF-8, and nothing follows the name
/// unless a starting position is marked.
pub open spec fn is_start(bytes: Seq<u8>) -> bool {
    &&& START_HEAD <= bytes.len() <= MAX_PAYLOAD
    &&& bytes[0] <= 1
    &&& bytes[1] <= 1
    &&& bytes[10] <= 1
    &&& bytes[19] <= 1
    &&& START_HEAD + start_name_len(bytes) <= bytes.len()
    &&& valid_utf8(start_name_part(bytes))
    &&& valid_utf8(start_fen_part(bytes))
    &&& bytes[19] == 0 ==> start_fen_part(bytes).len() == 0
}

/// The handshake of a payload: there is one exactly when the payload has
/// the shape of a handshake.
pub open spec fn start_of_bytes(bytes: Seq<u8>) -> Option<StartView> {
    if is_start(bytes) {
        Some(
            StartView {
                is_white: bytes[0] == 1,
                name: decode_utf8(start_name_part(bytes)),
                fen: if bytes[19] == 1 {
                    Some(decode_utf8(start_fen_part(bytes)))
                } else {
                    None
                },
                time: optional_value(bytes.subrange(1, 10)),
                inc: optional_value(bytes.subrange(10, 19)),
            },
        )
    } else {
        None
    }
}

/// The text that bytes spell in UTF-8 (`String::from_utf8` of the standard
/// library): there is one exactly when the bytes are valid UTF-8.
#[verifier::external_body]
fn text_of_utf8(bytes: Vec<u8>) -> (text: Option<String>)
    ensures
        text is Some <==> valid_utf8(bytes@),
        text matches Some(t) ==> t@ == decode_utf8(bytes@),
{
    match String::from_utf8(bytes) {
        Ok(text) => Some(text),
        Err(_) => None,
    }
}

fn push_u64(bytes: &mut Vec<u8>, v: u64)
    ensures
        final(bytes)@ == old(bytes)@ + be_bytes(v),
{
    bytes.push((v / 0x100000000000000) as u8);
    bytes.push(((v / 0x1000000000000) % 256) as u8);
    bytes.push(((v / 0x10000000000) % 256) as u8);
    bytes.push(((v / 0x100000000) % 256) as u8);
    bytes.push(((v / 0x1000000) % 256) as u8);
    bytes.push(((v / 0x10000) % 256) as u8);
    bytes.push(((v / 0x100) % 256) as u8);
    bytes.push((v % 256) as u8);
    assert(bytes@ =~= old(bytes)@ + be_bytes(v));
}

fn push_optional(bytes: &mut Vec<u8>, v: Option<u64>)
    ensures
        final(bytes)@ == old(bytes)@ + optional_bytes(v),
{
    match v {
        Some(v) => {
            bytes.push(1);
            push_u64(bytes, v);
            assert(bytes@ =~= old(bytes)@ + optional_bytes(Some(v)));
        },
        None => {
            bytes.push(0);
            push_u64(bytes, 0);
            assert(bytes@ =~= old(bytes)@ + optional_bytes(None));
        },
    }
}

fn read_optional(bytes: &Vec<u8>, at: usize) -> (v: Option<u64>)
    requires
        at + 9 <= bytes.len(),
    ensures
        v == optional_value(bytes@.subrange(at as int, at + 9)),
{
    assert(bytes@.subrange(at as int, at + 9)[0] == bytes@[at as int]);
    if bytes[at] != 1 {
        return None;
    }
    proof {
        let b = bytes@.subrange(at as int, at + 9).subrange(1, 9);
        assert(b[0] == bytes@[at + 1]);
        assert(b[1] == bytes@[at + 2]);
        assert(b[2] == bytes@[at + 3]);
        assert(b[3] == bytes@[at + 4]);
        assert(b[4] == bytes@[at + 5]);
        assert(b[5] == bytes@[at + 6]);
        assert(b[6] == bytes@[at + 7]);
        assert(b[7] == bytes@[at + 8]);
    }
    Some(
        bytes[at + 1] as u64 * 0x100000000000000 + bytes[at + 2] as u64 * 0x1000000000000 + bytes[at
            + 3] as u64 * 0x10000000000 + bytes[at + 4] as u64 * 0x100000000 + bytes[at + 5] as u64
            * 0x1000000 + bytes[at + 6] as u64 * 0x10000 + bytes[at + 7] as u64 * 0x100 + bytes[at
            + 8] as u64,
    )
}

/// Writes the payload of a handshake.
///
/// `None` exactly when the handshake does not fit.
pub fn encode_start(start: &Start) -> (bytes: Option<Vec<u8>>)
    ensures
        bytes is Some <==> start_fits(start@),
        bytes matches Some(b) ==> b@ == start_bytes(start@) && b.len() <= MAX_PAYLOAD,
{
    let name = start.name.as_str().as_bytes_vec();
    let fen = match &start.fen {
        Some(fen) => fen.as_str().as_bytes_vec(),
        None => Vec::new(),
    };
    assert(fen@ =~= fen_bytes(start@.fen));
    if name.len() > MAX_PAYLOAD - START_HEAD || fen.len() > MAX_PAYLOAD - START_HEAD - name.len() {
        return None;
    }
    let mut bytes: Vec<u8> = Vec::new();
    bytes.push(if start.is_white { 1 } else { 0 });
    push_optional(&mut bytes, start.time);
    push_optional(&mut bytes, start.inc);
    bytes.push(if start.fen.is_some() { 1 } else { 0 });
    bytes.push((name.len() / 256) as u8);
    bytes.push((name.len() % 256) as u8);
    assert(bytes@ =~= start_head(start@));
    append_bytes(&mut bytes, &name);
    append_bytes(&mut bytes, &fen);
    Some(bytes)
}

/// Reads the payload of a handshake.
///
/// `None` exactly when the payload has not the shape of a handshake.
pub fn decode_start(bytes: &Vec<u8>) -> (start: Option<Start>)
    ensures
        match start {
            Some(s) => start_of_bytes(bytes@) == Some(s@),
            None => start_of_bytes(bytes@) is None,
        },
{
    if bytes.len() < START_HEAD || bytes.len() > MAX_PAYLOAD {
        return None;
    }
    if bytes[0] > 1 || bytes[1] > 1 || bytes[10] > 1 || bytes[19] > 1 {
        return None;
    }
    let name_len: usize = bytes[20] as usize * 256 + bytes[21] as usize;
    if bytes.len() - START_HEAD < name_len {
        return None;
    }
    let name_end: usize = START_HEAD + name_len;
    if bytes[19] == 0 && name_end != bytes.len() {
        return None;
    }
    let name = match text_of_utf8(copy_range(bytes, START_HEAD, name_end)) {
        Some(name) => name,
        None => {
            return None;
        },
    };
    let rest = match text_of_utf8(copy_range(bytes, name_end, bytes.len())) {
        Some(rest) => rest,
        None => {
            return None;
        },
    };
    let fen = if bytes[19] == 1 {
        Some(rest)
    } else {
        None
    };
    let time = read_optional(bytes, 1);
    let inc = read_optional(bytes, 10);
    Some(Start { is_white: bytes[0] == 1, name, fen, time, inc })
}

/// Eight bytes state the number they were written for.
pub proof fn lemma_be_round_trip(v: u64)
    ensures
        be_bytes(v).len() == 8,
        be_value(be_bytes(v)) == v,
{
    assert(((v / 0x100000000000000) as u8) * 0x100000000000000 + (((v / 0x1000000000000) % 256) as u8)
        * 0x1000000000000 + (((v / 0x10000000000) % 256) as u8) * 0x10000000000 + (((v
        / 0x100000000) % 256) as u8) * 0x100000000 + (((v / 0x1000000) % 256) as u8) * 0x1000000 + (((v
        / 0x10000) % 256) as u8) * 0x10000 + (((v / 0x100) % 256) as u8) * 0x100 + ((v % 256) as u8)
        == v) by (bit_vector);
}

/// A number that may be absent is read as it was written.
pub proof fn lemma_optional_round_trip(v: Option<u64>)
    ensures
        optional_bytes(v).len() == 9,
        optional_value(optional_bytes(v)) == v,
{
    match v {
        Some(x) => {
            lemma_be_round_trip(x);
            assert(optional_bytes(v).subrange(1, 9) =~= be_bytes(x));
        },
        None => {},
    }
}

/// Reading the payload of a handshake that fits gives the handshake back.
pub proof fn lemma_start_round_trip(start: StartView)
    requires
        start_fits(start),
    ensures
        start_of_bytes(start_bytes(start)) == Some(start),
{
    let bytes = start_bytes(start);
    let head = start_head(start);
    let name = encode_utf8(start.name);
    let fen = fen_bytes(start.fen);
    lemma_optional_round_trip(start.time);
    lemma_optional_round_trip(start.inc);
    assert(head.len() == START_HEAD);
    assert(bytes.len() == START_HEAD + name.len() + fen.len());
    assert(bytes[0] == head[0]);
    assert(bytes[1] == head[1]);
    assert(bytes[10] == head[10]);
    assert(bytes[19] == head[19]);
    assert(bytes[20] == head[20]);
    assert(bytes[21] == head[21]);
    assert(bytes[1] == optional_bytes(start.time)[0]);
    assert(bytes[10] == optional_bytes(start.inc)[0]);
    assert(start_name_len(bytes) == name.len());
    assert(start_name_part(bytes) =~= name);
    assert(start_fen_part(bytes) =~= fen);
    assert(bytes.subrange(1, 10) =~= optional_bytes(start.time));
    assert(bytes.subrange(10, 19) =~= optional_bytes(start.inc));
    encode_utf8_valid_utf8(start.name);
    encode_utf8_decode_utf8(start.name);
    match start.fen {
        Some(text) => {
            encode_utf8_valid_utf8(text);
            encode_utf8_decode_utf8(text);
        },
        None => {
            encode_utf8_valid_utf8(Seq::<char>::empty());
            assert(encode_utf8(Seq::<char>::empty()) =~= Seq::<u8>::empty());
        },
    }
    assert(is_start(bytes));
    assert(start_of_bytes(bytes)->0.name == start.name);
    assert(start_of_bytes(bytes)->0.fen == start.fen);
}

/// Reading the payload of a well-formed move gives the move back.
pub proof fn lemma_move_round_trip(record: MoveRecord)
    requires
        record.wf(),
    ensures
        move_of_bytes(move_bytes(record)) == Some(record),
{
}

/// A payload that reads as a move is the payload of that move: no two
/// payloads carry the same move.
pub proof fn lemma_move_bytes_canonical(bytes: Seq<u8>)
    requires
        move_of_bytes(bytes) is Some,
    ensures
        move_bytes(move_of_bytes(bytes)->0) == bytes,
        move_of_bytes(bytes)->0.wf(),
{
    assert(move_bytes(move_of_bytes(bytes)->0) =~= bytes);
}

/// Reading the payload of an acknowledgment gives the acknowledgment back.
pub proof fn lemma_ack_round_trip(ack: AckRecord)
    ensures
        ack_of_bytes(ack_bytes(ack)) == Some(ack),
{
}

} // verus!
