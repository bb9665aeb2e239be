use netchess::codec::{
    decode_ack, decode_move, decode_start, encode_ack, encode_move, encode_start,
};
use netchess::framing::{
    append_bytes, copy_range, encode_frame, split_frame, KIND_ACK, KIND_MOVE, KIND_START,
};
use netchess::piece::PromotionPiece;
use netchess::records::{AckRecord, MoveRecord, Start};

fn sample_start() -> Start {
    Start {
        is_white: true,
        name: "Grace".to_string(),
        fen: Some("8/8/8/8/8/8/8/K6k w - - 0 1".to_string()),
        time: Some(300),
        inc: Some(0x0102030405060708),
    }
}

#[test]
fn move_payload_has_six_bytes() {
    let record = MoveRecord::new((4, 6), (4, 4), None);
    assert_eq!(encode_move(&record), Some(vec![4, 6, 4, 4, 0, 0]));
    let promo = MoveRecord {
        from: (4, 1),
        to: (4, 0),
        promotion: Some(PromotionPiece::Queen),
        forfeit: false,
        offer_draw: true,
    };
    assert_eq!(encode_move(&promo), Some(vec![4, 1, 4, 0, 4, 2]));
    let resign = MoveRecord { forfeit: true, ..MoveRecord::new((0, 0), (0, 0), None) };
    assert_eq!(encode_move(&resign), Some(vec![0, 0, 0, 0, 0, 1]));
}

#[test]
fn move_round_trip_over_every_record() {
    let promotions = [
        None,
        Some(PromotionPiece::Knight),
        Some(PromotionPiece::Bishop),
        Some(PromotionPiece::Rook),
        Some(PromotionPiece::Queen),
    ];
    for from in 0u8..64 {
        for to in 0u8..64 {
            for promotion in promotions {
                for (forfeit, offer_draw) in [(false, false), (true, false), (false, true)] {
                    let record = MoveRecord {
                        from: (from % 8, from / 8),
                        to: (to % 8, to / 8),
                        promotion,
                        forfeit,
                        offer_draw,
                    };
                    assert!(record.is_wf());
                    let bytes = encode_move(&record).unwrap();
                    assert_eq!(decode_move(&bytes), Some(record));
                }
            }
        }
    }
}

#[test]
fn record_squares_count_from_the_top_left() {
    let record = MoveRecord::new((4, 6), (4, 4), None);
    assert_eq!(record.from_square(), 52);
    assert_eq!(record.to_square(), 36);
    let corner = MoveRecord::new((0, 0), (7, 7), None);
    assert_eq!(corner.from_square(), 0);
    assert_eq!(corner.to_square(), 63);
    let off = MoveRecord::new((255, 255), (8, 0), None);
    assert_eq!(off.from_square(), 2295);
    assert_eq!(off.to_square(), 8);
}

#[test]
fn ill_formed_move_is_not_encoded() {
    assert_eq!(encode_move(&MoveRecord::new((8, 0), (0, 0), None)), None);
    assert_eq!(encode_move(&MoveRecord::new((0, 0), (0, 200), None)), None);
    let both = MoveRecord { forfeit: true, offer_draw: true, ..MoveRecord::new((0, 0), (1, 1), None) };
    assert!(!both.is_wf());
    assert_eq!(encode_move(&both), None);
}

#[test]
fn decode_move_refuses_what_is_no_move() {
    assert_eq!(decode_move(&vec![]), None);
    assert_eq!(decode_move(&vec![4, 6, 4, 4, 0]), None);
    assert_eq!(decode_move(&vec![4, 6, 4, 4, 0, 0, 0]), None);
    assert_eq!(decode_move(&vec![8, 6, 4, 4, 0, 0]), None);
    assert_eq!(decode_move(&vec![4, 6, 4, 4, 5, 0]), None);
    assert_eq!(decode_move(&vec![4, 6, 4, 4, 0, 3]), None);
}

#[test]
fn ack_round_trip() {
    for accepted in [true, false] {
        let ack = AckRecord { accepted };
        assert_eq!(decode_ack(&encode_ack(&ack)), Some(ack));
    }
    assert_eq!(encode_ack(&AckRecord { accepted: true }), vec![1]);
    assert_eq!(encode_ack(&AckRecord { accepted: false }), vec![0]);
    assert_eq!(decode_ack(&vec![2]), None);
    assert_eq!(decode_ack(&vec![]), None);
    assert_eq!(decode_ack(&vec![1, 0]), None);
}

#[test]
fn start_payload_layout() {
    let start = Start::new(true, "Al".to_string());
    let bytes = encode_start(&start).unwrap();
    let mut expected = vec![1u8];
    expected.extend([0u8; 9]);
    expected.extend([0u8; 9]);
    expected.extend([0u8, 0, 2, b'A', b'l']);
    assert_eq!(bytes, expected);

    let bytes = encode_start(&sample_start()).unwrap();
    assert_eq!(&bytes[0..2], &[1, 1]);
    assert_eq!(&bytes[2..10], &[0, 0, 0, 0, 0, 0, 1, 44]);
    assert_eq!(&bytes[10..19], &[1, 1, 2, 3, 4, 5, 6, 7, 8]);
    assert_eq!(&bytes[19..22], &[1, 0, 5]);
    assert_eq!(&bytes[22..27], b"Grace");
    assert_eq!(&bytes[27..], b"8/8/8/8/8/8/8/K6k w - - 0 1");
}

#[test]
fn start_round_trip() {
    let samples = vec![
        sample_start(),
        Start::new(false, String::new()),
        Start::new(true, "Zoë ♞".to_string()),
        Start {
            is_white: false,
            name: "x".repeat(300),
            fen: Some(String::new()),
            time: Some(u64::MAX),
            inc: None,
        },
        Start { is_white: true, name: "n".to_string(), fen: None, time: None, inc: Some(0) },
    ];
    for start in samples {
        let bytes = encode_start(&start).unwrap();
        assert_eq!(decode_start(&bytes), Some(start));
    }
}

#[test]
fn start_that_does_not_fit_is_not_encoded() {
    let long = Start::new(true, "a".repeat(65535 - 21));
    assert_eq!(encode_start(&long), None);
    let fits = Start::new(true, "a".repeat(65535 - 22));
    assert!(encode_start(&fits).is_some());
    let long_fen = Start { fen: Some("f".repeat(40000)), ..Start::new(true, "a".repeat(30000)) };
    assert_eq!(encode_start(&long_fen), None);
}

#[test]
fn decode_start_refuses_what_is_no_handshake() {
    let good = encode_start(&sample_start()).unwrap();
    assert!(decode_start(&good).is_some());
    assert_eq!(decode_start(&vec![]), None);
    assert_eq!(decode_start(&good[..21].to_vec()), None);
    for at in [0usize, 1, 10, 19] {
        let mut bad = good.clone();
        bad[at] = 2;
        assert_eq!(decode_start(&bad), None);
    }
    let mut bad = good.clone();
    bad[21] = 200;
    assert_eq!(decode_start(&bad), None);
    let mut bad = good.clone();
    bad[22] = 0xff;
    assert_eq!(decode_start(&bad), None);
    let mut bad = good.clone();
    let last = bad.len() - 1;
    bad[last] = 0xc3;
    assert_eq!(decode_start(&bad), None);
    let mut bad = encode_start(&Start::new(true, "Al".to_string())).unwrap();
    bad.push(b'x');
    assert_eq!(decode_start(&bad), None);
}

#[test]
fn absent_numbers_are_read_as_absent() {
    let mut bytes = encode_start(&Start::new(true, "Al".to_string())).unwrap();
    bytes[5] = 9;
    bytes[15] = 7;
    assert_eq!(decode_start(&bytes), Some(Start::new(true, "Al".to_string())));
}

#[test]
fn frame_has_kind_length_and_payload() {
    assert_eq!(encode_frame(KIND_MOVE, &vec![4, 6, 4, 4, 0, 0]), Some(vec![2, 0, 6, 4, 6, 4, 4, 0, 0]));
    assert_eq!(encode_frame(KIND_ACK, &vec![1]), Some(vec![3, 0, 1, 1]));
    assert_eq!(encode_frame(KIND_START, &vec![]), Some(vec![1, 0, 0]));
    let long = encode_frame(KIND_START, &vec![7; 300]).unwrap();
    assert_eq!(&long[0..3], &[1, 1, 44]);
    assert_eq!(long.len(), 303);
}

#[test]
fn frame_refuses_a_payload_that_is_too_long() {
    assert!(encode_frame(KIND_START, &vec![0; 65535]).is_some());
    assert_eq!(encode_frame(KIND_START, &vec![0; 65536]), None);
}

#[test]
fn split_frame_takes_the_first_frame() {
    let mut buf = encode_frame(KIND_MOVE, &vec![9, 8, 7]).unwrap();
    buf.extend(encode_frame(KIND_ACK, &vec![1]).unwrap());
    let split = split_frame(&buf).unwrap();
    assert_eq!(split.kind, KIND_MOVE);
    assert_eq!(split.payload, vec![9, 8, 7]);
    assert_eq!(split.rest, vec![3, 0, 1, 1]);
    let split = split_frame(&split.rest).unwrap();
    assert_eq!(split.kind, KIND_ACK);
    assert_eq!(split.payload, vec![1]);
    assert!(split.rest.is_empty());
}

#[test]
fn split_frame_waits_for_the_whole_frame() {
    let frame = encode_frame(KIND_MOVE, &vec![9, 8, 7]).unwrap();
    for cut in 0..frame.len() {
        assert!(split_frame(&frame[..cut].to_vec()).is_none());
    }
    assert!(split_frame(&frame).is_some());
}

#[test]
fn byte_helpers_copy_and_append() {
    let buf = vec![1u8, 2, 3, 4, 5];
    assert_eq!(copy_range(&buf, 1, 4), vec![2, 3, 4]);
    assert_eq!(copy_range(&buf, 2, 2), Vec::<u8>::new());
    let mut target = vec![9u8];
    append_bytes(&mut target, &buf);
    assert_eq!(target, vec![9, 1, 2, 3, 4, 5]);
}
