use tarantool_rs::codec::{ClientCodec, LengthDecoder, LengthStep};
use tarantool_rs::consts::{IteratorType, RequestType, TransactionIsolationLevel};
use tarantool_rs::errors::{DecodingError, DecodingErrorDetails, DecodingErrorLocation, ProtocolKey};
use tarantool_rs::request::{
    prepare_scramble, xor_scramble, Auth, Begin, Call, Commit, Delete, EncodedRequest, Eval, Execute,
    Id, Insert, Ping, Prepare, Replace, Select, Update, Upsert,
};
use tarantool_rs::response::{Response, ResponseBody};

fn frame_of(req: &EncodedRequest) -> Vec<u8> {
    let mut codec = ClientCodec::default();
    let mut out = Vec::new();
    codec.encode(req, &mut out);
    out
}

#[test]
fn ping_frame_bytes() {
    let req = EncodedRequest::new(Ping {}, None).unwrap();
    let frame = frame_of(&req);
    // uint64 length 11, then {0x00: uint8 64, 0x01: uint32 0}, then the empty body map.
    assert_eq!(
        frame,
        vec![
            0xcf, 0, 0, 0, 0, 0, 0, 0, 11, 0x82, 0x00, 0xcc, 64, 0x01, 0xce, 0, 0, 0, 0, 0x80
        ]
    );
}

#[test]
fn header_with_stream_and_schema() {
    let mut req = EncodedRequest::new(Commit {}, Some(7)).unwrap();
    req.schema_version = Some(0x01020304);
    *req.sync_mut() = 5;
    let mut out = Vec::new();
    req.encode(&mut out);
    assert_eq!(
        out,
        vec![
            0x84, 0x00, 0xcc, 15, 0x01, 0xce, 0, 0, 0, 5, 0x05, 0xce, 1, 2, 3, 4, 0x0a, 0xce, 0,
            0, 0, 7, 0x80
        ]
    );
}

#[test]
fn select_defaults_unset_limit_offset_iterator() {
    let body = Select::new(512, 0, None, None, None, vec![0x90]);
    let req = EncodedRequest::new(body, None).unwrap();
    assert_eq!(req.request_type.code(), 1);
    assert_eq!(
        req.encoded_body,
        vec![
            0x86, 0x10, 0xce, 0, 0, 2, 0, 0x11, 0xce, 0, 0, 0, 0, 0x12, 0xce, 0xff, 0xff, 0xff,
            0xff, 0x13, 0xce, 0, 0, 0, 0, 0x14, 0xce, 0, 0, 0, 0, 0x20, 0x90
        ]
    );
}

#[test]
fn select_with_all_options() {
    let body = Select::new(1, 2, Some(3), Some(4), Some(IteratorType::Ge), vec![0x91, 0x01]);
    let req = EncodedRequest::new(body, None).unwrap();
    assert_eq!(
        req.encoded_body,
        vec![
            0x86, 0x10, 0xce, 0, 0, 0, 1, 0x11, 0xce, 0, 0, 0, 2, 0x12, 0xce, 0, 0, 0, 3, 0x13,
            0xce, 0, 0, 0, 4, 0x14, 0xce, 0, 0, 0, 5, 0x20, 0x91, 0x01
        ]
    );
}

#[test]
fn update_and_upsert_send_index_base_one() {
    let up = EncodedRequest::new(Update::new(1, 0, vec![0x91, 0x01], vec![0x90]), None).unwrap();
    assert_eq!(up.request_type.code(), 4);
    assert_eq!(
        up.encoded_body,
        vec![
            0x85, 0x10, 0xce, 0, 0, 0, 1, 0x11, 0xce, 0, 0, 0, 0, 0x15, 0xce, 0, 0, 0, 1, 0x20,
            0x91, 0x01, 0x21, 0x90
        ]
    );
    let ups = EncodedRequest::new(Upsert::new(1, vec![0x90], vec![0x91, 0x02]), None).unwrap();
    assert_eq!(ups.request_type.code(), 9);
    assert_eq!(
        ups.encoded_body,
        vec![
            0x84, 0x10, 0xce, 0, 0, 0, 1, 0x15, 0xce, 0, 0, 0, 1, 0x28, 0x90, 0x21, 0x91, 0x02
        ]
    );
}

#[test]
fn eval_call_bodies() {
    let ev = EncodedRequest::new(Eval::new("return ...".to_string(), vec![0x91, 0x01]), None)
        .unwrap();
    assert_eq!(ev.request_type.code(), 8);
    let mut expected = vec![0x82, 0x27, 0xaa];
    expected.extend_from_slice(b"return ...");
    expected.extend_from_slice(&[0x21, 0x91, 0x01]);
    assert_eq!(ev.encoded_body, expected);

    let call = EncodedRequest::new(Call::new("f".to_string(), vec![0x90]), None).unwrap();
    assert_eq!(call.request_type.code(), 10);
    assert_eq!(call.encoded_body, vec![0x82, 0x22, 0xa1, b'f', 0x21, 0x90]);
}

#[test]
fn insert_replace_delete_bodies() {
    let ins = EncodedRequest::new(Insert::new(9, vec![0x90]), None).unwrap();
    assert_eq!(ins.request_type.code(), 2);
    assert_eq!(ins.encoded_body, vec![0x82, 0x10, 0xce, 0, 0, 0, 9, 0x21, 0x90]);
    let rep = EncodedRequest::new(Replace::new(9, vec![0x90]), None).unwrap();
    assert_eq!(rep.request_type.code(), 3);
    assert_eq!(rep.encoded_body, ins.encoded_body);
    let del = EncodedRequest::new(Delete::new(9, 1, vec![0x90]), None).unwrap();
    assert_eq!(del.request_type.code(), 5);
    assert_eq!(
        del.encoded_body,
        vec![0x83, 0x10, 0xce, 0, 0, 0, 9, 0x11, 0xce, 0, 0, 0, 1, 0x20, 0x90]
    );
}

#[test]
fn execute_and_prepare_bodies() {
    let by_id = EncodedRequest::new(Execute::new_statement_id(3, vec![0x90]), None).unwrap();
    assert_eq!(by_id.request_type.code(), 11);
    assert_eq!(
        by_id.encoded_body,
        vec![0x82, 0x43, 0xcf, 0, 0, 0, 0, 0, 0, 0, 3, 0x41, 0x90]
    );
    let by_text =
        EncodedRequest::new(Execute::new_query("SELECT 1".to_string(), vec![0x90]), None).unwrap();
    let mut expected = vec![0x82, 0x40, 0xa8];
    expected.extend_from_slice(b"SELECT 1");
    expected.extend_from_slice(&[0x41, 0x90]);
    assert_eq!(by_text.encoded_body, expected);
    let prep = EncodedRequest::new(Prepare::new("SELECT 1".to_string()), None).unwrap();
    assert_eq!(prep.request_type.code(), 13);
    let mut expected = vec![0x81, 0x40, 0xa8];
    expected.extend_from_slice(b"SELECT 1");
    assert_eq!(prep.encoded_body, expected);
}

#[test]
fn begin_and_id_bodies() {
    let b = EncodedRequest::new(Begin::new(None, TransactionIsolationLevel::ReadConfirmed), None)
        .unwrap();
    assert_eq!(b.request_type.code(), 14);
    assert_eq!(b.encoded_body, vec![0x81, 0x59, 0xcc, 2]);
    let bits = 1.5f64.to_bits();
    let b = EncodedRequest::new(Begin::new(Some(bits), TransactionIsolationLevel::Default), None)
        .unwrap();
    let mut expected = vec![0x82, 0x56, 0xcb];
    expected.extend_from_slice(&bits.to_be_bytes());
    expected.extend_from_slice(&[0x59, 0xcc, 0]);
    assert_eq!(b.encoded_body, expected);
    let id = EncodedRequest::new(Id::default(), None).unwrap();
    assert_eq!(id.request_type.code(), 73);
    assert_eq!(id.encoded_body, vec![0x82, 0x54, 0xcc, 3, 0x55, 0x92, 0xcc, 0, 0xcc, 2]);
}

#[test]
fn long_strings_use_wider_headers() {
    let text = "x".repeat(300);
    let prep = EncodedRequest::new(Prepare::new(text.clone()), None).unwrap();
    assert_eq!(&prep.encoded_body[..5], &[0x81, 0x40, 0xda, 0x01, 0x2c]);
    assert_eq!(prep.encoded_body.len(), 5 + 300);
    let text = "y".repeat(40);
    let prep = EncodedRequest::new(Prepare::new(text), None).unwrap();
    assert_eq!(&prep.encoded_body[..4], &[0x81, 0x40, 0xd9, 40]);
}

#[test]
fn scramble_known_vector() {
    let salt: Vec<u8> = (0u8..32).collect();
    assert_eq!(
        prepare_scramble(Some("secret"), &salt),
        vec![
            0x21, 0xb3, 0xff, 0x40, 0x5f, 0x32, 0xcb, 0xe4, 0xaa, 0xff, 0xf2, 0x91, 0x39, 0x60,
            0x46, 0xea, 0x29, 0xfa, 0x3a, 0x4d
        ]
    );
    let empty = vec![
        0x6a, 0x73, 0x0f, 0xb8, 0x98, 0x76, 0xd5, 0xe6, 0x29, 0x23, 0x45, 0x29, 0xfe, 0x44, 0xe1,
        0x5f, 0x19, 0xe7, 0xc1, 0x14,
    ];
    assert_eq!(prepare_scramble(None, &[0u8; 20]), empty);
    // Only the first 20 bytes of the salt count.
    assert_eq!(prepare_scramble(Some(""), &[0u8; 32]), empty);
}

#[test]
fn auth_body_layout() {
    let salt: Vec<u8> = (0u8..32).collect();
    let auth = Auth::new("Sisko".to_string(), Some("A-4-7-1"), &salt);
    let scramble = prepare_scramble(Some("A-4-7-1"), &salt);
    let req = EncodedRequest::new(auth, None).unwrap();
    assert_eq!(req.request_type.code(), 7);
    let mut expected = vec![0x82, 0x23, 0xa5];
    expected.extend_from_slice(b"Sisko");
    expected.extend_from_slice(&[0x21, 0x92, 0xa9]);
    expected.extend_from_slice(b"chap-sha1");
    expected.extend_from_slice(&[0xc4, 20]);
    expected.extend_from_slice(&scramble);
    assert_eq!(req.encoded_body, expected);
}

#[test]
fn xor_of_digests() {
    assert_eq!(xor_scramble(&[0xff, 0x0f, 1], &[0x0f, 0x0f]), vec![0xf0, 0x00]);
}

#[test]
fn length_decoder_feeds_in_pieces() {
    let mut d = LengthDecoder::default();
    let frame = [0xcf, 0, 0, 0, 1, 0, 0, 0, 0, 0xaa];
    assert_eq!(d.decode(&frame[..1]), Ok(LengthStep { consumed: 1, length: None }));
    assert_eq!(d, LengthDecoder::Marker(0xcf));
    assert_eq!(d.decode(&frame[1..5]), Ok(LengthStep { consumed: 0, length: None }));
    assert_eq!(
        d.decode(&frame[1..]),
        Ok(LengthStep { consumed: 8, length: Some(1u64 << 32) })
    );
    assert_eq!(d.decode(&[]), Ok(LengthStep { consumed: 0, length: Some(1u64 << 32) }));
}

#[test]
fn length_decoder_all_widths() {
    let cases: Vec<(Vec<u8>, u64)> = vec![
        (vec![0x05], 5),
        (vec![0xcc, 200], 200),
        (vec![0xcd, 1, 2], 0x0102),
        (vec![0xce, 1, 2, 3, 4], 0x01020304),
        (vec![0xcf, 0, 0, 0, 0, 0, 0, 0, 0], 0),
    ];
    for (bytes, v) in cases {
        let mut d = LengthDecoder::default();
        assert_eq!(
            d.decode(&bytes),
            Ok(LengthStep { consumed: bytes.len(), length: Some(v) })
        );
    }
}

#[test]
fn length_decoder_rejects_other_markers() {
    let mut d = LengthDecoder::default();
    assert_eq!(
        d.decode(&[0xa1, 0x41]),
        Err(DecodingError {
            kind: DecodingErrorDetails::TypeMismatch(0xa1),
            location: Some(DecodingErrorLocation::FrameLengthField),
        })
    );
}

fn ok_response_frame(sync: u8, body: &[u8]) -> Vec<u8> {
    let mut msg = vec![0x83, 0x00, 0x00, 0x01, sync, 0x05, 0x50];
    msg.extend_from_slice(body);
    let mut frame = vec![0xce, 0, 0, 0, msg.len() as u8];
    frame.extend_from_slice(&msg);
    frame
}

#[test]
fn codec_waits_for_whole_frame() {
    let frame = ok_response_frame(3, &[0x81, 0x30, 0x91, 0x2a]);
    let mut codec = ClientCodec::default();
    let step = codec.decode(&frame[..7]).unwrap();
    assert_eq!(step.consumed, 5);
    assert!(step.response.is_none());
    let step = codec.decode(&frame[5..]).unwrap();
    assert_eq!(step.consumed, frame.len() - 5);
    let resp = step.response.unwrap();
    assert_eq!(resp.sync, 3);
    assert_eq!(resp.schema_version, 0x50);
    match resp.body {
        ResponseBody::Value(v) => assert_eq!(v, vec![0x81, 0x30, 0x91, 0x2a]),
        ResponseBody::Error(_) => panic!("expected OK body"),
    }
    assert_eq!(codec.length_decoder, LengthDecoder::NoMarker);
}

#[test]
fn response_error_body() {
    // code 0x8000 | 0x2d, description "no", extras {}.
    let msg = vec![
        0x83, 0x00, 0xcd, 0x80, 0x2d, 0x01, 0x07, 0x05, 0x01, 0x82, 0x31, 0xa2, b'n', b'o',
        0x52, 0x80,
    ];
    let resp = Response::decode(&msg).unwrap();
    assert_eq!(resp.sync, 7);
    match resp.body {
        ResponseBody::Error(e) => {
            assert_eq!(e.code, 0x2d);
            assert_eq!(e.description, "no");
            assert_eq!(e.extra, Some(vec![0x80]));
        }
        ResponseBody::Value(_) => panic!("expected error body"),
    }
}

#[test]
fn response_missing_keys() {
    let no_sync = vec![0x82, 0x00, 0x00, 0x05, 0x01, 0xc0];
    assert_eq!(
        Response::decode(&no_sync).unwrap_err().kind,
        DecodingErrorDetails::MissingKey(ProtocolKey::Sync)
    );
    let no_schema = vec![0x82, 0x00, 0x00, 0x01, 0x01, 0xc0];
    assert_eq!(
        Response::decode(&no_schema).unwrap_err().kind,
        DecodingErrorDetails::MissingKey(ProtocolKey::SchemaVersion)
    );
    let no_code = vec![0x82, 0x01, 0x00, 0x05, 0x01, 0xc0];
    assert_eq!(
        Response::decode(&no_code).unwrap_err().kind,
        DecodingErrorDetails::MissingKey(ProtocolKey::ResponseCode)
    );
    let no_description = vec![0x83, 0x00, 0xcd, 0x80, 0x01, 0x01, 0x00, 0x05, 0x00, 0x80];
    assert_eq!(
        Response::decode(&no_description).unwrap_err().kind,
        DecodingErrorDetails::MissingKey(ProtocolKey::Error24)
    );
}

#[test]
fn response_unknown_code_and_unknown_keys() {
    let unknown = vec![0x83, 0x00, 0x07, 0x01, 0x00, 0x05, 0x00, 0xc0];
    assert_eq!(
        Response::decode(&unknown).unwrap_err().kind,
        DecodingErrorDetails::UnknownResponseCode(7)
    );
    // An unknown key 0x10 with a string value is skipped.
    let extra_key = vec![0x84, 0x10, 0xa2, b'h', b'i', 0x00, 0x00, 0x01, 0x02, 0x05, 0x03, 0xc3];
    let resp = Response::decode(&extra_key).unwrap();
    assert_eq!(resp.sync, 2);
    match resp.body {
        ResponseBody::Value(v) => assert_eq!(v, vec![0xc3]),
        ResponseBody::Error(_) => panic!("expected OK body"),
    }
}

#[test]
fn request_type_codes() {
    assert_eq!(RequestType::Ping.code(), 64);
    assert_eq!(RequestType::Id.code(), 73);
    assert_eq!(RequestType::Rollback.code(), 16);
    assert_eq!(IteratorType::default().code(), 0);
    assert_eq!(TransactionIsolationLevel::BestEffort.code(), 3);
}

#[test]
fn frame_length_prefix_matches_message() {
    let mut req = EncodedRequest::new(Call::new("box.info".to_string(), vec![0x90]), Some(3))
        .unwrap();
    *req.sync_mut() = 77;
    let frame = frame_of(&req);
    let mut d = LengthDecoder::default();
    let step = d.decode(&frame).unwrap();
    assert_eq!(step.consumed, 9);
    assert_eq!(step.length, Some((frame.len() - 9) as u64));
    let mut message = Vec::new();
    req.encode(&mut message);
    assert_eq!(&frame[9..], &message[..]);
    // Header: type 10, sync 77, stream 3; then the body.
    assert_eq!(
        &message[..16],
        &[0x83, 0x00, 0xcc, 10, 0x01, 0xce, 0, 0, 0, 77, 0x0a, 0xce, 0, 0, 0, 3]
    );
    assert_eq!(&message[16..], &req.encoded_body[..]);
}

#[test]
fn empty_body_frame() {
    let frame = frame_of(&EncodedRequest::new(Ping {}, None).unwrap());
    let mut d = LengthDecoder::default();
    assert_eq!(d.decode(&frame).unwrap().length, Some(11));
    assert_eq!(frame.last(), Some(&0x80));
}

#[test]
fn eval_echo_round_trip() {
    let args = vec![0x93, 0x01, 0xa3, b't', b'w', b'o', 0xc3];
    let req = EncodedRequest::new(Eval::new("return ...".to_string(), args.clone()), None).unwrap();
    assert!(req.encoded_body.ends_with(&args));
    let mut reply = vec![0x81, 0x30];
    reply.extend_from_slice(&args);
    let items = tarantool_rs::body::data_tuple(&reply).unwrap();
    assert_eq!(items, vec![vec![0x01], vec![0xa3, b't', b'w', b'o'], vec![0xc3]]);
}

#[test]
fn header_integers_in_signed_and_wide_forms() {
    // code as int8 0, sync as int32 9, schema version as uint64 2, then nil.
    let msg = vec![
        0x83, 0x00, 0xd0, 0x00, 0x01, 0xd2, 0, 0, 0, 9, 0x05, 0xcf, 0, 0, 0, 0, 0, 0, 0, 2, 0xc0,
    ];
    let resp = Response::decode(&msg).unwrap();
    assert_eq!((resp.sync, resp.schema_version), (9, 2));
    // A negative sync does not fit.
    let negative = vec![0x83, 0x00, 0x00, 0x01, 0xd0, 0xff, 0x05, 0x00, 0xc0];
    assert_eq!(Response::decode(&negative).unwrap_err().kind, DecodingErrorDetails::MessagePack);
}
