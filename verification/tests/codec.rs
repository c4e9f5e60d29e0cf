use bytes::{Bytes, BytesMut};
use theater_client::codec::{
    decode, decode_frame, encode, FrameDecoder, ProtocolError, HEADER_LENGTH, MAX_FRAME_LENGTH,
};
use tokio_util::codec::{Decoder, Encoder, LengthDelimitedCodec};

fn reference_codec() -> LengthDelimitedCodec {
    let mut codec = LengthDelimitedCodec::new();
    codec.set_max_frame_length(MAX_FRAME_LENGTH);
    codec
}

fn header_for(length: u32) -> Vec<u8> {
    length.to_be_bytes().to_vec()
}

#[test]
fn limits_are_as_documented() {
    assert_eq!(MAX_FRAME_LENGTH, 33_554_432);
    assert_eq!(HEADER_LENGTH, 4);
}

#[test]
fn encode_prepends_big_endian_length() {
    assert_eq!(encode(b"hello"), Ok(vec![0, 0, 0, 5, b'h', b'e', b'l', b'l', b'o']));
}

#[test]
fn encode_empty_payload_is_header_only() {
    assert_eq!(encode(b""), Ok(vec![0, 0, 0, 0]));
}

#[test]
fn encode_uses_every_byte_of_the_prefix() {
    let payload = vec![7u8; 0x0001_0203];
    let frame = encode(&payload).unwrap();
    assert_eq!(&frame[..4], &[0x00, 0x01, 0x02, 0x03]);
    assert_eq!(frame.len(), 4 + payload.len());
    assert_eq!(&frame[4..], &payload[..]);
}

#[test]
fn encode_accepts_payload_at_the_limit() {
    let payload = vec![0xABu8; MAX_FRAME_LENGTH];
    let frame = encode(&payload).unwrap();
    assert_eq!(&frame[..4], &[0x02, 0x00, 0x00, 0x00]);
    assert_eq!(frame.len(), MAX_FRAME_LENGTH + 4);
}

#[test]
fn encode_rejects_payload_over_the_limit() {
    let payload = vec![0u8; MAX_FRAME_LENGTH + 1];
    assert_eq!(encode(&payload), Err(ProtocolError::FrameTooLarge));
}

#[test]
fn round_trip_single_frame() {
    let payload = b"{\"NewStore\":{}}".to_vec();
    let frame = encode(&payload).unwrap();
    assert_eq!(decode(&frame), (vec![payload], None));
}

#[test]
fn round_trip_at_the_limit() {
    let payload = vec![0x5Au8; MAX_FRAME_LENGTH];
    let frame = encode(&payload).unwrap();
    let (frames, error) = decode(&frame);
    assert_eq!(error, None);
    assert_eq!(frames.len(), 1);
    assert!(frames[0] == payload);
}

#[test]
fn round_trip_many_frames_in_order() {
    let payloads: Vec<Vec<u8>> = vec![b"a".to_vec(), Vec::new(), b"bcd".to_vec(), vec![0u8; 300]];
    let mut stream = Vec::new();
    for payload in &payloads {
        stream.extend(encode(payload).unwrap());
    }
    assert_eq!(decode(&stream), (payloads, None));
}

#[test]
fn decode_empty_stream_has_no_frames() {
    assert_eq!(decode(b""), (Vec::<Vec<u8>>::new(), None));
}

#[test]
fn decode_frame_reports_consumed_bytes() {
    let mut stream = encode(b"xy").unwrap();
    stream.extend_from_slice(b"tail");
    assert_eq!(decode_frame(&stream), Ok(Some((b"xy".to_vec(), 6))));
}

#[test]
fn decode_frame_waits_for_the_header() {
    assert_eq!(decode_frame(&[]), Ok(None));
    assert_eq!(decode_frame(&[0, 0, 0]), Ok(None));
}

#[test]
fn decode_frame_waits_for_the_payload() {
    assert_eq!(decode_frame(&[0, 0, 0, 3, 1, 2]), Ok(None));
}

#[test]
fn oversize_length_is_rejected() {
    let mut stream = header_for(MAX_FRAME_LENGTH as u32 + 1);
    stream.extend_from_slice(b"payload that must never be handed out");
    assert_eq!(decode_frame(&stream), Err(ProtocolError::FrameTooLarge));
    assert_eq!(decode(&stream), (Vec::<Vec<u8>>::new(), Some(ProtocolError::FrameTooLarge)));
}

#[test]
fn oversize_length_is_rejected_on_the_header_alone() {
    assert_eq!(decode_frame(&[0xFF, 0xFF, 0xFF, 0xFF]), Err(ProtocolError::FrameTooLarge));
    assert_eq!(decode_frame(&[0x02, 0x00, 0x00, 0x01]), Err(ProtocolError::FrameTooLarge));
}

#[test]
fn length_at_the_limit_is_not_oversize() {
    assert_eq!(decode_frame(&[0x02, 0x00, 0x00, 0x00]), Ok(None));
}

#[test]
fn oversize_after_good_frames_keeps_the_good_frames() {
    let mut stream = encode(b"ok").unwrap();
    stream.extend(header_for(0x7FFF_FFFF));
    stream.extend_from_slice(b"junk");
    assert_eq!(decode(&stream), (vec![b"ok".to_vec()], Some(ProtocolError::FrameTooLarge)));
}

#[test]
fn truncated_payload_is_reported() {
    let mut stream = encode(b"whole").unwrap();
    stream.extend_from_slice(&[0, 0, 0, 9, 1, 2, 3]);
    assert_eq!(decode(&stream), (vec![b"whole".to_vec()], Some(ProtocolError::Truncated)));
}

#[test]
fn truncated_header_is_reported() {
    assert_eq!(decode(&[0, 0]), (Vec::<Vec<u8>>::new(), Some(ProtocolError::Truncated)));
}

#[test]
fn header_without_payload_is_truncated() {
    assert_eq!(decode(&[0, 0, 0, 1]), (Vec::<Vec<u8>>::new(), Some(ProtocolError::Truncated)));
}

#[test]
fn decoder_starts_empty() {
    let mut decoder = FrameDecoder::new();
    assert_eq!(decoder.pending(), 0);
    assert_eq!(decoder.next_frame(), Ok(None));
    assert_eq!(decoder.next_frame_at_end(), Ok(None));
}

#[test]
fn decoder_reassembles_a_frame_fed_byte_by_byte() {
    let frame = encode(b"piecewise").unwrap();
    let mut decoder = FrameDecoder::new();
    for (i, byte) in frame.iter().enumerate() {
        assert_eq!(decoder.next_frame(), Ok(None));
        decoder.extend(&[*byte]);
        assert_eq!(decoder.pending(), i + 1);
    }
    assert_eq!(decoder.next_frame(), Ok(Some(b"piecewise".to_vec())));
    assert_eq!(decoder.pending(), 0);
    assert_eq!(decoder.next_frame(), Ok(None));
}

#[test]
fn decoder_hands_out_frames_in_order_and_keeps_the_rest() {
    let mut stream = encode(b"first").unwrap();
    stream.extend(encode(b"second").unwrap());
    stream.extend_from_slice(&[0, 0]);
    let mut decoder = FrameDecoder::new();
    decoder.extend(&stream);
    assert_eq!(decoder.next_frame(), Ok(Some(b"first".to_vec())));
    assert_eq!(decoder.next_frame(), Ok(Some(b"second".to_vec())));
    assert_eq!(decoder.next_frame(), Ok(None));
    assert_eq!(decoder.pending(), 2);
}

#[test]
fn decoder_rejects_oversize_and_consumes_nothing() {
    let mut decoder = FrameDecoder::new();
    decoder.extend(&header_for(MAX_FRAME_LENGTH as u32 + 1));
    decoder.extend(b"data");
    assert_eq!(decoder.next_frame(), Err(ProtocolError::FrameTooLarge));
    assert_eq!(decoder.pending(), 8);
    assert_eq!(decoder.next_frame(), Err(ProtocolError::FrameTooLarge));
    assert_eq!(decoder.next_frame_at_end(), Err(ProtocolError::FrameTooLarge));
    assert_eq!(decoder.pending(), 8);
}

#[test]
fn decoder_reports_truncation_at_end_of_stream() {
    let mut decoder = FrameDecoder::new();
    decoder.extend(&[0, 0, 0, 4, 1, 2]);
    assert_eq!(decoder.next_frame(), Ok(None));
    assert_eq!(decoder.next_frame_at_end(), Err(ProtocolError::Truncated));
    assert_eq!(decoder.pending(), 6);
}

#[test]
fn decoder_drains_whole_frames_at_end_of_stream() {
    let mut decoder = FrameDecoder::new();
    decoder.extend(&encode(b"last").unwrap());
    assert_eq!(decoder.next_frame_at_end(), Ok(Some(b"last".to_vec())));
    assert_eq!(decoder.next_frame_at_end(), Ok(None));
}

#[test]
fn encode_agrees_with_the_length_delimited_codec() {
    for payload in [&b""[..], &b"x"[..], &b"hello world"[..], &vec![9u8; 70_000][..]] {
        let mut expected = BytesMut::new();
        reference_codec().encode(Bytes::copy_from_slice(payload), &mut expected).unwrap();
        assert_eq!(encode(payload).unwrap(), expected.to_vec());
    }
}

#[test]
fn decode_agrees_with_the_length_delimited_codec() {
    let mut stream = Vec::new();
    for payload in [&b"one"[..], &b""[..], &vec![3u8; 1000][..]] {
        stream.extend(encode(payload).unwrap());
    }
    let mut codec = reference_codec();
    let mut buffer = BytesMut::from(&stream[..]);
    let mut expected = Vec::new();
    while let Some(frame) = codec.decode(&mut buffer).unwrap() {
        expected.push(frame.to_vec());
    }
    assert_eq!(decode(&stream), (expected, None));
}

#[test]
fn oversize_agrees_with_the_length_delimited_codec() {
    let stream = header_for(MAX_FRAME_LENGTH as u32 + 1);
    let mut buffer = BytesMut::from(&stream[..]);
    assert!(reference_codec().decode(&mut buffer).is_err());
    assert_eq!(decode_frame(&stream), Err(ProtocolError::FrameTooLarge));
    let mut out = BytesMut::new();
    let big = Bytes::from(vec![0u8; MAX_FRAME_LENGTH + 1]);
    assert!(reference_codec().encode(big, &mut out).is_err());
}
