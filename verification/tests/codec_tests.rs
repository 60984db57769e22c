use tpm2_types::alg::TpmAlgId;
use tpm2_types::codec::{read_be_u16, read_be_u32, read_u8, ByteSink, CodecError};
use tpm2_types::command::TpmCc;
use tpm2_types::tags::TpmSe;

#[test]
fn marshal_is_big_endian_at_declared_width() {
    let mut sink = ByteSink::new(16);
    TpmAlgId::new(TpmAlgId::SHA256).marshal(&mut sink).unwrap();
    TpmCc::new(TpmCc::GET_RANDOM).marshal(&mut sink).unwrap();
    TpmSe::new(TpmSe::TRIAL).marshal(&mut sink).unwrap();
    assert_eq!(
        sink.into_vec(),
        vec![0x00, 0x0B, 0x00, 0x00, 0x01, 0x7B, 0x03]
    );
}

#[test]
fn round_trip_known_value_u16() {
    let v = TpmAlgId::new(TpmAlgId::SHA384);
    let mut sink = ByteSink::new(2);
    v.marshal(&mut sink).unwrap();
    let bytes = sink.into_vec();
    let (back, next) = TpmAlgId::unmarshal(&bytes, 0).unwrap();
    assert_eq!(back, v);
    assert_eq!(next, 2);
}

#[test]
fn round_trip_unknown_value_u16() {
    let v = TpmAlgId::new(0xBEEF);
    let mut sink = ByteSink::new(2);
    v.marshal(&mut sink).unwrap();
    let bytes = sink.into_vec();
    assert_eq!(bytes, vec![0xBE, 0xEF]);
    let (back, _) = TpmAlgId::unmarshal(&bytes, 0).unwrap();
    assert_eq!(back, v);
    assert_eq!(back.get(), 0xBEEF);
}

#[test]
fn round_trip_unknown_value_u32() {
    let v = TpmCc::new(0xDEADBEEF);
    let mut sink = ByteSink::new(4);
    v.marshal(&mut sink).unwrap();
    let bytes = sink.into_vec();
    assert_eq!(bytes, vec![0xDE, 0xAD, 0xBE, 0xEF]);
    let (back, next) = TpmCc::unmarshal(&bytes, 0).unwrap();
    assert_eq!(back, v);
    assert_eq!(next, 4);
}

#[test]
fn round_trip_unknown_value_u8() {
    let v = TpmSe::new(0x7F);
    let mut sink = ByteSink::new(1);
    v.marshal(&mut sink).unwrap();
    let bytes = sink.into_vec();
    assert_eq!(bytes, vec![0x7F]);
    let (back, _) = TpmSe::unmarshal(&bytes, 0).unwrap();
    assert_eq!(back, v);
}

#[test]
fn round_trip_every_byte_value() {
    for raw in 0..=0xFFu8 {
        let v = TpmSe::new(raw);
        let mut sink = ByteSink::new(1);
        v.marshal(&mut sink).unwrap();
        let (back, _) = TpmSe::unmarshal(&sink.into_vec(), 0).unwrap();
        assert_eq!(back, v);
    }
}

#[test]
fn truncated_decode_of_32_bit_value_from_3_bytes() {
    let bytes = vec![0x00, 0x00, 0x01];
    assert_eq!(TpmCc::unmarshal(&bytes, 0), Err(CodecError::Truncated));
}

#[test]
fn truncated_decode_from_empty_source() {
    let bytes: Vec<u8> = Vec::new();
    assert_eq!(TpmSe::unmarshal(&bytes, 0), Err(CodecError::Truncated));
    assert_eq!(TpmAlgId::unmarshal(&bytes, 0), Err(CodecError::Truncated));
    assert_eq!(TpmCc::unmarshal(&bytes, 0), Err(CodecError::Truncated));
}

#[test]
fn truncated_decode_past_the_end() {
    let bytes = vec![0x00, 0x0B, 0x00];
    assert!(TpmAlgId::unmarshal(&bytes, 0).is_ok());
    assert_eq!(TpmAlgId::unmarshal(&bytes, 2), Err(CodecError::Truncated));
    assert_eq!(TpmAlgId::unmarshal(&bytes, 3), Err(CodecError::Truncated));
}

#[test]
fn sink_exhaustion_is_reported_and_leaves_output_intact() {
    let mut sink = ByteSink::new(3);
    TpmAlgId::new(TpmAlgId::SHA1).marshal(&mut sink).unwrap();
    // only one byte left: a 16-bit write must fail whole
    assert_eq!(
        TpmAlgId::new(TpmAlgId::SHA512).marshal(&mut sink),
        Err(CodecError::BufferTooSmall)
    );
    assert_eq!(sink.len(), 2);
    assert_eq!(sink.remaining(), 1);
    assert_eq!(sink.into_vec(), vec![0x00, 0x04]);
}

#[test]
fn sink_with_no_room_rejects_even_one_byte() {
    let mut sink = ByteSink::new(0);
    assert_eq!(
        TpmSe::new(TpmSe::HMAC).marshal(&mut sink),
        Err(CodecError::BufferTooSmall)
    );
    assert_eq!(sink.len(), 0);
}

#[test]
fn stream_of_values_unmarshals_by_offset() {
    let mut sink = ByteSink::new(6);
    TpmAlgId::new(TpmAlgId::RSA).marshal(&mut sink).unwrap();
    TpmCc::new(TpmCc::STARTUP).marshal(&mut sink).unwrap();
    let bytes = sink.into_vec();
    let (a, next) = TpmAlgId::unmarshal(&bytes, 0).unwrap();
    let (b, end) = TpmCc::unmarshal(&bytes, next).unwrap();
    assert_eq!(a.get(), TpmAlgId::RSA);
    assert_eq!(b.get(), TpmCc::STARTUP);
    assert_eq!(end, 6);
}

#[test]
fn raw_readers_report_truncation_not_zero_fill() {
    let bytes = vec![0xAB];
    assert_eq!(read_u8(&bytes, 0), Ok((0xAB, 1)));
    assert_eq!(read_u8(&bytes, 1), Err(CodecError::Truncated));
    assert_eq!(read_be_u16(&bytes, 0), Err(CodecError::Truncated));
    assert_eq!(read_be_u32(&bytes, 0), Err(CodecError::Truncated));
}
