use tpm2_types::codec::{ByteSink, CodecError};
use tpm2_types::handles::{TpmHandle, TpmHc, TpmHt};

#[test]
fn tag_and_index_recompose_any_handle() {
    for h in [
        0x0000_0000u32,
        0x0200_003Fu32,
        0x8100_0000u32,
        0xDEAD_BEEFu32,
        0xFFFF_FFFFu32,
    ] {
        let tag = TpmHc::extract_tag(h);
        let index = TpmHc::extract_index(h);
        assert_eq!(((tag as u32) << 24) | index, h);
        assert_eq!(TpmHc::compose(tag, index), h);
    }
}

#[test]
fn tag_is_the_top_byte_and_index_the_low_24_bits() {
    assert_eq!(TpmHc::extract_tag(0x8112_3456), 0x81);
    assert_eq!(TpmHc::extract_index(0x8112_3456), 0x0012_3456);
    assert_eq!(TpmHc::extract_tag(0x0000_0001), 0x00);
    assert_eq!(TpmHc::extract_index(0xFF00_0000), 0);
}

#[test]
fn range_base_puts_the_tag_in_the_top_byte() {
    assert_eq!(TpmHc::new(TpmHt::new(TpmHt::PCR)).get(), 0x0000_0000);
    assert_eq!(TpmHc::new(TpmHt::new(TpmHt::NV_INDEX)).get(), 0x0100_0000);
    assert_eq!(TpmHc::new(TpmHt::new(TpmHt::HMAC_SESSION)).get(), 0x0200_0000);
    assert_eq!(TpmHc::new(TpmHt::new(TpmHt::POLICY_SESSION)).get(), 0x0300_0000);
    assert_eq!(TpmHc::new(TpmHt::new(TpmHt::TRANSIENT)).get(), 0x8000_0000);
    assert_eq!(TpmHc::new(TpmHt::new(TpmHt::PERSISTENT)).get(), 0x8100_0000);
}

#[test]
fn hmac_session_range_boundaries() {
    // tag 0x02 and 64 active sessions: 0x02000000 through 0x0200003F
    assert_eq!(TpmHt::HMAC_SESSION, 0x02);
    assert_eq!(tpm2_types::TPM2_MAX_ACTIVE_SESSIONS, 64);
    assert_eq!(TpmHc::HMAC_SESSION_FIRST, 0x0200_0000);
    assert_eq!(TpmHc::HMAC_SESSION_LAST, 0x0200_003F);
    assert!(TpmHc::is_hmac_session(0x0200_0000));
    assert!(TpmHc::is_hmac_session(0x0200_003F));
    assert!(!TpmHc::is_hmac_session(0x0200_0040));
    assert!(!TpmHc::is_hmac_session(0x01FF_FFFF));
    assert!(!TpmHc::is_hmac_session(0x0300_0000));
}

#[test]
fn policy_session_range_boundaries() {
    assert_eq!(TpmHc::POLICY_SESSION_FIRST, 0x0300_0000);
    assert_eq!(TpmHc::POLICY_SESSION_LAST, 0x0300_003F);
    assert!(TpmHc::is_policy_session(0x0300_0000));
    assert!(TpmHc::is_policy_session(0x0300_003F));
    assert!(!TpmHc::is_policy_session(0x0300_0040));
    assert!(!TpmHc::is_policy_session(0x02FF_FFFF));
}

#[test]
fn persistent_range_spans_the_full_24_bit_space() {
    // tag 0x81: 0x81000000 through 0x81FFFFFF inclusive
    assert_eq!(TpmHt::PERSISTENT, 0x81);
    assert_eq!(TpmHc::PERSISTENT_FIRST, 0x8100_0000);
    assert_eq!(TpmHc::PERSISTENT_LAST, 0x81FF_FFFF);
    assert!(TpmHc::in_range(
        0x8100_0000,
        TpmHc::PERSISTENT_FIRST,
        TpmHc::PERSISTENT_LAST
    ));
    assert!(TpmHc::in_range(
        0x81FF_FFFF,
        TpmHc::PERSISTENT_FIRST,
        TpmHc::PERSISTENT_LAST
    ));
    assert!(!TpmHc::in_range(
        0x80FF_FFFF,
        TpmHc::PERSISTENT_FIRST,
        TpmHc::PERSISTENT_LAST
    ));
    assert!(!TpmHc::in_range(
        0x8200_0000,
        TpmHc::PERSISTENT_FIRST,
        TpmHc::PERSISTENT_LAST
    ));
}

#[test]
fn nv_index_range_boundaries() {
    assert_eq!(TpmHc::NV_INDEX_FIRST, 0x0100_0000);
    assert_eq!(TpmHc::NV_INDEX_LAST, 0x01FF_FFFF);
    assert!(TpmHc::is_nv_index(0x0100_0000));
    assert!(TpmHc::is_nv_index(0x01FF_FFFF));
    assert!(!TpmHc::is_nv_index(0x00FF_FFFF));
    assert!(!TpmHc::is_nv_index(0x0200_0000));
}

#[test]
fn range_end_computation() {
    assert_eq!(TpmHc::bounded_range_last(0x0200_0000, 64), 0x0200_003F);
    assert_eq!(TpmHc::bounded_range_last(0x0300_0000, 1), 0x0300_0000);
    assert_eq!(TpmHc::full_range_last(0x8100_0000), 0x81FF_FFFF);
    assert_eq!(TpmHc::full_range_last(0x0100_0000), 0x01FF_FFFF);
}

#[test]
fn range_membership_is_a_closed_interval() {
    assert!(TpmHc::in_range(5, 5, 9));
    assert!(TpmHc::in_range(9, 5, 9));
    assert!(TpmHc::in_range(7, 5, 9));
    assert!(!TpmHc::in_range(4, 5, 9));
    assert!(!TpmHc::in_range(10, 5, 9));
    // a range of one handle
    assert!(TpmHc::in_range(5, 5, 5));
}

#[test]
fn pcr_select_byte_count_rounds_up() {
    // one selection bit per PCR: 32 PCRs need ceil(32 / 8) == 4 bytes
    assert_eq!(tpm2_types::TPM2_MAX_PCRS, 32);
    assert_eq!(tpm2_types::TPM2_PCR_SELECT_MAX, 4);
}

#[test]
fn permanent_handles_hold_their_published_values() {
    assert_eq!(TpmHandle::RH_OWNER, 0x4000_0001);
    assert_eq!(TpmHandle::RH_NULL, 0x4000_0007);
    assert_eq!(TpmHandle::RSPW, 0x4000_0009);
    assert_eq!(TpmHandle::RH_LOCKOUT, 0x4000_000A);
    assert_eq!(TpmHandle::RH_ENDORSEMENT, 0x4000_000B);
    assert_eq!(TpmHandle::RH_PLATFORM, 0x4000_000C);
    assert_eq!(TpmHandle::RH_PLATFORM_NV, 0x4000_000D);
    assert_eq!(TpmHc::extract_tag(TpmHandle::RH_OWNER), TpmHt::PERMANENT);
}

#[test]
fn handle_constants_marshal_and_round_trip() {
    let h = TpmHc::new(TpmHt::new(TpmHt::PERSISTENT));
    let mut sink = ByteSink::new(4);
    h.marshal(&mut sink).unwrap();
    let bytes = sink.into_vec();
    assert_eq!(bytes, vec![0x81, 0x00, 0x00, 0x00]);
    let (back, next) = TpmHc::unmarshal(&bytes, 0).unwrap();
    assert_eq!(back, h);
    assert_eq!(next, 4);
    let short = vec![0x81, 0x00, 0x00];
    assert_eq!(TpmHc::unmarshal(&short, 0), Err(CodecError::Truncated));
}

#[test]
fn handle_type_renders_like_any_open_enumeration() {
    assert_eq!(TpmHt::new(TpmHt::PERSISTENT).render(), "Persistent");
    assert_eq!(TpmHt::new(0x42).render(), "0x42");
    assert_eq!(TpmHandle::new(TpmHandle::RH_OWNER).render(), "RHOwner");
    assert_eq!(TpmHandle::new(0x4000_00FF).render(), "0x400000ff");
}
