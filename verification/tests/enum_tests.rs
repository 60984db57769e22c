use tpm2_types::alg::{TpmAlgId, TpmEccCurve};
use tpm2_types::caps::{TpmCap, TpmPt, TpmPtPcr};
use tpm2_types::command::TpmCc;
use tpm2_types::rc::TpmRc;
use tpm2_types::tags::{TpmEo, TpmGenerated, TpmNt, TpmSe, TpmSt, TpmSu};

#[test]
fn construction_from_any_raw_integer_succeeds() {
    // known names and unknown values are built the same way
    assert_eq!(TpmAlgId::new(TpmAlgId::RSA).get(), 0x0001);
    assert_eq!(TpmAlgId::new(0x7F7F).get(), 0x7F7F);
    assert_eq!(TpmCc::new(0xFFFF_FFFF).get(), 0xFFFF_FFFF);
    assert_eq!(TpmSe::new(0xEE).get(), 0xEE);
}

#[test]
fn construction_is_idempotent_identity() {
    // an unknown value equals another built from the same integer
    assert_eq!(TpmAlgId::new(0x4242), TpmAlgId::new(0x4242));
    assert_eq!(TpmCc::new(0x12345678), TpmCc::new(0x12345678));
    assert_ne!(TpmAlgId::new(0x4242), TpmAlgId::new(0x4243));
}

#[test]
fn equality_goes_by_the_raw_integer() {
    let a = TpmSt::new(TpmSt::NO_SESSIONS);
    let b = TpmSt::new(0x8001);
    assert_eq!(a, b);
    assert_ne!(a, TpmSt::new(TpmSt::SESSIONS));
}

#[test]
fn ordering_matches_integer_ordering() {
    assert!(TpmAlgId::new(TpmAlgId::RSA) < TpmAlgId::new(TpmAlgId::SHA1));
    assert!(TpmAlgId::new(0x00FF) < TpmAlgId::new(0x0100));
    assert!(TpmCc::new(TpmCc::STARTUP) > TpmCc::new(TpmCc::SELF_TEST));
    assert_eq!(
        TpmSu::new(TpmSu::CLEAR).partial_cmp(&TpmSu::new(TpmSu::STATE)),
        Some(std::cmp::Ordering::Less)
    );
    assert_eq!(
        TpmSu::new(TpmSu::STATE).partial_cmp(&TpmSu::new(TpmSu::STATE)),
        Some(std::cmp::Ordering::Equal)
    );
}

#[test]
fn render_gives_the_known_name() {
    assert_eq!(TpmAlgId::new(TpmAlgId::SHA256).render(), "SHA256");
    assert_eq!(TpmCc::new(TpmCc::GET_RANDOM).render(), "GetRandom");
    assert_eq!(TpmRc::new(TpmRc::SUCCESS).render(), "Success");
    assert_eq!(TpmEo::new(TpmEo::UNSIGNED_GT).render(), "UnsignedGT");
    assert_eq!(TpmGenerated::new(TpmGenerated::VALUE).render(), "VALUE");
    assert_eq!(TpmEccCurve::new(TpmEccCurve::NIST_P256).render(), "NistP256");
    assert_eq!(TpmNt::new(TpmNt::COUNTER).render(), "Counter");
}

#[test]
fn render_of_unknown_value_keeps_the_bits_in_hex() {
    assert_eq!(TpmAlgId::new(0x4242).render(), "0x4242");
    assert_eq!(TpmSe::new(0x7F).render(), "0x7f");
    assert_eq!(TpmCc::new(0xDEADBEEF).render(), "0xdeadbeef");
    assert_eq!(TpmSt::new(0x0000).render(), "0x0000");
    assert_eq!(TpmCap::new(0x0000000B).render(), "0x0000000b");
}

#[test]
fn name_lookup_distinguishes_known_from_unknown() {
    assert_eq!(TpmAlgId::name_of(TpmAlgId::CAMELLIA), Some("Camellia"));
    assert_eq!(TpmAlgId::name_of(0x0002), None);
    assert_eq!(TpmPt::name_of(TpmPt::FAMILY_INDICATOR), Some("FamilyIndicator"));
    assert_eq!(TpmPtPcr::name_of(TpmPtPcr::SAVE), Some("Save"));
    assert_eq!(TpmPtPcr::name_of(0x00000020), None);
}

#[test]
fn default_is_the_zero_value() {
    assert_eq!(TpmAlgId::default().get(), 0);
    assert_eq!(TpmCc::default().get(), 0);
    assert_eq!(TpmSu::default().get(), 0);
    assert_eq!(TpmGenerated::default().get(), 0);
}

#[test]
fn return_codes_compose_base_offsets_and_deltas() {
    // format-zero errors sit at the version-one base
    assert_eq!(TpmRc::RC_VER_1, 0x100);
    assert_eq!(TpmRc::INITIALIZE, 0x100);
    assert_eq!(TpmRc::FAILURE, 0x101);
    assert_eq!(TpmRc::SENSITIVE, 0x155);
    // format-one errors sit at their own base
    assert_eq!(TpmRc::RC_FMT_1, 0x080);
    assert_eq!(TpmRc::C_ASYMMETRIC, 0x081);
    assert_eq!(TpmRc::ECC_POINT, 0x0A7);
    // warnings sit at the warning base
    assert_eq!(TpmRc::RC_WARN, 0x900);
    assert_eq!(TpmRc::CONTEXT_GAP, 0x901);
    assert_eq!(TpmRc::NV_UNAVAILABLE, 0x923);
}

#[test]
fn return_codes_classify_by_base_range() {
    // a caller sorts a code by the base range it falls in
    assert!(TpmRc::RC_FMT_1 <= TpmRc::HANDLE && TpmRc::HANDLE < TpmRc::RC_VER_1);
    assert!(TpmRc::RC_VER_1 <= TpmRc::SENSITIVE && TpmRc::SENSITIVE < TpmRc::RC_WARN);
    assert!(TpmRc::RC_WARN <= TpmRc::LOCKOUT);
}

#[test]
fn named_values_match_the_published_tables() {
    assert_eq!(TpmAlgId::SHA512, 0x000D);
    assert_eq!(TpmAlgId::NULL, 0x0010);
    assert_eq!(TpmEccCurve::SM2_P256, 0x0020);
    assert_eq!(TpmCc::NV_UNDEFINE_SPACE_SPECIAL, 0x0000_011F);
    assert_eq!(TpmCc::ACT_SET_TIMEOUT, 0x0000_0198);
    assert_eq!(TpmSt::RSP_COMMAND, 0x00C4);
    assert_eq!(TpmSt::FU_MANIFEST, 0x8029);
    assert_eq!(TpmSu::CLEAR, 0x0000);
    assert_eq!(TpmSu::STATE, 0x0001);
    assert_eq!(TpmSe::HMAC, 0x00);
    assert_eq!(TpmSe::POLICY, 0x01);
    assert_eq!(TpmSe::TRIAL, 0x03);
    assert_eq!(TpmCap::ACT, 0x0000_000A);
    assert_eq!(TpmPt::AUDIT_COUNTER1, 0x0000_0214);
    assert_eq!(TpmPtPcr::AUTH, 0x0000_0014);
    assert_eq!(TpmNt::PIN_PASS, 0x9);
    assert_eq!(TpmGenerated::VALUE, 0xFF54_4347);
}

#[test]
fn sizing_constants_hold_their_derived_values() {
    assert_eq!(tpm2_types::TPM2_PRIVATE_VENDOR_SPECIFIC_BYTES, (512 / 2) * 5);
    assert_eq!(tpm2_types::TPM2_MAX_ACTIVE_SESSIONS, 64);
    assert_eq!(tpm2_types::TPM2_SHA256_DIGEST_SIZE, 32);
    assert_eq!(tpm2_types::TPM2_MAX_RSA_KEY_BYTES, 512);
}
