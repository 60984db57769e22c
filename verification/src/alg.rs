//! Algorithm and ECC curve identifiers.
use crate::codec::{ByteSink, CodecError, lemma_be_round_trip16, read_be_u16, spec_be_bytes16, spec_be_value16};
use crate::hex::{render_hex, spec_hex_render};
use vstd::prelude::*;
use vstd::std_specs::cmp::PartialOrdSpec;
use vstd::string::StringExecFns;

verus! {

/// TpmAlgId represents a TPM_ALG_ID, an algorithm identifier.
/// See definition in Part 2: Structures, section 6.3.
///
/// An open enumeration: one variant carrying the raw backing integer, so
/// every 16-bit value is legal whether or not it matches a known name.
#[derive(Clone, Copy, Debug, PartialEq, Eq, Structural)]
pub enum TpmAlgId {
    /// The raw backing integer.
    Value(u16),
}

impl TpmAlgId {
    /// `RSA`.
    pub const RSA: u16 = 0x0001;

    /// `TDES`.
    pub const TDES: u16 = 0x0003;

    /// `SHA1`.
    pub const SHA1: u16 = 0x0004;

    /// `HMAC`.
    pub const HMAC: u16 = 0x0005;

    /// `AES`.
    pub const AES: u16 = 0x0006;

    /// `MGF1`.
    pub const MGF1: u16 = 0x0007;

    /// `KeyedHash`.
    pub const KEYED_HASH: u16 = 0x0008;

    /// `XOR`.
    pub const XOR: u16 = 0x000A;

    /// `SHA256`.
    pub const SHA256: u16 = 0x000B;

    /// `SHA384`.
    pub const SHA384: u16 = 0x000C;

    /// `SHA512`.
    pub const SHA512: u16 = 0x000D;

    /// `Null`.
    pub const NULL: u16 = 0x0010;

    /// `SM3256`.
    pub const SM3256: u16 = 0x0012;

    /// `SM4`.
    pub const SM4: u16 = 0x0013;

    /// `RSASSA`.
    pub const RSASSA: u16 = 0x0014;

    /// `RSAES`.
    pub const RSAES: u16 = 0x0015;

    /// `RSAPSS`.
    pub const RSAPSS: u16 = 0x0016;

    /// `OAEP`.
    pub const OAEP: u16 = 0x0017;

    /// `ECDSA`.
    pub const ECDSA: u16 = 0x0018;

    /// `ECDH`.
    pub const ECDH: u16 = 0x0019;

    /// `ECDAA`.
    pub const ECDAA: u16 = 0x001A;

    /// `SM2`.
    pub const SM2: u16 = 0x001B;

    /// `ECSchnorr`.
    pub const EC_SCHNORR: u16 = 0x001C;

    /// `ECMQV`.
    pub const ECMQV: u16 = 0x001D;

    /// `KDF1SP80056A`.
    pub const KDF1_SP80056_A: u16 = 0x0020;

    /// `KDF2`.
    pub const KDF2: u16 = 0x0021;

    /// `KDF1SP800108`.
    pub const KDF1_SP800108: u16 = 0x0022;

    /// `ECC`.
    pub const ECC: u16 = 0x0023;

    /// `SymCipher`.
    pub const SYM_CIPHER: u16 = 0x0025;

    /// `Camellia`.
    pub const CAMELLIA: u16 = 0x0026;

    /// `SHA3256`.
    pub const SHA3256: u16 = 0x0027;

    /// `SHA3384`.
    pub const SHA3384: u16 = 0x0028;

    /// `SHA3512`.
    pub const SHA3512: u16 = 0x0029;

    /// `CMAC`.
    pub const CMAC: u16 = 0x003F;

    /// `CTR`.
    pub const CTR: u16 = 0x0040;

    /// `OFB`.
    pub const OFB: u16 = 0x0041;

    /// `CBC`.
    pub const CBC: u16 = 0x0042;

    /// `CFB`.
    pub const CFB: u16 = 0x0043;

    /// `ECB`.
    pub const ECB: u16 = 0x0044;

    /// Builds the value carrying `value`, named or not: the enumeration is
    /// open, so every 16-bit integer is a legal value.
    pub fn new(value: u16) -> (r: TpmAlgId)
        ensures
            r->0 == value,
    {
        TpmAlgId::Value(value)
    }

    /// The raw backing integer.
    pub fn get(&self) -> (r: u16)
        ensures
            r == self->0,
    {
        match *self {
            TpmAlgId::Value(v) => v,
        }
    }

    /// Whether `value` matches one of the named constants.
    pub open spec fn known(value: u16) -> bool {
        ||| value == TpmAlgId::RSA
        ||| value == TpmAlgId::TDES
        ||| value == TpmAlgId::SHA1
        ||| value == TpmAlgId::HMAC
        ||| value == TpmAlgId::AES
        ||| value == TpmAlgId::MGF1
        ||| value == TpmAlgId::KEYED_HASH
        ||| value == TpmAlgId::XOR
        ||| value == TpmAlgId::SHA256
        ||| value == TpmAlgId::SHA384
        ||| value == TpmAlgId::SHA512
        ||| value == TpmAlgId::NULL
        ||| value == TpmAlgId::SM3256
        ||| value == TpmAlgId::SM4
        ||| value == TpmAlgId::RSASSA
        ||| value == TpmAlgId::RSAES
        ||| value == TpmAlgId::RSAPSS
        ||| value == TpmAlgId::OAEP
        ||| value == TpmAlgId::ECDSA
        ||| value == TpmAlgId::ECDH
        ||| value == TpmAlgId::ECDAA
        ||| value == TpmAlgId::SM2
        ||| value == TpmAlgId::EC_SCHNORR
        ||| value == TpmAlgId::ECMQV
        ||| value == TpmAlgId::KDF1_SP80056_A
        ||| value == TpmAlgId::KDF2
        ||| value == TpmAlgId::KDF1_SP800108
        ||| value == TpmAlgId::ECC
        ||| value == TpmAlgId::SYM_CIPHER
        ||| value == TpmAlgId::CAMELLIA
        ||| value == TpmAlgId::SHA3256
        ||| value == TpmAlgId::SHA3384
        ||| value == TpmAlgId::SHA3512
        ||| value == TpmAlgId::CMAC
        ||| value == TpmAlgId::CTR
        ||| value == TpmAlgId::OFB
        ||| value == TpmAlgId::CBC
        ||| value == TpmAlgId::CFB
        ||| value == TpmAlgId::ECB
    }

    /// The name `value` matches, if any.
    pub fn name_of(value: u16) -> (r: Option<&'static str>)
        ensures
            r is Some <==> TpmAlgId::known(value),
    {
        if value == TpmAlgId::RSA {
            Option::Some("RSA")
        } else if value == TpmAlgId::TDES {
            Option::Some("TDES")
        } else if value == TpmAlgId::SHA1 {
            Option::Some("SHA1")
        } else if value == TpmAlgId::HMAC {
            Option::Some("HMAC")
        } else if value == TpmAlgId::AES {
            Option::Some("AES")
        } else if value == TpmAlgId::MGF1 {
            Option::Some("MGF1")
        } else if value == TpmAlgId::KEYED_HASH {
            Option::Some("KeyedHash")
        } else if value == TpmAlgId::XOR {
            Option::Some("XOR")
        } else if value == TpmAlgId::SHA256 {
            Option::Some("SHA256")
        } else if value == TpmAlgId::SHA384 {
            Option::Some("SHA384")
        } else if value == TpmAlgId::SHA512 {
            Option::Some("SHA512")
        } else if value == TpmAlgId::NULL {
            Option::Some("Null")
        } else if value == TpmAlgId::SM3256 {
            Option::Some("SM3256")
        } else if value == TpmAlgId::SM4 {
            Option::Some("SM4")
        } else if value == TpmAlgId::RSASSA {
            Option::Some("RSASSA")
        } else if value == TpmAlgId::RSAES {
            Option::Some("RSAES")
        } else if value == TpmAlgId::RSAPSS {
            Option::Some("RSAPSS")
        } else if value == TpmAlgId::OAEP {
            Option::Some("OAEP")
        } else if value == TpmAlgId::ECDSA {
            Option::Some("ECDSA")
        } else if value == TpmAlgId::ECDH {
            Option::Some("ECDH")
        } else if value == TpmAlgId::ECDAA {
            Option::Some("ECDAA")
        } else if value == TpmAlgId::SM2 {
            Option::Some("SM2")
        } else if value == TpmAlgId::EC_SCHNORR {
            Option::Some("ECSchnorr")
        } else if value == TpmAlgId::ECMQV {
            Option::Some("ECMQV")
        } else if value == TpmAlgId::KDF1_SP80056_A {
            Option::Some("KDF1SP80056A")
        } else if value == TpmAlgId::KDF2 {
            Option::Some("KDF2")
        } else if value == TpmAlgId::KDF1_SP800108 {
            Option::Some("KDF1SP800108")
        } else if value == TpmAlgId::ECC {
            Option::Some("ECC")
        } else if value == TpmAlgId::SYM_CIPHER {
            Option::Some("SymCipher")
        } else if value == TpmAlgId::CAMELLIA {
            Option::Some("Camellia")
        } else if value == TpmAlgId::SHA3256 {
            Option::Some("SHA3256")
        } else if value == TpmAlgId::SHA3384 {
            Option::Some("SHA3384")
        } else if value == TpmAlgId::SHA3512 {
            Option::Some("SHA3512")
        } else if value == TpmAlgId::CMAC {
            Option::Some("CMAC")
        } else if value == TpmAlgId::CTR {
            Option::Some("CTR")
        } else if value == TpmAlgId::OFB {
            Option::Some("OFB")
        } else if value == TpmAlgId::CBC {
            Option::Some("CBC")
        } else if value == TpmAlgId::CFB {
            Option::Some("CFB")
        } else if value == TpmAlgId::ECB {
            Option::Some("ECB")
        } else {
            Option::None
        }
    }

    /// Renders the known name, or the raw integer as a hexadecimal literal:
    /// diagnostics never fail, and an unknown value keeps its exact bits.
    pub fn render(&self) -> (s: String)
        ensures
            !TpmAlgId::known(self->0) ==> s@ == spec_hex_render(self->0 as u32, 4),
    {
        let v = self.get();
        match TpmAlgId::name_of(v) {
            Option::Some(n) => String::from_str(n),
            Option::None => render_hex(v as u32, 4),
        }
    }

    /// Writes the raw integer big-endian at the enumeration's 16-bit width;
    /// the only failure is a sink without room for the whole integer, which
    /// leaves the sink unchanged.
    pub fn marshal(&self, sink: &mut ByteSink) -> (r: Result<(), CodecError>)
        ensures
            final(sink).capacity == old(sink).capacity,
            old(sink).spec_remaining() >= 2 ==> r == Ok::<(), CodecError>(())
                && final(sink).data@ == old(sink).data@ + spec_be_bytes16(self->0),
            old(sink).spec_remaining() < 2 ==> r == Err::<(), CodecError>(
                CodecError::BufferTooSmall,
            ) && final(sink).data@ == old(sink).data@,
    {
        sink.write_be_u16(self.get())
    }

    /// Reads a big-endian 16-bit integer at `offset` and builds the value
    /// from it, recognized or not; the only failure is a source holding fewer
    /// bytes than the width asks for.
    pub fn unmarshal(buf: &[u8], offset: usize) -> (r: Result<(TpmAlgId, usize), CodecError>)
        ensures
            offset + 2 <= buf@.len() ==> r == Ok::<(TpmAlgId, usize), CodecError>(
                (TpmAlgId::Value(spec_be_value16(buf@.subrange(offset as int, offset + 2))), (
                offset + 2) as usize),
            ),
            offset + 2 > buf@.len() ==> r == Err::<(TpmAlgId, usize), CodecError>(
                CodecError::Truncated,
            ),
    {
        match read_be_u16(buf, offset) {
            Ok((v, next)) => Ok((TpmAlgId::Value(v), next)),
            Err(e) => Err(e),
        }
    }
}

impl Default for TpmAlgId {
    /// The zero value, as for the derived `Default` of a plain integer.
    fn default() -> (r: Self)
        ensures
            r->0 == 0,
    {
        TpmAlgId::Value(0)
    }
}

impl PartialOrd for TpmAlgId {
    fn partial_cmp(&self, other: &Self) -> (r: Option<core::cmp::Ordering>) {
        let a = self.get();
        let b = other.get();
        if a < b {
            Option::Some(core::cmp::Ordering::Less)
        } else if a == b {
            Option::Some(core::cmp::Ordering::Equal)
        } else {
            Option::Some(core::cmp::Ordering::Greater)
        }
    }
}

impl vstd::std_specs::cmp::PartialOrdSpecImpl for TpmAlgId {
    open spec fn obeys_partial_cmp_spec() -> bool {
        true
    }

    open spec fn partial_cmp_spec(&self, other: &Self) -> Option<core::cmp::Ordering> {
        if self->0 < other->0 {
            Option::Some(core::cmp::Ordering::Less)
        } else if self->0 == other->0 {
            Option::Some(core::cmp::Ordering::Equal)
        } else {
            Option::Some(core::cmp::Ordering::Greater)
        }
    }
}

/// Equality and ordering of `TpmAlgId` go by the raw integer alone: values built
/// from raw integers are equal exactly when the integers are, and compare as
/// the integers do. In particular a value built from an integer matching no
/// known name is a legal value, equal to every value built from the same
/// integer.
pub proof fn lemma_tpm_alg_id_raw_semantics(x: u16, y: u16)
    ensures
        (TpmAlgId::Value(x) == TpmAlgId::Value(y)) <==> x == y,
        TpmAlgId::Value(x).partial_cmp_spec(&TpmAlgId::Value(y)) == x.partial_cmp_spec(&y),
{
}

/// Round trip through the wire encoding: a `TpmAlgId` built from any raw
/// integer of the enumeration's width, marshaled big-endian and unmarshaled
/// again, is the same value.
pub proof fn lemma_tpm_alg_id_round_trip(v: u16)
    ensures
        TpmAlgId::Value(spec_be_value16(spec_be_bytes16(v))) == TpmAlgId::Value(v),
{
    lemma_be_round_trip16(v);
}

/// TpmEccCurve represents a TPM_ECC_CURVE, an ECC curve identifier.
/// See definition in Part 2: Structures, section 6.4.
///
/// An open enumeration: one variant carrying the raw backing integer, so
/// every 16-bit value is legal whether or not it matches a known name.
#[derive(Clone, Copy, Debug, PartialEq, Eq, Structural)]
pub enum TpmEccCurve {
    /// The raw backing integer.
    Value(u16),
}

impl TpmEccCurve {
    /// `None`.
    pub const NONE: u16 = 0x0000;

    /// `NistP192`.
    pub const NIST_P192: u16 = 0x0001;

    /// `NistP224`.
    pub const NIST_P224: u16 = 0x0002;

    /// `NistP256`.
    pub const NIST_P256: u16 = 0x0003;

    /// `NistP384`.
    pub const NIST_P384: u16 = 0x0004;

    /// `NistP521`.
    pub const NIST_P521: u16 = 0x0005;

    /// `BNP256`.
    pub const BNP256: u16 = 0x0010;

    /// `BNP638`.
    pub const BNP638: u16 = 0x0011;

    /// `SM2P256`.
    pub const SM2_P256: u16 = 0x0020;

    /// Builds the value carrying `value`, named or not: the enumeration is
    /// open, so every 16-bit integer is a legal value.
    pub fn new(value: u16) -> (r: TpmEccCurve)
        ensures
            r->0 == value,
    {
        TpmEccCurve::Value(value)
    }

    /// The raw backing integer.
    pub fn get(&self) -> (r: u16)
        ensures
            r == self->0,
    {
        match *self {
            TpmEccCurve::Value(v) => v,
        }
    }

    /// Whether `value` matches one of the named constants.
    pub open spec fn known(value: u16) -> bool {
        ||| value == TpmEccCurve::NONE
        ||| value == TpmEccCurve::NIST_P192
        ||| value == TpmEccCurve::NIST_P224
        ||| value == TpmEccCurve::NIST_P256
        ||| value == TpmEccCurve::NIST_P384
        ||| value == TpmEccCurve::NIST_P521
        ||| value == TpmEccCurve::BNP256
        ||| value == TpmEccCurve::BNP638
        ||| value == TpmEccCurve::SM2_P256
    }

    /// The name `value` matches, if any.
    pub fn name_of(value: u16) -> (r: Option<&'static str>)
        ensures
            r is Some <==> TpmEccCurve::known(value),
    {
        if value == TpmEccCurve::NONE {
            Option::Some("None")
        } else if value == TpmEccCurve::NIST_P192 {
            Option::Some("NistP192")
        } else if value == TpmEccCurve::NIST_P224 {
            Option::Some("NistP224")
        } else if value == TpmEccCurve::NIST_P256 {
            Option::Some("NistP256")
        } else if value == TpmEccCurve::NIST_P384 {
            Option::Some("NistP384")
        } else if value == TpmEccCurve::NIST_P521 {
            Option::Some("NistP521")
        } else if value == TpmEccCurve::BNP256 {
            Option::Some("BNP256")
        } else if value == TpmEccCurve::BNP638 {
            Option::Some("BNP638")
        } else if value == TpmEccCurve::SM2_P256 {
            Option::Some("SM2P256")
        } else {
            Option::None
        }
    }

    /// Renders the known name, or the raw integer as a hexadecimal literal:
    /// diagnostics never fail, and an unknown value keeps its exact bits.
    pub fn render(&self) -> (s: String)
        ensures
            !TpmEccCurve::known(self->0) ==> s@ == spec_hex_render(self->0 as u32, 4),
    {
        let v = self.get();
        match TpmEccCurve::name_of(v) {
            Option::Some(n) => String::from_str(n),
            Option::None => render_hex(v as u32, 4),
        }
    }

    /// Writes the raw integer big-endian at the enumeration's 16-bit width;
    /// the only failure is a sink without room for the whole integer, which
    /// leaves the sink unchanged.
    pub fn marshal(&self, sink: &mut ByteSink) -> (r: Result<(), CodecError>)
        ensures
            final(sink).capacity == old(sink).capacity,
            old(sink).spec_remaining() >= 2 ==> r == Ok::<(), CodecError>(())
                && final(sink).data@ == old(sink).data@ + spec_be_bytes16(self->0),
            old(sink).spec_remaining() < 2 ==> r == Err::<(), CodecError>(
                CodecError::BufferTooSmall,
            ) && final(sink).data@ == old(sink).data@,
    {
        sink.write_be_u16(self.get())
    }

    /// Reads a big-endian 16-bit integer at `offset` and builds the value
    /// from it, recognized or not; the only failure is a source holding fewer
    /// bytes than the width asks for.
    pub fn unmarshal(buf: &[u8], offset: usize) -> (r: Result<(TpmEccCurve, usize), CodecError>)
        ensures
            offset + 2 <= buf@.len() ==> r == Ok::<(TpmEccCurve, usize), CodecError>(
                (TpmEccCurve::Value(spec_be_value16(buf@.subrange(offset as int, offset + 2))), (
                offset + 2) as usize),
            ),
            offset + 2 > buf@.len() ==> r == Err::<(TpmEccCurve, usize), CodecError>(
                CodecError::Truncated,
            ),
    {
        match read_be_u16(buf, offset) {
            Ok((v, next)) => Ok((TpmEccCurve::Value(v), next)),
            Err(e) => Err(e),
        }
    }
}

impl Default for TpmEccCurve {
    /// The zero value, as for the derived `Default` of a plain integer.
    fn default() -> (r: Self)
        ensures
            r->0 == 0,
    {
        TpmEccCurve::Value(0)
    }
}

impl PartialOrd for TpmEccCurve {
    fn partial_cmp(&self, other: &Self) -> (r: Option<core::cmp::Ordering>) {
        let a = self.get();
        let b = other.get();
        if a < b {
            Option::Some(core::cmp::Ordering::Less)
        } else if a == b {
            Option::Some(core::cmp::Ordering::Equal)
        } else {
            Option::Some(core::cmp::Ordering::Greater)
        }
    }
}

impl vstd::std_specs::cmp::PartialOrdSpecImpl for TpmEccCurve {
    open spec fn obeys_partial_cmp_spec() -> bool {
        true
    }

    open spec fn partial_cmp_spec(&self, other: &Self) -> Option<core::cmp::Ordering> {
        if self->0 < other->0 {
            Option::Some(core::cmp::Ordering::Less)
        } else if self->0 == other->0 {
            Option::Some(core::cmp::Ordering::Equal)
        } else {
            Option::Some(core::cmp::Ordering::Greater)
        }
    }
}

/// Equality and ordering of `TpmEccCurve` go by the raw integer alone: values built
/// from raw integers are equal exactly when the integers are, and compare as
/// the integers do. In particular a value built from an integer matching no
/// known name is a legal value, equal to every value built from the same
/// integer.
pub proof fn lemma_tpm_ecc_curve_raw_semantics(x: u16, y: u16)
    ensures
        (TpmEccCurve::Value(x) == TpmEccCurve::Value(y)) <==> x == y,
        TpmEccCurve::Value(x).partial_cmp_spec(&TpmEccCurve::Value(y)) == x.partial_cmp_spec(&y),
{
}

/// Round trip through the wire encoding: a `TpmEccCurve` built from any raw
/// integer of the enumeration's width, marshaled big-endian and unmarshaled
/// again, is the same value.
pub proof fn lemma_tpm_ecc_curve_round_trip(v: u16)
    ensures
        TpmEccCurve::Value(spec_be_value16(spec_be_bytes16(v))) == TpmEccCurve::Value(v),
{
    lemma_be_round_trip16(v);
}

} // verus!
