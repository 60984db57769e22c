//! Structure tags, startup and session types, comparison operators, NV index
//! types, and the generated-magic marker.
use crate::codec::{ByteSink, CodecError, lemma_be_round_trip16, lemma_be_round_trip32, lemma_be_round_trip8, read_be_u16, read_be_u32, read_u8, spec_be_bytes16, spec_be_bytes32, spec_be_bytes8, spec_be_value16, spec_be_value32, spec_be_value8};
use crate::hex::{render_hex, spec_hex_render};
use vstd::prelude::*;
use vstd::std_specs::cmp::PartialOrdSpec;
use vstd::string::StringExecFns;

verus! {

/// TpmEo represents a TPM_EO, a two-operand comparison operator.
/// See definition in Part 2: Structures, section 6.8.
///
/// An open enumeration: one variant carrying the raw backing integer, so
/// every 16-bit value is legal whether or not it matches a known name.
#[derive(Clone, Copy, Debug, PartialEq, Eq, Structural)]
pub enum TpmEo {
    /// The raw backing integer.
    Value(u16),
}

impl TpmEo {
    /// `Eq`.
    pub const EQ: u16 = 0x0000;

    /// `Neq`.
    pub const NEQ: u16 = 0x0001;

    /// `SignedGT`.
    pub const SIGNED_GT: u16 = 0x0002;

    /// `UnsignedGT`.
    pub const UNSIGNED_GT: u16 = 0x0003;

    /// `SignedLT`.
    pub const SIGNED_LT: u16 = 0x0004;

    /// `UnsignedLT`.
    pub const UNSIGNED_LT: u16 = 0x0005;

    /// `SignedGE`.
    pub const SIGNED_GE: u16 = 0x0006;

    /// `UnsignedGE`.
    pub const UNSIGNED_GE: u16 = 0x0007;

    /// `SignedLE`.
    pub const SIGNED_LE: u16 = 0x0008;

    /// `UnsignedLE`.
    pub const UNSIGNED_LE: u16 = 0x0009;

    /// `BitSet`.
    pub const BIT_SET: u16 = 0x000A;

    /// `BitClear`.
    pub const BIT_CLEAR: u16 = 0x000B;

    /// Builds the value carrying `value`, named or not: the enumeration is
    /// open, so every 16-bit integer is a legal value.
    pub fn new(value: u16) -> (r: TpmEo)
        ensures
            r->0 == value,
    {
        TpmEo::Value(value)
    }

    /// The raw backing integer.
    pub fn get(&self) -> (r: u16)
        ensures
            r == self->0,
    {
        match *self {
            TpmEo::Value(v) => v,
        }
    }

    /// Whether `value` matches one of the named constants.
    pub open spec fn known(value: u16) -> bool {
        ||| value == TpmEo::EQ
        ||| value == TpmEo::NEQ
        ||| value == TpmEo::SIGNED_GT
        ||| value == TpmEo::UNSIGNED_GT
        ||| value == TpmEo::SIGNED_LT
        ||| value == TpmEo::UNSIGNED_LT
        ||| value == TpmEo::SIGNED_GE
        ||| value == TpmEo::UNSIGNED_GE
        ||| value == TpmEo::SIGNED_LE
        ||| value == TpmEo::UNSIGNED_LE
        ||| value == TpmEo::BIT_SET
        ||| value == TpmEo::BIT_CLEAR
    }

    /// The name `value` matches, if any.
    pub fn name_of(value: u16) -> (r: Option<&'static str>)
        ensures
            r is Some <==> TpmEo::known(value),
    {
        if value == TpmEo::EQ {
            Option::Some("Eq")
        } else if value == TpmEo::NEQ {
            Option::Some("Neq")
        } else if value == TpmEo::SIGNED_GT {
            Option::Some("SignedGT")
        } else if value == TpmEo::UNSIGNED_GT {
            Option::Some("UnsignedGT")
        } else if value == TpmEo::SIGNED_LT {
            Option::Some("SignedLT")
        } else if value == TpmEo::UNSIGNED_LT {
            Option::Some("UnsignedLT")
        } else if value == TpmEo::SIGNED_GE {
            Option::Some("SignedGE")
        } else if value == TpmEo::UNSIGNED_GE {
            Option::Some("UnsignedGE")
        } else if value == TpmEo::SIGNED_LE {
            Option::Some("SignedLE")
        } else if value == TpmEo::UNSIGNED_LE {
            Option::Some("UnsignedLE")
        } else if value == TpmEo::BIT_SET {
            Option::Some("BitSet")
        } else if value == TpmEo::BIT_CLEAR {
            Option::Some("BitClear")
        } else {
            Option::None
        }
    }

    /// Renders the known name, or the raw integer as a hexadecimal literal:
    /// diagnostics never fail, and an unknown value keeps its exact bits.
    pub fn render(&self) -> (s: String)
        ensures
            !TpmEo::known(self->0) ==> s@ == spec_hex_render(self->0 as u32, 4),
    {
        let v = self.get();
        match TpmEo::name_of(v) {
            Option::Some(n) => String::from_str(n),
            Option::None => render_hex(v as u32, 4),
        }
    }

    /// Writes the raw integer big-endian at the enumeration's 16-bit width;
    /// the only failure is a sink without room for the whole integer, which
    /// leaves the sink unchanged.
    pub fn marshal(&self, sink: &mut ByteSink) -> (r: Result<(), CodecError>)
        ensures
            final(sink).capacity == old(sink).capacity,
            old(sink).spec_remaining() >= 2 ==> r == Ok::<(), CodecError>(())
                && final(sink).data@ == old(sink).data@ + spec_be_bytes16(self->0),
            old(sink).spec_remaining() < 2 ==> r == Err::<(), CodecError>(
                CodecError::BufferTooSmall,
            ) && final(sink).data@ == old(sink).data@,
    {
        sink.write_be_u16(self.get())
    }

    /// Reads a big-endian 16-bit integer at `offset` and builds the value
    /// from it, recognized or not; the only failure is a source holding fewer
    /// bytes than the width asks for.
    pub fn unmarshal(buf: &[u8], offset: usize) -> (r: Result<(TpmEo, usize), CodecError>)
        ensures
            offset + 2 <= buf@.len() ==> r == Ok::<(TpmEo, usize), CodecError>(
                (TpmEo::Value(spec_be_value16(buf@.subrange(offset as int, offset + 2))), (
                offset + 2) as usize),
            ),
            offset + 2 > buf@.len() ==> r == Err::<(TpmEo, usize), CodecError>(
                CodecError::Truncated,
            ),
    {
        match read_be_u16(buf, offset) {
            Ok((v, next)) => Ok((TpmEo::Value(v), next)),
            Err(e) => Err(e),
        }
    }
}

impl PartialOrd for TpmEo {
    fn partial_cmp(&self, other: &Self) -> (r: Option<core::cmp::Ordering>) {
        let a = self.get();
        let b = other.get();
        if a < b {
            Option::Some(core::cmp::Ordering::Less)
        } else if a == b {
            Option::Some(core::cmp::Ordering::Equal)
        } else {
            Option::Some(core::cmp::Ordering::Greater)
        }
    }
}

impl vstd::std_specs::cmp::PartialOrdSpecImpl for TpmEo {
    open spec fn obeys_partial_cmp_spec() -> bool {
        true
    }

    open spec fn partial_cmp_spec(&self, other: &Self) -> Option<core::cmp::Ordering> {
        if self->0 < other->0 {
            Option::Some(core::cmp::Ordering::Less)
        } else if self->0 == other->0 {
            Option::Some(core::cmp::Ordering::Equal)
        } else {
            Option::Some(core::cmp::Ordering::Greater)
        }
    }
}

/// Equality and ordering of `TpmEo` go by the raw integer alone: values built
/// from raw integers are equal exactly when the integers are, and compare as
/// the integers do. In particular a value built from an integer matching no
/// known name is a legal value, equal to every value built from the same
/// integer.
pub proof fn lemma_tpm_eo_raw_semantics(x: u16, y: u16)
    ensures
        (TpmEo::Value(x) == TpmEo::Value(y)) <==> x == y,
        TpmEo::Value(x).partial_cmp_spec(&TpmEo::Value(y)) == x.partial_cmp_spec(&y),
{
}

/// Round trip through the wire encoding: a `TpmEo` built from any raw
/// integer of the enumeration's width, marshaled big-endian and unmarshaled
/// again, is the same value.
pub proof fn lemma_tpm_eo_round_trip(v: u16)
    ensures
        TpmEo::Value(spec_be_value16(spec_be_bytes16(v))) == TpmEo::Value(v),
{
    lemma_be_round_trip16(v);
}

/// TpmSt represents a TPM_ST, a structure tag.
/// See definition in Part 2: Structures, section 6.9.
///
/// An open enumeration: one variant carrying the raw backing integer, so
/// every 16-bit value is legal whether or not it matches a known name.
#[derive(Clone, Copy, Debug, PartialEq, Eq, Structural)]
pub enum TpmSt {
    /// The raw backing integer.
    Value(u16),
}

impl TpmSt {
    /// `RspCommand`.
    pub const RSP_COMMAND: u16 = 0x00C4;

    /// `Null`.
    pub const NULL: u16 = 0x8000;

    /// `NoSessions`.
    pub const NO_SESSIONS: u16 = 0x8001;

    /// `Sessions`.
    pub const SESSIONS: u16 = 0x8002;

    /// `AttestNV`.
    pub const ATTEST_NV: u16 = 0x8014;

    /// `AttestCommandAudit`.
    pub const ATTEST_COMMAND_AUDIT: u16 = 0x8015;

    /// `AttestSessionAudit`.
    pub const ATTEST_SESSION_AUDIT: u16 = 0x8016;

    /// `AttestCertify`.
    pub const ATTEST_CERTIFY: u16 = 0x8017;

    /// `AttestQuote`.
    pub const ATTEST_QUOTE: u16 = 0x8018;

    /// `AttestTime`.
    pub const ATTEST_TIME: u16 = 0x8019;

    /// `AttestCreation`.
    pub const ATTEST_CREATION: u16 = 0x801A;

    /// `AttestNVDigest`.
    pub const ATTEST_NV_DIGEST: u16 = 0x801C;

    /// `Creation`.
    pub const CREATION: u16 = 0x8021;

    /// `Verified`.
    pub const VERIFIED: u16 = 0x8022;

    /// `AuthSecret`.
    pub const AUTH_SECRET: u16 = 0x8023;

    /// `HashCheck`.
    pub const HASH_CHECK: u16 = 0x8024;

    /// `AuthSigned`.
    pub const AUTH_SIGNED: u16 = 0x8025;

    /// `FuManifest`.
    pub const FU_MANIFEST: u16 = 0x8029;

    /// Builds the value carrying `value`, named or not: the enumeration is
    /// open, so every 16-bit integer is a legal value.
    pub fn new(value: u16) -> (r: TpmSt)
        ensures
            r->0 == value,
    {
        TpmSt::Value(value)
    }

    /// The raw backing integer.
    pub fn get(&self) -> (r: u16)
        ensures
            r == self->0,
    {
        match *self {
            TpmSt::Value(v) => v,
        }
    }

    /// Whether `value` matches one of the named constants.
    pub open spec fn known(value: u16) -> bool {
        ||| value == TpmSt::RSP_COMMAND
        ||| value == TpmSt::NULL
        ||| value == TpmSt::NO_SESSIONS
        ||| value == TpmSt::SESSIONS
        ||| value == TpmSt::ATTEST_NV
        ||| value == TpmSt::ATTEST_COMMAND_AUDIT
        ||| value == TpmSt::ATTEST_SESSION_AUDIT
        ||| value == TpmSt::ATTEST_CERTIFY
        ||| value == TpmSt::ATTEST_QUOTE
        ||| value == TpmSt::ATTEST_TIME
        ||| value == TpmSt::ATTEST_CREATION
        ||| value == TpmSt::ATTEST_NV_DIGEST
        ||| value == TpmSt::CREATION
        ||| value == TpmSt::VERIFIED
        ||| value == TpmSt::AUTH_SECRET
        ||| value == TpmSt::HASH_CHECK
        ||| value == TpmSt::AUTH_SIGNED
        ||| value == TpmSt::FU_MANIFEST
    }

    /// The name `value` matches, if any.
    pub fn name_of(value: u16) -> (r: Option<&'static str>)
        ensures
            r is Some <==> TpmSt::known(value),
    {
        if value == TpmSt::RSP_COMMAND {
            Option::Some("RspCommand")
        } else if value == TpmSt::NULL {
            Option::Some("Null")
        } else if value == TpmSt::NO_SESSIONS {
            Option::Some("NoSessions")
        } else if value == TpmSt::SESSIONS {
            Option::Some("Sessions")
        } else if value == TpmSt::ATTEST_NV {
            Option::Some("AttestNV")
        } else if value == TpmSt::ATTEST_COMMAND_AUDIT {
            Option::Some("AttestCommandAudit")
        } else if value == TpmSt::ATTEST_SESSION_AUDIT {
            Option::Some("AttestSessionAudit")
        } else if value == TpmSt::ATTEST_CERTIFY {
            Option::Some("AttestCertify")
        } else if value == TpmSt::ATTEST_QUOTE {
            Option::Some("AttestQuote")
        } else if value == TpmSt::ATTEST_TIME {
            Option::Some("AttestTime")
        } else if value == TpmSt::ATTEST_CREATION {
            Option::Some("AttestCreation")
        } else if value == TpmSt::ATTEST_NV_DIGEST {
            Option::Some("AttestNVDigest")
        } else if value == TpmSt::CREATION {
            Option::Some("Creation")
        } else if value == TpmSt::VERIFIED {
            Option::Some("Verified")
        } else if value == TpmSt::AUTH_SECRET {
            Option::Some("AuthSecret")
        } else if value == TpmSt::HASH_CHECK {
            Option::Some("HashCheck")
        } else if value == TpmSt::AUTH_SIGNED {
            Option::Some("AuthSigned")
        } else if value == TpmSt::FU_MANIFEST {
            Option::Some("FuManifest")
        } else {
            Option::None
        }
    }

    /// Renders the known name, or the raw integer as a hexadecimal literal:
    /// diagnostics never fail, and an unknown value keeps its exact bits.
    pub fn render(&self) -> (s: String)
        ensures
            !TpmSt::known(self->0) ==> s@ == spec_hex_render(self->0 as u32, 4),
    {
        let v = self.get();
        match TpmSt::name_of(v) {
            Option::Some(n) => String::from_str(n),
            Option::None => render_hex(v as u32, 4),
        }
    }

    /// Writes the raw integer big-endian at the enumeration's 16-bit width;
    /// the only failure is a sink without room for the whole integer, which
    /// leaves the sink unchanged.
    pub fn marshal(&self, sink: &mut ByteSink) -> (r: Result<(), CodecError>)
        ensures
            final(sink).capacity == old(sink).capacity,
            old(sink).spec_remaining() >= 2 ==> r == Ok::<(), CodecError>(())
                && final(sink).data@ == old(sink).data@ + spec_be_bytes16(self->0),
            old(sink).spec_remaining() < 2 ==> r == Err::<(), CodecError>(
                CodecError::BufferTooSmall,
            ) && final(sink).data@ == old(sink).data@,
    {
        sink.write_be_u16(self.get())
    }

    /// Reads a big-endian 16-bit integer at `offset` and builds the value
    /// from it, recognized or not; the only failure is a source holding fewer
    /// bytes than the width asks for.
    pub fn unmarshal(buf: &[u8], offset: usize) -> (r: Result<(TpmSt, usize), CodecError>)
        ensures
            offset + 2 <= buf@.len() ==> r == Ok::<(TpmSt, usize), CodecError>(
                (TpmSt::Value(spec_be_value16(buf@.subrange(offset as int, offset + 2))), (
                offset + 2) as usize),
            ),
            offset + 2 > buf@.len() ==> r == Err::<(TpmSt, usize), CodecError>(
                CodecError::Truncated,
            ),
    {
        match read_be_u16(buf, offset) {
            Ok((v, next)) => Ok((TpmSt::Value(v), next)),
            Err(e) => Err(e),
        }
    }
}

impl Default for TpmSt {
    /// The zero value, as for the derived `Default` of a plain integer.
    fn default() -> (r: Self)
        ensures
            r->0 == 0,
    {
        TpmSt::Value(0)
    }
}

impl PartialOrd for TpmSt {
    fn partial_cmp(&self, other: &Self) -> (r: Option<core::cmp::Ordering>) {
        let a = self.get();
        let b = other.get();
        if a < b {
            Option::Some(core::cmp::Ordering::Less)
        } else if a == b {
            Option::Some(core::cmp::Ordering::Equal)
        } else {
            Option::Some(core::cmp::Ordering::Greater)
        }
    }
}

impl vstd::std_specs::cmp::PartialOrdSpecImpl for TpmSt {
    open spec fn obeys_partial_cmp_spec() -> bool {
        true
    }

    open spec fn partial_cmp_spec(&self, other: &Self) -> Option<core::cmp::Ordering> {
        if self->0 < other->0 {
            Option::Some(core::cmp::Ordering::Less)
        } else if self->0 == other->0 {
            Option::Some(core::cmp::Ordering::Equal)
        } else {
            Option::Some(core::cmp::Ordering::Greater)
        }
    }
}

/// Equality and ordering of `TpmSt` go by the raw integer alone: values built
/// from raw integers are equal exactly when the integers are, and compare as
/// the integers do. In particular a value built from an integer matching no
/// known name is a legal value, equal to every value built from the same
/// integer.
pub proof fn lemma_tpm_st_raw_semantics(x: u16, y: u16)
    ensures
        (TpmSt::Value(x) == TpmSt::Value(y)) <==> x == y,
        TpmSt::Value(x).partial_cmp_spec(&TpmSt::Value(y)) == x.partial_cmp_spec(&y),
{
}

/// Round trip through the wire encoding: a `TpmSt` built from any raw
/// integer of the enumeration's width, marshaled big-endian and unmarshaled
/// again, is the same value.
pub proof fn lemma_tpm_st_round_trip(v: u16)
    ensures
        TpmSt::Value(spec_be_value16(spec_be_bytes16(v))) == TpmSt::Value(v),
{
    lemma_be_round_trip16(v);
}

/// TpmSu represents a TPM_SU, a startup type.
/// See definition in Part 2: Structures, section 6.10.
///
/// An open enumeration: one variant carrying the raw backing integer, so
/// every 16-bit value is legal whether or not it matches a known name.
#[derive(Clone, Copy, Debug, PartialEq, Eq, Structural)]
pub enum TpmSu {
    /// The raw backing integer.
    Value(u16),
}

impl TpmSu {
    /// `Clear`.
    pub const CLEAR: u16 = 0x0000;

    /// `State`.
    pub const STATE: u16 = 0x0001;

    /// Builds the value carrying `value`, named or not: the enumeration is
    /// open, so every 16-bit integer is a legal value.
    pub fn new(value: u16) -> (r: TpmSu)
        ensures
            r->0 == value,
    {
        TpmSu::Value(value)
    }

    /// The raw backing integer.
    pub fn get(&self) -> (r: u16)
        ensures
            r == self->0,
    {
        match *self {
            TpmSu::Value(v) => v,
        }
    }

    /// Whether `value` matches one of the named constants.
    pub open spec fn known(value: u16) -> bool {
        ||| value == TpmSu::CLEAR
        ||| value == TpmSu::STATE
    }

    /// The name `value` matches, if any.
    pub fn name_of(value: u16) -> (r: Option<&'static str>)
        ensures
            r is Some <==> TpmSu::known(value),
    {
        if value == TpmSu::CLEAR {
            Option::Some("Clear")
        } else if value == TpmSu::STATE {
            Option::Some("State")
        } else {
            Option::None
        }
    }

    /// Renders the known name, or the raw integer as a hexadecimal literal:
    /// diagnostics never fail, and an unknown value keeps its exact bits.
    pub fn render(&self) -> (s: String)
        ensures
            !TpmSu::known(self->0) ==> s@ == spec_hex_render(self->0 as u32, 4),
    {
        let v = self.get();
        match TpmSu::name_of(v) {
            Option::Some(n) => String::from_str(n),
            Option::None => render_hex(v as u32, 4),
        }
    }

    /// Writes the raw integer big-endian at the enumeration's 16-bit width;
    /// the only failure is a sink without room for the whole integer, which
    /// leaves the sink unchanged.
    pub fn marshal(&self, sink: &mut ByteSink) -> (r: Result<(), CodecError>)
        ensures
            final(sink).capacity == old(sink).capacity,
            old(sink).spec_remaining() >= 2 ==> r == Ok::<(), CodecError>(())
                && final(sink).data@ == old(sink).data@ + spec_be_bytes16(self->0),
            old(sink).spec_remaining() < 2 ==> r == Err::<(), CodecError>(
                CodecError::BufferTooSmall,
            ) && final(sink).data@ == old(sink).data@,
    {
        sink.write_be_u16(self.get())
    }

    /// Reads a big-endian 16-bit integer at `offset` and builds the value
    /// from it, recognized or not; the only failure is a source holding fewer
    /// bytes than the width asks for.
    pub fn unmarshal(buf: &[u8], offset: usize) -> (r: Result<(TpmSu, usize), CodecError>)
        ensures
            offset + 2 <= buf@.len() ==> r == Ok::<(TpmSu, usize), CodecError>(
                (TpmSu::Value(spec_be_value16(buf@.subrange(offset as int, offset + 2))), (
                offset + 2) as usize),
            ),
            offset + 2 > buf@.len() ==> r == Err::<(TpmSu, usize), CodecError>(
                CodecError::Truncated,
            ),
    {
        match read_be_u16(buf, offset) {
            Ok((v, next)) => Ok((TpmSu::Value(v), next)),
            Err(e) => Err(e),
        }
    }
}

impl Default for TpmSu {
    /// The zero value, as for the derived `Default` of a plain integer.
    fn default() -> (r: Self)
        ensures
            r->0 == 0,
    {
        TpmSu::Value(0)
    }
}

impl PartialOrd for TpmSu {
    fn partial_cmp(&self, other: &Self) -> (r: Option<core::cmp::Ordering>) {
        let a = self.get();
        let b = other.get();
        if a < b {
            Option::Some(core::cmp::Ordering::Less)
        } else if a == b {
            Option::Some(core::cmp::Ordering::Equal)
        } else {
            Option::Some(core::cmp::Ordering::Greater)
        }
    }
}

impl vstd::std_specs::cmp::PartialOrdSpecImpl for TpmSu {
    open spec fn obeys_partial_cmp_spec() -> bool {
        true
    }

    open spec fn partial_cmp_spec(&self, other: &Self) -> Option<core::cmp::Ordering> {
        if self->0 < other->0 {
            Option::Some(core::cmp::Ordering::Less)
        } else if self->0 == other->0 {
            Option::Some(core::cmp::Ordering::Equal)
        } else {
            Option::Some(core::cmp::Ordering::Greater)
        }
    }
}

/// Equality and ordering of `TpmSu` go by the raw integer alone: values built
/// from raw integers are equal exactly when the integers are, and compare as
/// the integers do. In particular a value built from an integer matching no
/// known name is a legal value, equal to every value built from the same
/// integer.
pub proof fn lemma_tpm_su_raw_semantics(x: u16, y: u16)
    ensures
        (TpmSu::Value(x) == TpmSu::Value(y)) <==> x == y,
        TpmSu::Value(x).partial_cmp_spec(&TpmSu::Value(y)) == x.partial_cmp_spec(&y),
{
}

/// Round trip through the wire encoding: a `TpmSu` built from any raw
/// integer of the enumeration's width, marshaled big-endian and unmarshaled
/// again, is the same value.
pub proof fn lemma_tpm_su_round_trip(v: u16)
    ensures
        TpmSu::Value(spec_be_value16(spec_be_bytes16(v))) == TpmSu::Value(v),
{
    lemma_be_round_trip16(v);
}

/// TpmSe represents a TPM_SE, a session type.
/// See definition in Part 2: Structures, section 6.11.
///
/// An open enumeration: one variant carrying the raw backing integer, so
/// every 8-bit value is legal whether or not it matches a known name.
#[derive(Clone, Copy, Debug, PartialEq, Eq, Structural)]
pub enum TpmSe {
    /// The raw backing integer.
    Value(u8),
}

impl TpmSe {
    /// `HMAC`.
    pub const HMAC: u8 = 0x00;

    /// `Policy`.
    pub const POLICY: u8 = 0x01;

    /// `Trial`.
    pub const TRIAL: u8 = 0x03;

    /// Builds the value carrying `value`, named or not: the enumeration is
    /// open, so every 8-bit integer is a legal value.
    pub fn new(value: u8) -> (r: TpmSe)
        ensures
            r->0 == value,
    {
        TpmSe::Value(value)
    }

    /// The raw backing integer.
    pub fn get(&self) -> (r: u8)
        ensures
            r == self->0,
    {
        match *self {
            TpmSe::Value(v) => v,
        }
    }

    /// Whether `value` matches one of the named constants.
    pub open spec fn known(value: u8) -> bool {
        ||| value == TpmSe::HMAC
        ||| value == TpmSe::POLICY
        ||| value == TpmSe::TRIAL
    }

    /// The name `value` matches, if any.
    pub fn name_of(value: u8) -> (r: Option<&'static str>)
        ensures
            r is Some <==> TpmSe::known(value),
    {
        if value == TpmSe::HMAC {
            Option::Some("HMAC")
        } else if value == TpmSe::POLICY {
            Option::Some("Policy")
        } else if value == TpmSe::TRIAL {
            Option::Some("Trial")
        } else {
            Option::None
        }
    }

    /// Renders the known name, or the raw integer as a hexadecimal literal:
    /// diagnostics never fail, and an unknown value keeps its exact bits.
    pub fn render(&self) -> (s: String)
        ensures
            !TpmSe::known(self->0) ==> s@ == spec_hex_render(self->0 as u32, 2),
    {
        let v = self.get();
        match TpmSe::name_of(v) {
            Option::Some(n) => String::from_str(n),
            Option::None => render_hex(v as u32, 2),
        }
    }

    /// Writes the raw integer big-endian at the enumeration's 8-bit width;
    /// the only failure is a sink without room for the whole integer, which
    /// leaves the sink unchanged.
    pub fn marshal(&self, sink: &mut ByteSink) -> (r: Result<(), CodecError>)
        ensures
            final(sink).capacity == old(sink).capacity,
            old(sink).spec_remaining() >= 1 ==> r == Ok::<(), CodecError>(())
                && final(sink).data@ == old(sink).data@ + spec_be_bytes8(self->0),
            old(sink).spec_remaining() < 1 ==> r == Err::<(), CodecError>(
                CodecError::BufferTooSmall,
            ) && final(sink).data@ == old(sink).data@,
    {
        sink.write_u8(self.get())
    }

    /// Reads a big-endian 8-bit integer at `offset` and builds the value
    /// from it, recognized or not; the only failure is a source holding fewer
    /// bytes than the width asks for.
    pub fn unmarshal(buf: &[u8], offset: usize) -> (r: Result<(TpmSe, usize), CodecError>)
        ensures
            offset + 1 <= buf@.len() ==> r == Ok::<(TpmSe, usize), CodecError>(
                (TpmSe::Value(spec_be_value8(buf@.subrange(offset as int, offset + 1))), (
                offset + 1) as usize),
            ),
            offset + 1 > buf@.len() ==> r == Err::<(TpmSe, usize), CodecError>(
                CodecError::Truncated,
            ),
    {
        match read_u8(buf, offset) {
            Ok((v, next)) => Ok((TpmSe::Value(v), next)),
            Err(e) => Err(e),
        }
    }
}

impl PartialOrd for TpmSe {
    fn partial_cmp(&self, other: &Self) -> (r: Option<core::cmp::Ordering>) {
        let a = self.get();
        let b = other.get();
        if a < b {
            Option::Some(core::cmp::Ordering::Less)
        } else if a == b {
            Option::Some(core::cmp::Ordering::Equal)
        } else {
            Option::Some(core::cmp::Ordering::Greater)
        }
    }
}

impl vstd::std_specs::cmp::PartialOrdSpecImpl for TpmSe {
    open spec fn obeys_partial_cmp_spec() -> bool {
        true
    }

    open spec fn partial_cmp_spec(&self, other: &Self) -> Option<core::cmp::Ordering> {
        if self->0 < other->0 {
            Option::Some(core::cmp::Ordering::Less)
        } else if self->0 == other->0 {
            Option::Some(core::cmp::Ordering::Equal)
        } else {
            Option::Some(core::cmp::Ordering::Greater)
        }
    }
}

/// Equality and ordering of `TpmSe` go by the raw integer alone: values built
/// from raw integers are equal exactly when the integers are, and compare as
/// the integers do. In particular a value built from an integer matching no
/// known name is a legal value, equal to every value built from the same
/// integer.
pub proof fn lemma_tpm_se_raw_semantics(x: u8, y: u8)
    ensures
        (TpmSe::Value(x) == TpmSe::Value(y)) <==> x == y,
        TpmSe::Value(x).partial_cmp_spec(&TpmSe::Value(y)) == x.partial_cmp_spec(&y),
{
}

/// Round trip through the wire encoding: a `TpmSe` built from any raw
/// integer of the enumeration's width, marshaled big-endian and unmarshaled
/// again, is the same value.
pub proof fn lemma_tpm_se_round_trip(v: u8)
    ensures
        TpmSe::Value(spec_be_value8(spec_be_bytes8(v))) == TpmSe::Value(v),
{
    lemma_be_round_trip8(v);
}

/// TpmNt represents a TPM_NT, an NV index type.
/// See definition in Part 2: Structures, section 13.4.
///
/// An open enumeration: one variant carrying the raw backing integer, so
/// every 8-bit value is legal whether or not it matches a known name.
#[derive(Clone, Copy, Debug, PartialEq, Eq, Structural)]
pub enum TpmNt {
    /// The raw backing integer.
    Value(u8),
}

impl TpmNt {
    /// contains data that is opaque to the TPM that can only be modified
    /// using TPM2_NV_Write().
    pub const ORDINARY: u8 = 0x0;

    /// contains an 8-octet value that is to be used as a counter and can
    /// only be modified with TPM2_NV_Increment()
    pub const COUNTER: u8 = 0x1;

    /// contains an 8-octet value to be used as a bit field and can only be
    /// modified with TPM2_NV_SetBits().
    pub const BITS: u8 = 0x2;

    /// contains a digest-sized value used like a PCR. The Index can only be
    /// modified using TPM2_NV_Extend(). The extend will use the nameAlg of
    /// the Index.
    pub const EXTEND: u8 = 0x4;

    /// contains pinCount that increments on a PIN authorization failure and
    /// a pinLimit
    pub const PIN_FAIL: u8 = 0x8;

    /// contains pinCount that increments on a PIN authorization success and
    /// a pinLimit
    pub const PIN_PASS: u8 = 0x9;

    /// Builds the value carrying `value`, named or not: the enumeration is
    /// open, so every 8-bit integer is a legal value.
    pub fn new(value: u8) -> (r: TpmNt)
        ensures
            r->0 == value,
    {
        TpmNt::Value(value)
    }

    /// The raw backing integer.
    pub fn get(&self) -> (r: u8)
        ensures
            r == self->0,
    {
        match *self {
            TpmNt::Value(v) => v,
        }
    }

    /// Whether `value` matches one of the named constants.
    pub open spec fn known(value: u8) -> bool {
        ||| value == TpmNt::ORDINARY
        ||| value == TpmNt::COUNTER
        ||| value == TpmNt::BITS
        ||| value == TpmNt::EXTEND
        ||| value == TpmNt::PIN_FAIL
        ||| value == TpmNt::PIN_PASS
    }

    /// The name `value` matches, if any.
    pub fn name_of(value: u8) -> (r: Option<&'static str>)
        ensures
            r is Some <==> TpmNt::known(value),
    {
        if value == TpmNt::ORDINARY {
            Option::Some("Ordinary")
        } else if value == TpmNt::COUNTER {
            Option::Some("Counter")
        } else if value == TpmNt::BITS {
            Option::Some("Bits")
        } else if value == TpmNt::EXTEND {
            Option::Some("Extend")
        } else if value == TpmNt::PIN_FAIL {
            Option::Some("PinFail")
        } else if value == TpmNt::PIN_PASS {
            Option::Some("PinPass")
        } else {
            Option::None
        }
    }

    /// Renders the known name, or the raw integer as a hexadecimal literal:
    /// diagnostics never fail, and an unknown value keeps its exact bits.
    pub fn render(&self) -> (s: String)
        ensures
            !TpmNt::known(self->0) ==> s@ == spec_hex_render(self->0 as u32, 2),
    {
        let v = self.get();
        match TpmNt::name_of(v) {
            Option::Some(n) => String::from_str(n),
            Option::None => render_hex(v as u32, 2),
        }
    }

    /// Writes the raw integer big-endian at the enumeration's 8-bit width;
    /// the only failure is a sink without room for the whole integer, which
    /// leaves the sink unchanged.
    pub fn marshal(&self, sink: &mut ByteSink) -> (r: Result<(), CodecError>)
        ensures
            final(sink).capacity == old(sink).capacity,
            old(sink).spec_remaining() >= 1 ==> r == Ok::<(), CodecError>(())
                && final(sink).data@ == old(sink).data@ + spec_be_bytes8(self->0),
            old(sink).spec_remaining() < 1 ==> r == Err::<(), CodecError>(
                CodecError::BufferTooSmall,
            ) && final(sink).data@ == old(sink).data@,
    {
        sink.write_u8(self.get())
    }

    /// Reads a big-endian 8-bit integer at `offset` and builds the value
    /// from it, recognized or not; the only failure is a source holding fewer
    /// bytes than the width asks for.
    pub fn unmarshal(buf: &[u8], offset: usize) -> (r: Result<(TpmNt, usize), CodecError>)
        ensures
            offset + 1 <= buf@.len() ==> r == Ok::<(TpmNt, usize), CodecError>(
                (TpmNt::Value(spec_be_value8(buf@.subrange(offset as int, offset + 1))), (
                offset + 1) as usize),
            ),
            offset + 1 > buf@.len() ==> r == Err::<(TpmNt, usize), CodecError>(
                CodecError::Truncated,
            ),
    {
        match read_u8(buf, offset) {
            Ok((v, next)) => Ok((TpmNt::Value(v), next)),
            Err(e) => Err(e),
        }
    }
}

impl PartialOrd for TpmNt {
    fn partial_cmp(&self, other: &Self) -> (r: Option<core::cmp::Ordering>) {
        let a = self.get();
        let b = other.get();
        if a < b {
            Option::Some(core::cmp::Ordering::Less)
        } else if a == b {
            Option::Some(core::cmp::Ordering::Equal)
        } else {
            Option::Some(core::cmp::Ordering::Greater)
        }
    }
}

impl vstd::std_specs::cmp::PartialOrdSpecImpl for TpmNt {
    open spec fn obeys_partial_cmp_spec() -> bool {
        true
    }

    open spec fn partial_cmp_spec(&self, other: &Self) -> Option<core::cmp::Ordering> {
        if self->0 < other->0 {
            Option::Some(core::cmp::Ordering::Less)
        } else if self->0 == other->0 {
            Option::Some(core::cmp::Ordering::Equal)
        } else {
            Option::Some(core::cmp::Ordering::Greater)
        }
    }
}

/// Equality and ordering of `TpmNt` go by the raw integer alone: values built
/// from raw integers are equal exactly when the integers are, and compare as
/// the integers do. In particular a value built from an integer matching no
/// known name is a legal value, equal to every value built from the same
/// integer.
pub proof fn lemma_tpm_nt_raw_semantics(x: u8, y: u8)
    ensures
        (TpmNt::Value(x) == TpmNt::Value(y)) <==> x == y,
        TpmNt::Value(x).partial_cmp_spec(&TpmNt::Value(y)) == x.partial_cmp_spec(&y),
{
}

/// Round trip through the wire encoding: a `TpmNt` built from any raw
/// integer of the enumeration's width, marshaled big-endian and unmarshaled
/// again, is the same value.
pub proof fn lemma_tpm_nt_round_trip(v: u8)
    ensures
        TpmNt::Value(spec_be_value8(spec_be_bytes8(v))) == TpmNt::Value(v),
{
    lemma_be_round_trip8(v);
}

/// TpmGenerated represents a TPM_GENERATED, the magic marker of TPM-created structures.
/// See definition in Part 2: Structures, section 6.2.
///
/// An open enumeration: one variant carrying the raw backing integer, so
/// every 32-bit value is legal whether or not it matches a known name.
#[derive(Clone, Copy, Debug, PartialEq, Eq, Structural)]
pub enum TpmGenerated {
    /// The raw backing integer.
    Value(u32),
}

impl TpmGenerated {
    /// `VALUE`.
    pub const VALUE: u32 = 0xFF544347;

    /// Builds the value carrying `value`, named or not: the enumeration is
    /// open, so every 32-bit integer is a legal value.
    pub fn new(value: u32) -> (r: TpmGenerated)
        ensures
            r->0 == value,
    {
        TpmGenerated::Value(value)
    }

    /// The raw backing integer.
    pub fn get(&self) -> (r: u32)
        ensures
            r == self->0,
    {
        match *self {
            TpmGenerated::Value(v) => v,
        }
    }

    /// Whether `value` matches one of the named constants.
    pub open spec fn known(value: u32) -> bool {
        ||| value == TpmGenerated::VALUE
    }

    /// The name `value` matches, if any.
    pub fn name_of(value: u32) -> (r: Option<&'static str>)
        ensures
            r is Some <==> TpmGenerated::known(value),
    {
        if value == TpmGenerated::VALUE {
            Option::Some("VALUE")
        } else {
            Option::None
        }
    }

    /// Renders the known name, or the raw integer as a hexadecimal literal:
    /// diagnostics never fail, and an unknown value keeps its exact bits.
    pub fn render(&self) -> (s: String)
        ensures
            !TpmGenerated::known(self->0) ==> s@ == spec_hex_render(self->0 as u32, 8),
    {
        let v = self.get();
        match TpmGenerated::name_of(v) {
            Option::Some(n) => String::from_str(n),
            Option::None => render_hex(v as u32, 8),
        }
    }

    /// Writes the raw integer big-endian at the enumeration's 32-bit width;
    /// the only failure is a sink without room for the whole integer, which
    /// leaves the sink unchanged.
    pub fn marshal(&self, sink: &mut ByteSink) -> (r: Result<(), CodecError>)
        ensures
            final(sink).capacity == old(sink).capacity,
            old(sink).spec_remaining() >= 4 ==> r == Ok::<(), CodecError>(())
                && final(sink).data@ == old(sink).data@ + spec_be_bytes32(self->0),
            old(sink).spec_remaining() < 4 ==> r == Err::<(), CodecError>(
                CodecError::BufferTooSmall,
            ) && final(sink).data@ == old(sink).data@,
    {
        sink.write_be_u32(self.get())
    }

    /// Reads a big-endian 32-bit integer at `offset` and builds the value
    /// from it, recognized or not; the only failure is a source holding fewer
    /// bytes than the width asks for.
    pub fn unmarshal(buf: &[u8], offset: usize) -> (r: Result<(TpmGenerated, usize), CodecError>)
        ensures
            offset + 4 <= buf@.len() ==> r == Ok::<(TpmGenerated, usize), CodecError>(
                (TpmGenerated::Value(spec_be_value32(buf@.subrange(offset as int, offset + 4))), (
                offset + 4) as usize),
            ),
            offset + 4 > buf@.len() ==> r == Err::<(TpmGenerated, usize), CodecError>(
                CodecError::Truncated,
            ),
    {
        match read_be_u32(buf, offset) {
            Ok((v, next)) => Ok((TpmGenerated::Value(v), next)),
            Err(e) => Err(e),
        }
    }
}

impl Default for TpmGenerated {
    /// The zero value, as for the derived `Default` of a plain integer.
    fn default() -> (r: Self)
        ensures
            r->0 == 0,
    {
        TpmGenerated::Value(0)
    }
}

impl PartialOrd for TpmGenerated {
    fn partial_cmp(&self, other: &Self) -> (r: Option<core::cmp::Ordering>) {
        let a = self.get();
        let b = other.get();
        if a < b {
            Option::Some(core::cmp::Ordering::Less)
        } else if a == b {
            Option::Some(core::cmp::Ordering::Equal)
        } else {
            Option::Some(core::cmp::Ordering::Greater)
        }
    }
}

impl vstd::std_specs::cmp::PartialOrdSpecImpl for TpmGenerated {
    open spec fn obeys_partial_cmp_spec() -> bool {
        true
    }

    open spec fn partial_cmp_spec(&self, other: &Self) -> Option<core::cmp::Ordering> {
        if self->0 < other->0 {
            Option::Some(core::cmp::Ordering::Less)
        } else if self->0 == other->0 {
            Option::Some(core::cmp::Ordering::Equal)
        } else {
            Option::Some(core::cmp::Ordering::Greater)
        }
    }
}

/// Equality and ordering of `TpmGenerated` go by the raw integer alone: values built
/// from raw integers are equal exactly when the integers are, and compare as
/// the integers do. In particular a value built from an integer matching no
/// known name is a legal value, equal to every value built from the same
/// integer.
pub proof fn lemma_tpm_generated_raw_semantics(x: u32, y: u32)
    ensures
        (TpmGenerated::Value(x) == TpmGenerated::Value(y)) <==> x == y,
        TpmGenerated::Value(x).partial_cmp_spec(&TpmGenerated::Value(y)) == x.partial_cmp_spec(&y),
{
}

/// Round trip through the wire encoding: a `TpmGenerated` built from any raw
/// integer of the enumeration's width, marshaled big-endian and unmarshaled
/// again, is the same value.
pub proof fn lemma_tpm_generated_round_trip(v: u32)
    ensures
        TpmGenerated::Value(spec_be_value32(spec_be_bytes32(v))) == TpmGenerated::Value(v),
{
    lemma_be_round_trip32(v);
}

} // verus!
