//! Response codes: flat successes plus codes composed from a named base
//! offset (format-zero, format-one, warning) and a small delta, so that a
//! caller can classify a code by the base range it falls in.
use crate::codec::{ByteSink, CodecError, lemma_be_round_trip32, read_be_u32, spec_be_bytes32, spec_be_value32};
use crate::hex::{render_hex, spec_hex_render};
use vstd::prelude::*;
use vstd::std_specs::cmp::PartialOrdSpec;
use vstd::string::StringExecFns;

verus! {

/// TpmRc represents a TPM_RC, a response (return) code.
/// See definition in Part 2: Structures, section 6.6.
///
/// An open enumeration: one variant carrying the raw backing integer, so
/// every 32-bit value is legal whether or not it matches a known name.
#[derive(Clone, Copy, Debug, PartialEq, Eq, Structural)]
pub enum TpmRc {
    /// The raw backing integer.
    Value(u32),
}

impl TpmRc {
    /// Base of the format-zero (version one) error codes.
    pub const RC_VER_1: u32 = 0x00000100;

    /// Base of the format-one error codes.
    pub const RC_FMT_1: u32 = 0x00000080;

    /// Base of the warning codes.
    pub const RC_WARN: u32 = 0x00000900;

    /// Flag marking a format-one code as parameter-related.
    pub const RC_P: u32 = 0x00000040;

    /// Flag marking a format-one code as session-related.
    pub const RC_S: u32 = 0x00000800;

    /// `Success`.
    pub const SUCCESS: u32 = 0x00000000;

    /// `Initialize`.
    pub const INITIALIZE: u32 = Self::RC_VER_1;

    /// `Failure`.
    pub const FAILURE: u32 = Self::RC_VER_1 + 0x001;

    /// `Sequence`.
    pub const SEQUENCE: u32 = Self::RC_VER_1 + 0x003;

    /// `Private`.
    pub const PRIVATE: u32 = Self::RC_VER_1 + 0x00B;

    /// `Hmac`.
    pub const HMAC: u32 = Self::RC_VER_1 + 0x019;

    /// `Disabled`.
    pub const DISABLED: u32 = Self::RC_VER_1 + 0x020;

    /// `Exclusive`.
    pub const EXCLUSIVE: u32 = Self::RC_VER_1 + 0x021;

    /// `AuthType`.
    pub const AUTH_TYPE: u32 = Self::RC_VER_1 + 0x024;

    /// `AuthMissing`.
    pub const AUTH_MISSING: u32 = Self::RC_VER_1 + 0x025;

    /// `Policy`.
    pub const POLICY: u32 = Self::RC_VER_1 + 0x026;

    /// `Pcr`.
    pub const PCR: u32 = Self::RC_VER_1 + 0x027;

    /// `PCRChanged`.
    pub const PCR_CHANGED: u32 = Self::RC_VER_1 + 0x028;

    /// `Upgrade`.
    pub const UPGRADE: u32 = Self::RC_VER_1 + 0x02D;

    /// `TooManyContexts`.
    pub const TOO_MANY_CONTEXTS: u32 = Self::RC_VER_1 + 0x02E;

    /// `AuthUnavailable`.
    pub const AUTH_UNAVAILABLE: u32 = Self::RC_VER_1 + 0x02F;

    /// `Reboot`.
    pub const REBOOT: u32 = Self::RC_VER_1 + 0x030;

    /// `Unbalanced`.
    pub const UNBALANCED: u32 = Self::RC_VER_1 + 0x031;

    /// `CommandSize`.
    pub const COMMAND_SIZE: u32 = Self::RC_VER_1 + 0x042;

    /// `CommandCode`.
    pub const COMMAND_CODE: u32 = Self::RC_VER_1 + 0x043;

    /// `AuthSize`.
    pub const AUTH_SIZE: u32 = Self::RC_VER_1 + 0x044;

    /// `AuthContext`.
    pub const AUTH_CONTEXT: u32 = Self::RC_VER_1 + 0x045;

    /// `NVRange`.
    pub const NV_RANGE: u32 = Self::RC_VER_1 + 0x046;

    /// `NVSize`.
    pub const NV_SIZE: u32 = Self::RC_VER_1 + 0x047;

    /// `NVLocked`.
    pub const NV_LOCKED: u32 = Self::RC_VER_1 + 0x048;

    /// `NVAuthorization`.
    pub const NV_AUTHORIZATION: u32 = Self::RC_VER_1 + 0x049;

    /// `NVUninitialized`.
    pub const NV_UNINITIALIZED: u32 = Self::RC_VER_1 + 0x04A;

    /// `NVSpace`.
    pub const NV_SPACE: u32 = Self::RC_VER_1 + 0x04B;

    /// `NVDefined`.
    pub const NV_DEFINED: u32 = Self::RC_VER_1 + 0x04C;

    /// `BadContext`.
    pub const BAD_CONTEXT: u32 = Self::RC_VER_1 + 0x050;

    /// `CPHash`.
    pub const CP_HASH: u32 = Self::RC_VER_1 + 0x051;

    /// `Parent`.
    pub const PARENT: u32 = Self::RC_VER_1 + 0x052;

    /// `NeedsTest`.
    pub const NEEDS_TEST: u32 = Self::RC_VER_1 + 0x053;

    /// `NoResult`.
    pub const NO_RESULT: u32 = Self::RC_VER_1 + 0x054;

    /// `Sensitive`.
    pub const SENSITIVE: u32 = Self::RC_VER_1 + 0x055;

    /// `CAsymmetric`.
    pub const C_ASYMMETRIC: u32 = Self::RC_FMT_1 + 0x001;

    /// `Attributes`.
    pub const ATTRIBUTES: u32 = Self::RC_FMT_1 + 0x002;

    /// `Hash`.
    pub const HASH: u32 = Self::RC_FMT_1 + 0x003;

    /// `Value`.
    pub const VALUE: u32 = Self::RC_FMT_1 + 0x004;

    /// `Hierarchy`.
    pub const HIERARCHY: u32 = Self::RC_FMT_1 + 0x005;

    /// `KeySize`.
    pub const KEY_SIZE: u32 = Self::RC_FMT_1 + 0x007;

    /// `Mgf`.
    pub const MGF: u32 = Self::RC_FMT_1 + 0x008;

    /// `Mode`.
    pub const MODE: u32 = Self::RC_FMT_1 + 0x009;

    /// `Type`.
    pub const TYPE: u32 = Self::RC_FMT_1 + 0x00A;

    /// `Handle`.
    pub const HANDLE: u32 = Self::RC_FMT_1 + 0x00B;

    /// `Kdf`.
    pub const KDF: u32 = Self::RC_FMT_1 + 0x00C;

    /// `Range`.
    pub const RANGE: u32 = Self::RC_FMT_1 + 0x00D;

    /// `AuthFail`.
    pub const AUTH_FAIL: u32 = Self::RC_FMT_1 + 0x00E;

    /// `Nonce`.
    pub const NONCE: u32 = Self::RC_FMT_1 + 0x00F;

    /// `PP`.
    pub const PP: u32 = Self::RC_FMT_1 + 0x010;

    /// `Scheme`.
    pub const SCHEME: u32 = Self::RC_FMT_1 + 0x012;

    /// `Size`.
    pub const SIZE: u32 = Self::RC_FMT_1 + 0x015;

    /// `Symmetric`.
    pub const SYMMETRIC: u32 = Self::RC_FMT_1 + 0x016;

    /// `Tag`.
    pub const TAG: u32 = Self::RC_FMT_1 + 0x017;

    /// `Selector`.
    pub const SELECTOR: u32 = Self::RC_FMT_1 + 0x018;

    /// `Insufficient`.
    pub const INSUFFICIENT: u32 = Self::RC_FMT_1 + 0x01A;

    /// `Signature`.
    pub const SIGNATURE: u32 = Self::RC_FMT_1 + 0x01B;

    /// `Key`.
    pub const KEY: u32 = Self::RC_FMT_1 + 0x01C;

    /// `PolicyFail`.
    pub const POLICY_FAIL: u32 = Self::RC_FMT_1 + 0x01D;

    /// `Integrity`.
    pub const INTEGRITY: u32 = Self::RC_FMT_1 + 0x01F;

    /// `Ticket`.
    pub const TICKET: u32 = Self::RC_FMT_1 + 0x020;

    /// `ReservedBits`.
    pub const RESERVED_BITS: u32 = Self::RC_FMT_1 + 0x021;

    /// `BadAuth`.
    pub const BAD_AUTH: u32 = Self::RC_FMT_1 + 0x022;

    /// `Expired`.
    pub const EXPIRED: u32 = Self::RC_FMT_1 + 0x023;

    /// `PolicyCC`.
    pub const POLICY_CC: u32 = Self::RC_FMT_1 + 0x024;

    /// `Binding`.
    pub const BINDING: u32 = Self::RC_FMT_1 + 0x025;

    /// `Curve`.
    pub const CURVE: u32 = Self::RC_FMT_1 + 0x026;

    /// `ECCPoint`.
    pub const ECC_POINT: u32 = Self::RC_FMT_1 + 0x027;

    /// `ContextGap`.
    pub const CONTEXT_GAP: u32 = Self::RC_WARN + 0x001;

    /// `ObjectMemory`.
    pub const OBJECT_MEMORY: u32 = Self::RC_WARN + 0x002;

    /// `SessionMemory`.
    pub const SESSION_MEMORY: u32 = Self::RC_WARN + 0x003;

    /// `Memory`.
    pub const MEMORY: u32 = Self::RC_WARN + 0x004;

    /// `SessionHandles`.
    pub const SESSION_HANDLES: u32 = Self::RC_WARN + 0x005;

    /// `ObjectHandles`.
    pub const OBJECT_HANDLES: u32 = Self::RC_WARN + 0x006;

    /// `Locality`.
    pub const LOCALITY: u32 = Self::RC_WARN + 0x007;

    /// `Yielded`.
    pub const YIELDED: u32 = Self::RC_WARN + 0x008;

    /// `Canceled`.
    pub const CANCELED: u32 = Self::RC_WARN + 0x009;

    /// `Testing`.
    pub const TESTING: u32 = Self::RC_WARN + 0x00A;

    /// `ReferenceH0`.
    pub const REFERENCE_H0: u32 = Self::RC_WARN + 0x010;

    /// `ReferenceH1`.
    pub const REFERENCE_H1: u32 = Self::RC_WARN + 0x011;

    /// `ReferenceH2`.
    pub const REFERENCE_H2: u32 = Self::RC_WARN + 0x012;

    /// `ReferenceH3`.
    pub const REFERENCE_H3: u32 = Self::RC_WARN + 0x013;

    /// `ReferenceH4`.
    pub const REFERENCE_H4: u32 = Self::RC_WARN + 0x014;

    /// `ReferenceH5`.
    pub const REFERENCE_H5: u32 = Self::RC_WARN + 0x015;

    /// `ReferenceH6`.
    pub const REFERENCE_H6: u32 = Self::RC_WARN + 0x016;

    /// `ReferenceS0`.
    pub const REFERENCE_S0: u32 = Self::RC_WARN + 0x018;

    /// `ReferenceS1`.
    pub const REFERENCE_S1: u32 = Self::RC_WARN + 0x019;

    /// `ReferenceS2`.
    pub const REFERENCE_S2: u32 = Self::RC_WARN + 0x01A;

    /// `ReferenceS3`.
    pub const REFERENCE_S3: u32 = Self::RC_WARN + 0x01B;

    /// `ReferenceS4`.
    pub const REFERENCE_S4: u32 = Self::RC_WARN + 0x01C;

    /// `ReferenceS5`.
    pub const REFERENCE_S5: u32 = Self::RC_WARN + 0x01D;

    /// `ReferenceS6`.
    pub const REFERENCE_S6: u32 = Self::RC_WARN + 0x01E;

    /// `NVRate`.
    pub const NV_RATE: u32 = Self::RC_WARN + 0x020;

    /// `Lockout`.
    pub const LOCKOUT: u32 = Self::RC_WARN + 0x021;

    /// `Retry`.
    pub const RETRY: u32 = Self::RC_WARN + 0x022;

    /// `NVUnavailable`.
    pub const NV_UNAVAILABLE: u32 = Self::RC_WARN + 0x023;

    /// Builds the value carrying `value`, named or not: the enumeration is
    /// open, so every 32-bit integer is a legal value.
    pub fn new(value: u32) -> (r: TpmRc)
        ensures
            r->0 == value,
    {
        TpmRc::Value(value)
    }

    /// The raw backing integer.
    pub fn get(&self) -> (r: u32)
        ensures
            r == self->0,
    {
        match *self {
            TpmRc::Value(v) => v,
        }
    }

    /// Whether `value` matches one of the named constants.
    pub open spec fn known(value: u32) -> bool {
        ||| value == TpmRc::SUCCESS
        ||| value == TpmRc::INITIALIZE
        ||| value == TpmRc::FAILURE
        ||| value == TpmRc::SEQUENCE
        ||| value == TpmRc::PRIVATE
        ||| value == TpmRc::HMAC
        ||| value == TpmRc::DISABLED
        ||| value == TpmRc::EXCLUSIVE
        ||| value == TpmRc::AUTH_TYPE
        ||| value == TpmRc::AUTH_MISSING
        ||| value == TpmRc::POLICY
        ||| value == TpmRc::PCR
        ||| value == TpmRc::PCR_CHANGED
        ||| value == TpmRc::UPGRADE
        ||| value == TpmRc::TOO_MANY_CONTEXTS
        ||| value == TpmRc::AUTH_UNAVAILABLE
        ||| value == TpmRc::REBOOT
        ||| value == TpmRc::UNBALANCED
        ||| value == TpmRc::COMMAND_SIZE
        ||| value == TpmRc::COMMAND_CODE
        ||| value == TpmRc::AUTH_SIZE
        ||| value == TpmRc::AUTH_CONTEXT
        ||| value == TpmRc::NV_RANGE
        ||| value == TpmRc::NV_SIZE
        ||| value == TpmRc::NV_LOCKED
        ||| value == TpmRc::NV_AUTHORIZATION
        ||| value == TpmRc::NV_UNINITIALIZED
        ||| value == TpmRc::NV_SPACE
        ||| value == TpmRc::NV_DEFINED
        ||| value == TpmRc::BAD_CONTEXT
        ||| value == TpmRc::CP_HASH
        ||| value == TpmRc::PARENT
        ||| value == TpmRc::NEEDS_TEST
        ||| value == TpmRc::NO_RESULT
        ||| value == TpmRc::SENSITIVE
        ||| value == TpmRc::C_ASYMMETRIC
        ||| value == TpmRc::ATTRIBUTES
        ||| value == TpmRc::HASH
        ||| value == TpmRc::VALUE
        ||| value == TpmRc::HIERARCHY
        ||| value == TpmRc::KEY_SIZE
        ||| value == TpmRc::MGF
        ||| value == TpmRc::MODE
        ||| value == TpmRc::TYPE
        ||| value == TpmRc::HANDLE
        ||| value == TpmRc::KDF
        ||| value == TpmRc::RANGE
        ||| value == TpmRc::AUTH_FAIL
        ||| value == TpmRc::NONCE
        ||| value == TpmRc::PP
        ||| value == TpmRc::SCHEME
        ||| value == TpmRc::SIZE
        ||| value == TpmRc::SYMMETRIC
        ||| value == TpmRc::TAG
        ||| value == TpmRc::SELECTOR
        ||| value == TpmRc::INSUFFICIENT
        ||| value == TpmRc::SIGNATURE
        ||| value == TpmRc::KEY
        ||| value == TpmRc::POLICY_FAIL
        ||| value == TpmRc::INTEGRITY
        ||| value == TpmRc::TICKET
        ||| value == TpmRc::RESERVED_BITS
        ||| value == TpmRc::BAD_AUTH
        ||| value == TpmRc::EXPIRED
        ||| value == TpmRc::POLICY_CC
        ||| value == TpmRc::BINDING
        ||| value == TpmRc::CURVE
        ||| value == TpmRc::ECC_POINT
        ||| value == TpmRc::CONTEXT_GAP
        ||| value == TpmRc::OBJECT_MEMORY
        ||| value == TpmRc::SESSION_MEMORY
        ||| value == TpmRc::MEMORY
        ||| value == TpmRc::SESSION_HANDLES
        ||| value == TpmRc::OBJECT_HANDLES
        ||| value == TpmRc::LOCALITY
        ||| value == TpmRc::YIELDED
        ||| value == TpmRc::CANCELED
        ||| value == TpmRc::TESTING
        ||| value == TpmRc::REFERENCE_H0
        ||| value == TpmRc::REFERENCE_H1
        ||| value == TpmRc::REFERENCE_H2
        ||| value == TpmRc::REFERENCE_H3
        ||| value == TpmRc::REFERENCE_H4
        ||| value == TpmRc::REFERENCE_H5
        ||| value == TpmRc::REFERENCE_H6
        ||| value == TpmRc::REFERENCE_S0
        ||| value == TpmRc::REFERENCE_S1
        ||| value == TpmRc::REFERENCE_S2
        ||| value == TpmRc::REFERENCE_S3
        ||| value == TpmRc::REFERENCE_S4
        ||| value == TpmRc::REFERENCE_S5
        ||| value == TpmRc::REFERENCE_S6
        ||| value == TpmRc::NV_RATE
        ||| value == TpmRc::LOCKOUT
        ||| value == TpmRc::RETRY
        ||| value == TpmRc::NV_UNAVAILABLE
    }

    /// The name `value` matches, if any.
    #[verifier::rlimit(50)]
    pub fn name_of(value: u32) -> (r: Option<&'static str>)
        ensures
            r is Some <==> TpmRc::known(value),
    {
        if value == TpmRc::SUCCESS {
            Option::Some("Success")
        } else if value == TpmRc::INITIALIZE {
            Option::Some("Initialize")
        } else if value == TpmRc::FAILURE {
            Option::Some("Failure")
        } else if value == TpmRc::SEQUENCE {
            Option::Some("Sequence")
        } else if value == TpmRc::PRIVATE {
            Option::Some("Private")
        } else if value == TpmRc::HMAC {
            Option::Some("Hmac")
        } else if value == TpmRc::DISABLED {
            Option::Some("Disabled")
        } else if value == TpmRc::EXCLUSIVE {
            Option::Some("Exclusive")
        } else if value == TpmRc::AUTH_TYPE {
            Option::Some("AuthType")
        } else if value == TpmRc::AUTH_MISSING {
            Option::Some("AuthMissing")
        } else if value == TpmRc::POLICY {
            Option::Some("Policy")
        } else if value == TpmRc::PCR {
            Option::Some("Pcr")
        } else if value == TpmRc::PCR_CHANGED {
            Option::Some("PCRChanged")
        } else if value == TpmRc::UPGRADE {
            Option::Some("Upgrade")
        } else if value == TpmRc::TOO_MANY_CONTEXTS {
            Option::Some("TooManyContexts")
        } else if value == TpmRc::AUTH_UNAVAILABLE {
            Option::Some("AuthUnavailable")
        } else if value == TpmRc::REBOOT {
            Option::Some("Reboot")
        } else if value == TpmRc::UNBALANCED {
            Option::Some("Unbalanced")
        } else if value == TpmRc::COMMAND_SIZE {
            Option::Some("CommandSize")
        } else if value == TpmRc::COMMAND_CODE {
            Option::Some("CommandCode")
        } else if value == TpmRc::AUTH_SIZE {
            Option::Some("AuthSize")
        } else if value == TpmRc::AUTH_CONTEXT {
            Option::Some("AuthContext")
        } else if value == TpmRc::NV_RANGE {
            Option::Some("NVRange")
        } else if value == TpmRc::NV_SIZE {
            Option::Some("NVSize")
        } else if value == TpmRc::NV_LOCKED {
            Option::Some("NVLocked")
        } else if value == TpmRc::NV_AUTHORIZATION {
            Option::Some("NVAuthorization")
        } else if value == TpmRc::NV_UNINITIALIZED {
            Option::Some("NVUninitialized")
        } else if value == TpmRc::NV_SPACE {
            Option::Some("NVSpace")
        } else if value == TpmRc::NV_DEFINED {
            Option::Some("NVDefined")
        } else if value == TpmRc::BAD_CONTEXT {
            Option::Some("BadContext")
        } else if value == TpmRc::CP_HASH {
            Option::Some("CPHash")
        } else if value == TpmRc::PARENT {
            Option::Some("Parent")
        } else if value == TpmRc::NEEDS_TEST {
            Option::Some("NeedsTest")
        } else if value == TpmRc::NO_RESULT {
            Option::Some("NoResult")
        } else if value == TpmRc::SENSITIVE {
            Option::Some("Sensitive")
        } else if value == TpmRc::C_ASYMMETRIC {
            Option::Some("CAsymmetric")
        } else if value == TpmRc::ATTRIBUTES {
            Option::Some("Attributes")
        } else if value == TpmRc::HASH {
            Option::Some("Hash")
        } else if value == TpmRc::VALUE {
            Option::Some("Value")
        } else if value == TpmRc::HIERARCHY {
            Option::Some("Hierarchy")
        } else if value == TpmRc::KEY_SIZE {
            Option::Some("KeySize")
        } else if value == TpmRc::MGF {
            Option::Some("Mgf")
        } else if value == TpmRc::MODE {
            Option::Some("Mode")
        } else if value == TpmRc::TYPE {
            Option::Some("Type")
        } else if value == TpmRc::HANDLE {
            Option::Some("Handle")
        } else if value == TpmRc::KDF {
            Option::Some("Kdf")
        } else if value == TpmRc::RANGE {
            Option::Some("Range")
        } else if value == TpmRc::AUTH_FAIL {
            Option::Some("AuthFail")
        } else if value == TpmRc::NONCE {
            Option::Some("Nonce")
        } else if value == TpmRc::PP {
            Option::Some("PP")
        } else if value == TpmRc::SCHEME {
            Option::Some("Scheme")
        } else if value == TpmRc::SIZE {
            Option::Some("Size")
        } else if value == TpmRc::SYMMETRIC {
            Option::Some("Symmetric")
        } else if value == TpmRc::TAG {
            Option::Some("Tag")
        } else if value == TpmRc::SELECTOR {
            Option::Some("Selector")
        } else if value == TpmRc::INSUFFICIENT {
            Option::Some("Insufficient")
        } else if value == TpmRc::SIGNATURE {
            Option::Some("Signature")
        } else if value == TpmRc::KEY {
            Option::Some("Key")
        } else if value == TpmRc::POLICY_FAIL {
            Option::Some("PolicyFail")
        } else if value == TpmRc::INTEGRITY {
            Option::Some("Integrity")
        } else if value == TpmRc::TICKET {
            Option::Some("Ticket")
        } else if value == TpmRc::RESERVED_BITS {
            Option::Some("ReservedBits")
        } else if value == TpmRc::BAD_AUTH {
            Option::Some("BadAuth")
        } else if value == TpmRc::EXPIRED {
            Option::Some("Expired")
        } else if value == TpmRc::POLICY_CC {
            Option::Some("PolicyCC")
        } else if value == TpmRc::BINDING {
            Option::Some("Binding")
        } else if value == TpmRc::CURVE {
            Option::Some("Curve")
        } else if value == TpmRc::ECC_POINT {
            Option::Some("ECCPoint")
        } else if value == TpmRc::CONTEXT_GAP {
            Option::Some("ContextGap")
        } else if value == TpmRc::OBJECT_MEMORY {
            Option::Some("ObjectMemory")
        } else if value == TpmRc::SESSION_MEMORY {
            Option::Some("SessionMemory")
        } else if value == TpmRc::MEMORY {
            Option::Some("Memory")
        } else if value == TpmRc::SESSION_HANDLES {
            Option::Some("SessionHandles")
        } else if value == TpmRc::OBJECT_HANDLES {
            Option::Some("ObjectHandles")
        } else if value == TpmRc::LOCALITY {
            Option::Some("Locality")
        } else if value == TpmRc::YIELDED {
            Option::Some("Yielded")
        } else if value == TpmRc::CANCELED {
            Option::Some("Canceled")
        } else if value == TpmRc::TESTING {
            Option::Some("Testing")
        } else if value == TpmRc::REFERENCE_H0 {
            Option::Some("ReferenceH0")
        } else if value == TpmRc::REFERENCE_H1 {
            Option::Some("ReferenceH1")
        } else if value == TpmRc::REFERENCE_H2 {
            Option::Some("ReferenceH2")
        } else if value == TpmRc::REFERENCE_H3 {
            Option::Some("ReferenceH3")
        } else if value == TpmRc::REFERENCE_H4 {
            Option::Some("ReferenceH4")
        } else if value == TpmRc::REFERENCE_H5 {
            Option::Some("ReferenceH5")
        } else if value == TpmRc::REFERENCE_H6 {
            Option::Some("ReferenceH6")
        } else if value == TpmRc::REFERENCE_S0 {
            Option::Some("ReferenceS0")
        } else if value == TpmRc::REFERENCE_S1 {
            Option::Some("ReferenceS1")
        } else if value == TpmRc::REFERENCE_S2 {
            Option::Some("ReferenceS2")
        } else if value == TpmRc::REFERENCE_S3 {
            Option::Some("ReferenceS3")
        } else if value == TpmRc::REFERENCE_S4 {
            Option::Some("ReferenceS4")
        } else if value == TpmRc::REFERENCE_S5 {
            Option::Some("ReferenceS5")
        } else if value == TpmRc::REFERENCE_S6 {
            Option::Some("ReferenceS6")
        } else if value == TpmRc::NV_RATE {
            Option::Some("NVRate")
        } else if value == TpmRc::LOCKOUT {
            Option::Some("Lockout")
        } else if value == TpmRc::RETRY {
            Option::Some("Retry")
        } else if value == TpmRc::NV_UNAVAILABLE {
            Option::Some("NVUnavailable")
        } else {
            Option::None
        }
    }

    /// Renders the known name, or the raw integer as a hexadecimal literal:
    /// diagnostics never fail, and an unknown value keeps its exact bits.
    pub fn render(&self) -> (s: String)
        ensures
            !TpmRc::known(self->0) ==> s@ == spec_hex_render(self->0 as u32, 8),
    {
        let v = self.get();
        match TpmRc::name_of(v) {
            Option::Some(n) => String::from_str(n),
            Option::None => render_hex(v as u32, 8),
        }
    }

    /// Writes the raw integer big-endian at the enumeration's 32-bit width;
    /// the only failure is a sink without room for the whole integer, which
    /// leaves the sink unchanged.
    pub fn marshal(&self, sink: &mut ByteSink) -> (r: Result<(), CodecError>)
        ensures
            final(sink).capacity == old(sink).capacity,
            old(sink).spec_remaining() >= 4 ==> r == Ok::<(), CodecError>(())
                && final(sink).data@ == old(sink).data@ + spec_be_bytes32(self->0),
            old(sink).spec_remaining() < 4 ==> r == Err::<(), CodecError>(
                CodecError::BufferTooSmall,
            ) && final(sink).data@ == old(sink).data@,
    {
        sink.write_be_u32(self.get())
    }

    /// Reads a big-endian 32-bit integer at `offset` and builds the value
    /// from it, recognized or not; the only failure is a source holding fewer
    /// bytes than the width asks for.
    pub fn unmarshal(buf: &[u8], offset: usize) -> (r: Result<(TpmRc, usize), CodecError>)
        ensures
            offset + 4 <= buf@.len() ==> r == Ok::<(TpmRc, usize), CodecError>(
                (TpmRc::Value(spec_be_value32(buf@.subrange(offset as int, offset + 4))), (
                offset + 4) as usize),
            ),
            offset + 4 > buf@.len() ==> r == Err::<(TpmRc, usize), CodecError>(
                CodecError::Truncated,
            ),
    {
        match read_be_u32(buf, offset) {
            Ok((v, next)) => Ok((TpmRc::Value(v), next)),
            Err(e) => Err(e),
        }
    }
}

impl PartialOrd for TpmRc {
    fn partial_cmp(&self, other: &Self) -> (r: Option<core::cmp::Ordering>) {
        let a = self.get();
        let b = other.get();
        if a < b {
            Option::Some(core::cmp::Ordering::Less)
        } else if a == b {
            Option::Some(core::cmp::Ordering::Equal)
        } else {
            Option::Some(core::cmp::Ordering::Greater)
        }
    }
}

impl vstd::std_specs::cmp::PartialOrdSpecImpl for TpmRc {
    open spec fn obeys_partial_cmp_spec() -> bool {
        true
    }

    open spec fn partial_cmp_spec(&self, other: &Self) -> Option<core::cmp::Ordering> {
        if self->0 < other->0 {
            Option::Some(core::cmp::Ordering::Less)
        } else if self->0 == other->0 {
            Option::Some(core::cmp::Ordering::Equal)
        } else {
            Option::Some(core::cmp::Ordering::Greater)
        }
    }
}

/// Equality and ordering of `TpmRc` go by the raw integer alone: values built
/// from raw integers are equal exactly when the integers are, and compare as
/// the integers do. In particular a value built from an integer matching no
/// known name is a legal value, equal to every value built from the same
/// integer.
pub proof fn lemma_tpm_rc_raw_semantics(x: u32, y: u32)
    ensures
        (TpmRc::Value(x) == TpmRc::Value(y)) <==> x == y,
        TpmRc::Value(x).partial_cmp_spec(&TpmRc::Value(y)) == x.partial_cmp_spec(&y),
{
}

/// Round trip through the wire encoding: a `TpmRc` built from any raw
/// integer of the enumeration's width, marshaled big-endian and unmarshaled
/// again, is the same value.
pub proof fn lemma_tpm_rc_round_trip(v: u32)
    ensures
        TpmRc::Value(spec_be_value32(spec_be_bytes32(v))) == TpmRc::Value(v),
{
    lemma_be_round_trip32(v);
}

} // verus!
