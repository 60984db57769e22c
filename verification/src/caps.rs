//! Capability categories, property tags, and PCR property selectors.
use crate::codec::{ByteSink, CodecError, lemma_be_round_trip32, read_be_u32, spec_be_bytes32, spec_be_value32};
use crate::hex::{render_hex, spec_hex_render};
use vstd::prelude::*;
use vstd::std_specs::cmp::PartialOrdSpec;
use vstd::string::StringExecFns;

verus! {

/// TpmCap represents a TPM_CAP, a capability category.
/// See definition in Part 2: Structures, section 6.12.
///
/// An open enumeration: one variant carrying the raw backing integer, so
/// every 32-bit value is legal whether or not it matches a known name.
#[derive(Clone, Copy, Debug, PartialEq, Eq, Structural)]
pub enum TpmCap {
    /// The raw backing integer.
    Value(u32),
}

impl TpmCap {
    /// `Algs`.
    pub const ALGS: u32 = 0x00000000;

    /// `Handles`.
    pub const HANDLES: u32 = 0x00000001;

    /// `Commands`.
    pub const COMMANDS: u32 = 0x00000002;

    /// `PPCommands`.
    pub const PP_COMMANDS: u32 = 0x00000003;

    /// `AuditCommands`.
    pub const AUDIT_COMMANDS: u32 = 0x00000004;

    /// `PCRs`.
    pub const PC_RS: u32 = 0x00000005;

    /// `TPMProperties`.
    pub const TPM_PROPERTIES: u32 = 0x00000006;

    /// `PCRProperties`.
    pub const PCR_PROPERTIES: u32 = 0x00000007;

    /// `ECCCurves`.
    pub const ECC_CURVES: u32 = 0x00000008;

    /// `AuthPolicies`.
    pub const AUTH_POLICIES: u32 = 0x00000009;

    /// `ACT`.
    pub const ACT: u32 = 0x0000000A;

    /// Builds the value carrying `value`, named or not: the enumeration is
    /// open, so every 32-bit integer is a legal value.
    pub fn new(value: u32) -> (r: TpmCap)
        ensures
            r->0 == value,
    {
        TpmCap::Value(value)
    }

    /// The raw backing integer.
    pub fn get(&self) -> (r: u32)
        ensures
            r == self->0,
    {
        match *self {
            TpmCap::Value(v) => v,
        }
    }

    /// Whether `value` matches one of the named constants.
    pub open spec fn known(value: u32) -> bool {
        ||| value == TpmCap::ALGS
        ||| value == TpmCap::HANDLES
        ||| value == TpmCap::COMMANDS
        ||| value == TpmCap::PP_COMMANDS
        ||| value == TpmCap::AUDIT_COMMANDS
        ||| value == TpmCap::PC_RS
        ||| value == TpmCap::TPM_PROPERTIES
        ||| value == TpmCap::PCR_PROPERTIES
        ||| value == TpmCap::ECC_CURVES
        ||| value == TpmCap::AUTH_POLICIES
        ||| value == TpmCap::ACT
    }

    /// The name `value` matches, if any.
    pub fn name_of(value: u32) -> (r: Option<&'static str>)
        ensures
            r is Some <==> TpmCap::known(value),
    {
        if value == TpmCap::ALGS {
            Option::Some("Algs")
        } else if value == TpmCap::HANDLES {
            Option::Some("Handles")
        } else if value == TpmCap::COMMANDS {
            Option::Some("Commands")
        } else if value == TpmCap::PP_COMMANDS {
            Option::Some("PPCommands")
        } else if value == TpmCap::AUDIT_COMMANDS {
            Option::Some("AuditCommands")
        } else if value == TpmCap::PC_RS {
            Option::Some("PCRs")
        } else if value == TpmCap::TPM_PROPERTIES {
            Option::Some("TPMProperties")
        } else if value == TpmCap::PCR_PROPERTIES {
            Option::Some("PCRProperties")
        } else if value == TpmCap::ECC_CURVES {
            Option::Some("ECCCurves")
        } else if value == TpmCap::AUTH_POLICIES {
            Option::Some("AuthPolicies")
        } else if value == TpmCap::ACT {
            Option::Some("ACT")
        } else {
            Option::None
        }
    }

    /// Renders the known name, or the raw integer as a hexadecimal literal:
    /// diagnostics never fail, and an unknown value keeps its exact bits.
    pub fn render(&self) -> (s: String)
        ensures
            !TpmCap::known(self->0) ==> s@ == spec_hex_render(self->0 as u32, 8),
    {
        let v = self.get();
        match TpmCap::name_of(v) {
            Option::Some(n) => String::from_str(n),
            Option::None => render_hex(v as u32, 8),
        }
    }

    /// Writes the raw integer big-endian at the enumeration's 32-bit width;
    /// the only failure is a sink without room for the whole integer, which
    /// leaves the sink unchanged.
    pub fn marshal(&self, sink: &mut ByteSink) -> (r: Result<(), CodecError>)
        ensures
            final(sink).capacity == old(sink).capacity,
            old(sink).spec_remaining() >= 4 ==> r == Ok::<(), CodecError>(())
                && final(sink).data@ == old(sink).data@ + spec_be_bytes32(self->0),
            old(sink).spec_remaining() < 4 ==> r == Err::<(), CodecError>(
                CodecError::BufferTooSmall,
            ) && final(sink).data@ == old(sink).data@,
    {
        sink.write_be_u32(self.get())
    }

    /// Reads a big-endian 32-bit integer at `offset` and builds the value
    /// from it, recognized or not; the only failure is a source holding fewer
    /// bytes than the width asks for.
    pub fn unmarshal(buf: &[u8], offset: usize) -> (r: Result<(TpmCap, usize), CodecError>)
        ensures
            offset + 4 <= buf@.len() ==> r == Ok::<(TpmCap, usize), CodecError>(
                (TpmCap::Value(spec_be_value32(buf@.subrange(offset as int, offset + 4))), (
                offset + 4) as usize),
            ),
            offset + 4 > buf@.len() ==> r == Err::<(TpmCap, usize), CodecError>(
                CodecError::Truncated,
            ),
    {
        match read_be_u32(buf, offset) {
            Ok((v, next)) => Ok((TpmCap::Value(v), next)),
            Err(e) => Err(e),
        }
    }
}

impl Default for TpmCap {
    /// The zero value, as for the derived `Default` of a plain integer.
    fn default() -> (r: Self)
        ensures
            r->0 == 0,
    {
        TpmCap::Value(0)
    }
}

impl PartialOrd for TpmCap {
    fn partial_cmp(&self, other: &Self) -> (r: Option<core::cmp::Ordering>) {
        let a = self.get();
        let b = other.get();
        if a < b {
            Option::Some(core::cmp::Ordering::Less)
        } else if a == b {
            Option::Some(core::cmp::Ordering::Equal)
        } else {
            Option::Some(core::cmp::Ordering::Greater)
        }
    }
}

impl vstd::std_specs::cmp::PartialOrdSpecImpl for TpmCap {
    open spec fn obeys_partial_cmp_spec() -> bool {
        true
    }

    open spec fn partial_cmp_spec(&self, other: &Self) -> Option<core::cmp::Ordering> {
        if self->0 < other->0 {
            Option::Some(core::cmp::Ordering::Less)
        } else if self->0 == other->0 {
            Option::Some(core::cmp::Ordering::Equal)
        } else {
            Option::Some(core::cmp::Ordering::Greater)
        }
    }
}

/// Equality and ordering of `TpmCap` go by the raw integer alone: values built
/// from raw integers are equal exactly when the integers are, and compare as
/// the integers do. In particular a value built from an integer matching no
/// known name is a legal value, equal to every value built from the same
/// integer.
pub proof fn lemma_tpm_cap_raw_semantics(x: u32, y: u32)
    ensures
        (TpmCap::Value(x) == TpmCap::Value(y)) <==> x == y,
        TpmCap::Value(x).partial_cmp_spec(&TpmCap::Value(y)) == x.partial_cmp_spec(&y),
{
}

/// Round trip through the wire encoding: a `TpmCap` built from any raw
/// integer of the enumeration's width, marshaled big-endian and unmarshaled
/// again, is the same value.
pub proof fn lemma_tpm_cap_round_trip(v: u32)
    ensures
        TpmCap::Value(spec_be_value32(spec_be_bytes32(v))) == TpmCap::Value(v),
{
    lemma_be_round_trip32(v);
}

/// TpmPt represents a TPM_PT, a property tag.
/// See definition in Part 2: Structures, section 6.13.
///
/// An open enumeration: one variant carrying the raw backing integer, so
/// every 32-bit value is legal whether or not it matches a known name.
#[derive(Clone, Copy, Debug, PartialEq, Eq, Structural)]
pub enum TpmPt {
    /// The raw backing integer.
    Value(u32),
}

impl TpmPt {
    /// a 4-octet character string containing the TPM Family value
    /// (TPM_SPEC_FAMILY)
    pub const FAMILY_INDICATOR: u32 = 0x00000100;

    /// the level of the specification
    pub const LEVEL: u32 = 0x00000101;

    /// the specification Revision times 100
    pub const REVISION: u32 = 0x00000102;

    /// the specification day of year using TCG calendar
    pub const DAYOF_YEAR: u32 = 0x00000103;

    /// the specification year using the CE
    pub const YEAR: u32 = 0x00000104;

    /// the vendor ID unique to each TPM manufacturer
    pub const MANUFACTURER: u32 = 0x00000105;

    /// the first four characters of the vendor ID string
    pub const VENDOR_STRING1: u32 = 0x00000106;

    /// the second four characters of the vendor ID string
    pub const VENDOR_STRING2: u32 = 0x00000107;

    /// the third four characters of the vendor ID string
    pub const VENDOR_STRING3: u32 = 0x00000108;

    /// the fourth four characters of the vendor ID sting
    pub const VENDOR_STRING4: u32 = 0x00000109;

    /// vendor-defined value indicating the TPM model
    pub const VENDOR_TPM_TYPE: u32 = 0x0000010A;

    /// the most-significant 32 bits of a TPM vendor-specific value
    /// indicating the version number of the firmware.
    pub const FIRMWARE_VERSION1: u32 = 0x0000010B;

    /// the least-significant 32 bits of a TPM vendor-specific value
    /// indicating the version number of the firmware.
    pub const FIRMWARE_VERSION2: u32 = 0x0000010C;

    /// the maximum size of a parameter TPM2B_MAX_BUFFER)
    pub const INPUT_BUFFER: u32 = 0x0000010D;

    /// the minimum number of transient objects that can be held in TPM RAM
    pub const HR_TRANSIENT_MIN: u32 = 0x0000010E;

    /// the minimum number of persistent objects that can be held in TPM NV
    /// memory
    pub const HR_PERSISTENT_MIN: u32 = 0x0000010F;

    /// the minimum number of authorization sessions that can be held in TPM
    /// RAM
    pub const HR_LOADED_MIN: u32 = 0x00000110;

    /// the number of authorization sessions that may be active at a time
    pub const ACTIVE_SESSIONS_MAX: u32 = 0x00000111;

    /// the number of PCR implemented
    pub const PCR_COUNT: u32 = 0x00000112;

    /// the minimum number of octets in a TPMS_PCR_SELECT.sizeOfSelect
    pub const PCR_SELECT_MIN: u32 = 0x00000113;

    /// the maximum allowed difference (unsigned) between the contextID
    /// values of two saved session contexts
    pub const CONTEXT_GAP_MAX: u32 = 0x00000114;

    /// the maximum number of NV Indexes that are allowed to have the
    /// TPM_NT_COUNTER attribute
    pub const NV_COUNTERS_MAX: u32 = 0x00000116;

    /// the maximum size of an NV Index data area
    pub const NV_INDEX_MAX: u32 = 0x00000117;

    /// a TPMA_MEMORY indicating the memory management method for the TPM
    pub const MEMORY: u32 = 0x00000118;

    /// interval, in milliseconds, between updates to the copy of
    /// TPMS_CLOCK_INFO.clock in NV
    pub const CLOCK_UPDATE: u32 = 0x00000119;

    /// the algorithm used for the integrity HMAC on saved contexts and for
    /// hashing the fuData of TPM2_FirmwareRead()
    pub const CONTEXT_HASH: u32 = 0x0000011A;

    /// TPM_ALG_ID, the algorithm used for encryption of saved contexts
    pub const CONTEXT_SYM: u32 = 0x0000011B;

    /// TPM_KEY_BITS, the size of the key used for encryption of saved
    /// contexts
    pub const CONTEXT_SYM_SIZE: u32 = 0x0000011C;

    /// the modulus - 1 of the count for NV update of an orderly counter
    pub const ORDERLY_COUNT: u32 = 0x0000011D;

    /// the maximum value for commandSize in a command
    pub const MAX_COMMAND_SIZE: u32 = 0x0000011E;

    /// the maximum value for responseSize in a response
    pub const MAX_RESPONSE_SIZE: u32 = 0x0000011F;

    /// the maximum size of a digest that can be produced by the TPM
    pub const MAX_DIGEST: u32 = 0x00000120;

    /// the maximum size of an object context that will be returned by
    /// TPM2_ContextSave
    pub const MAX_OBJECT_CONTEXT: u32 = 0x00000121;

    /// the maximum size of a session context that will be returned by
    /// TPM2_ContextSave
    pub const MAX_SESSION_CONTEXT: u32 = 0x00000122;

    /// platform-specific family (a TPM_PS value)(see Table 25)
    pub const PS_FAMILY_INDICATOR: u32 = 0x00000123;

    /// the level of the platform-specific specification
    pub const PS_LEVEL: u32 = 0x00000124;

    /// a platform specific value
    pub const PS_REVISION: u32 = 0x00000125;

    /// the platform-specific TPM specification day of year using TCG
    /// calendar
    pub const PS_DAY_OF_YEAR: u32 = 0x00000126;

    /// the platform-specific TPM specification year using the CE
    pub const PS_YEAR: u32 = 0x00000127;

    /// the number of split signing operations supported by the TPM
    pub const SPLIT_MAX: u32 = 0x00000128;

    /// total number of commands implemented in the TPM
    pub const TOTAL_COMMANDS: u32 = 0x00000129;

    /// number of commands from the TPM library that are implemented
    pub const LIBRARY_COMMANDS: u32 = 0x0000012A;

    /// number of vendor commands that are implemented
    pub const VENDOR_COMMANDS: u32 = 0x0000012B;

    /// the maximum data size in one NV write, NV read, NV extend, or NV
    /// certify command
    pub const NV_BUFFER_MAX: u32 = 0x0000012C;

    /// a TPMA_MODES value, indicating that the TPM is designed for these
    /// modes.
    pub const MODES: u32 = 0x0000012D;

    /// the maximum size of a TPMS_CAPABILITY_DATA structure returned in
    /// TPM2_GetCapability().
    pub const MAX_CAP_BUFFER: u32 = 0x0000012E;

    /// TPMA_PERMANENT
    pub const PERMANENT: u32 = 0x00000200;

    /// TPMA_STARTUP_CLEAR
    pub const STARTUP_CLEAR: u32 = 0x00000201;

    /// the number of NV Indexes currently defined
    pub const HRNV_INDEX: u32 = 0x00000202;

    /// the number of authorization sessions currently loaded into TPM RAM
    pub const HR_LOADED: u32 = 0x00000203;

    /// the number of additional authorization sessions, of any type, that
    /// could be loaded into TPM RAM
    pub const HR_LOADED_AVAIL: u32 = 0x00000204;

    /// the number of active authorization sessions currently being tracked
    /// by the TPM
    pub const HR_ACTIVE: u32 = 0x00000205;

    /// the number of additional authorization sessions, of any type, that
    /// could be created
    pub const HR_ACTIVE_AVAIL: u32 = 0x00000206;

    /// estimate of the number of additional transient objects that could be
    /// loaded into TPM RAM
    pub const HR_TRANSIENT_AVAIL: u32 = 0x00000207;

    /// the number of persistent objects currently loaded into TPM NV memory
    pub const HR_PERSISTENT: u32 = 0x00000208;

    /// the number of additional persistent objects that could be loaded into
    /// NV memory
    pub const HR_PERSISTENT_AVAIL: u32 = 0x00000209;

    /// the number of defined NV Indexes that have NV the TPM_NT_COUNTER
    /// attribute
    pub const NV_COUNTERS: u32 = 0x0000020A;

    /// the number of additional NV Indexes that can be defined with their
    /// TPM_NT of TPM_NV_COUNTER and the TPMA_NV_ORDERLY attribute SET
    pub const NV_COUNTERS_AVAIL: u32 = 0x0000020B;

    /// code that limits the algorithms that may be used with the TPM
    pub const ALGORITHM_SET: u32 = 0x0000020C;

    /// the number of loaded ECC curves
    pub const LOADED_CURVES: u32 = 0x0000020D;

    /// the current value of the lockout counter (failedTries)
    pub const LOCKOUT_COUNTER: u32 = 0x0000020E;

    /// the number of authorization failures before DA lockout is invoked
    pub const MAX_AUTH_FAIL: u32 = 0x0000020F;

    /// the number of seconds before the value reported by
    /// TPM_PT_LOCKOUT_COUNTER is decremented
    pub const LOCKOUT_INTERVAL: u32 = 0x00000210;

    /// the number of seconds after a lockoutAuth failure before use of
    /// lockoutAuth may be attempted again
    pub const LOCKOUT_RECOVERY: u32 = 0x00000211;

    /// number of milliseconds before the TPM will accept another command
    /// that will modify NV
    pub const NV_WRITE_RECOVERY: u32 = 0x00000212;

    /// the high-order 32 bits of the command audit counter
    pub const AUDIT_COUNTER0: u32 = 0x00000213;

    /// the low-order 32 bits of the command audit counter
    pub const AUDIT_COUNTER1: u32 = 0x00000214;

    /// Builds the value carrying `value`, named or not: the enumeration is
    /// open, so every 32-bit integer is a legal value.
    pub fn new(value: u32) -> (r: TpmPt)
        ensures
            r->0 == value,
    {
        TpmPt::Value(value)
    }

    /// The raw backing integer.
    pub fn get(&self) -> (r: u32)
        ensures
            r == self->0,
    {
        match *self {
            TpmPt::Value(v) => v,
        }
    }

    /// Whether `value` matches one of the named constants.
    pub open spec fn known(value: u32) -> bool {
        ||| value == TpmPt::FAMILY_INDICATOR
        ||| value == TpmPt::LEVEL
        ||| value == TpmPt::REVISION
        ||| value == TpmPt::DAYOF_YEAR
        ||| value == TpmPt::YEAR
        ||| value == TpmPt::MANUFACTURER
        ||| value == TpmPt::VENDOR_STRING1
        ||| value == TpmPt::VENDOR_STRING2
        ||| value == TpmPt::VENDOR_STRING3
        ||| value == TpmPt::VENDOR_STRING4
        ||| value == TpmPt::VENDOR_TPM_TYPE
        ||| value == TpmPt::FIRMWARE_VERSION1
        ||| value == TpmPt::FIRMWARE_VERSION2
        ||| value == TpmPt::INPUT_BUFFER
        ||| value == TpmPt::HR_TRANSIENT_MIN
        ||| value == TpmPt::HR_PERSISTENT_MIN
        ||| value == TpmPt::HR_LOADED_MIN
        ||| value == TpmPt::ACTIVE_SESSIONS_MAX
        ||| value == TpmPt::PCR_COUNT
        ||| value == TpmPt::PCR_SELECT_MIN
        ||| value == TpmPt::CONTEXT_GAP_MAX
        ||| value == TpmPt::NV_COUNTERS_MAX
        ||| value == TpmPt::NV_INDEX_MAX
        ||| value == TpmPt::MEMORY
        ||| value == TpmPt::CLOCK_UPDATE
        ||| value == TpmPt::CONTEXT_HASH
        ||| value == TpmPt::CONTEXT_SYM
        ||| value == TpmPt::CONTEXT_SYM_SIZE
        ||| value == TpmPt::ORDERLY_COUNT
        ||| value == TpmPt::MAX_COMMAND_SIZE
        ||| value == TpmPt::MAX_RESPONSE_SIZE
        ||| value == TpmPt::MAX_DIGEST
        ||| value == TpmPt::MAX_OBJECT_CONTEXT
        ||| value == TpmPt::MAX_SESSION_CONTEXT
        ||| value == TpmPt::PS_FAMILY_INDICATOR
        ||| value == TpmPt::PS_LEVEL
        ||| value == TpmPt::PS_REVISION
        ||| value == TpmPt::PS_DAY_OF_YEAR
        ||| value == TpmPt::PS_YEAR
        ||| value == TpmPt::SPLIT_MAX
        ||| value == TpmPt::TOTAL_COMMANDS
        ||| value == TpmPt::LIBRARY_COMMANDS
        ||| value == TpmPt::VENDOR_COMMANDS
        ||| value == TpmPt::NV_BUFFER_MAX
        ||| value == TpmPt::MODES
        ||| value == TpmPt::MAX_CAP_BUFFER
        ||| value == TpmPt::PERMANENT
        ||| value == TpmPt::STARTUP_CLEAR
        ||| value == TpmPt::HRNV_INDEX
        ||| value == TpmPt::HR_LOADED
        ||| value == TpmPt::HR_LOADED_AVAIL
        ||| value == TpmPt::HR_ACTIVE
        ||| value == TpmPt::HR_ACTIVE_AVAIL
        ||| value == TpmPt::HR_TRANSIENT_AVAIL
        ||| value == TpmPt::HR_PERSISTENT
        ||| value == TpmPt::HR_PERSISTENT_AVAIL
        ||| value == TpmPt::NV_COUNTERS
        ||| value == TpmPt::NV_COUNTERS_AVAIL
        ||| value == TpmPt::ALGORITHM_SET
        ||| value == TpmPt::LOADED_CURVES
        ||| value == TpmPt::LOCKOUT_COUNTER
        ||| value == TpmPt::MAX_AUTH_FAIL
        ||| value == TpmPt::LOCKOUT_INTERVAL
        ||| value == TpmPt::LOCKOUT_RECOVERY
        ||| value == TpmPt::NV_WRITE_RECOVERY
        ||| value == TpmPt::AUDIT_COUNTER0
        ||| value == TpmPt::AUDIT_COUNTER1
    }

    /// The name `value` matches, if any.
    #[verifier::rlimit(50)]
    pub fn name_of(value: u32) -> (r: Option<&'static str>)
        ensures
            r is Some <==> TpmPt::known(value),
    {
        if value == TpmPt::FAMILY_INDICATOR {
            Option::Some("FamilyIndicator")
        } else if value == TpmPt::LEVEL {
            Option::Some("Level")
        } else if value == TpmPt::REVISION {
            Option::Some("Revision")
        } else if value == TpmPt::DAYOF_YEAR {
            Option::Some("DayofYear")
        } else if value == TpmPt::YEAR {
            Option::Some("Year")
        } else if value == TpmPt::MANUFACTURER {
            Option::Some("Manufacturer")
        } else if value == TpmPt::VENDOR_STRING1 {
            Option::Some("VendorString1")
        } else if value == TpmPt::VENDOR_STRING2 {
            Option::Some("VendorString2")
        } else if value == TpmPt::VENDOR_STRING3 {
            Option::Some("VendorString3")
        } else if value == TpmPt::VENDOR_STRING4 {
            Option::Some("VendorString4")
        } else if value == TpmPt::VENDOR_TPM_TYPE {
            Option::Some("VendorTPMType")
        } else if value == TpmPt::FIRMWARE_VERSION1 {
            Option::Some("FirmwareVersion1")
        } else if value == TpmPt::FIRMWARE_VERSION2 {
            Option::Some("FirmwareVersion2")
        } else if value == TpmPt::INPUT_BUFFER {
            Option::Some("InputBuffer")
        } else if value == TpmPt::HR_TRANSIENT_MIN {
            Option::Some("HRTransientMin")
        } else if value == TpmPt::HR_PERSISTENT_MIN {
            Option::Some("HRPersistentMin")
        } else if value == TpmPt::HR_LOADED_MIN {
            Option::Some("HRLoadedMin")
        } else if value == TpmPt::ACTIVE_SESSIONS_MAX {
            Option::Some("ActiveSessionsMax")
        } else if value == TpmPt::PCR_COUNT {
            Option::Some("PCRCount")
        } else if value == TpmPt::PCR_SELECT_MIN {
            Option::Some("PCRSelectMin")
        } else if value == TpmPt::CONTEXT_GAP_MAX {
            Option::Some("ContextGapMax")
        } else if value == TpmPt::NV_COUNTERS_MAX {
            Option::Some("NVCountersMax")
        } else if value == TpmPt::NV_INDEX_MAX {
            Option::Some("NVIndexMax")
        } else if value == TpmPt::MEMORY {
            Option::Some("Memory")
        } else if value == TpmPt::CLOCK_UPDATE {
            Option::Some("ClockUpdate")
        } else if value == TpmPt::CONTEXT_HASH {
            Option::Some("ContextHash")
        } else if value == TpmPt::CONTEXT_SYM {
            Option::Some("ContextSym")
        } else if value == TpmPt::CONTEXT_SYM_SIZE {
            Option::Some("ContextSymSize")
        } else if value == TpmPt::ORDERLY_COUNT {
            Option::Some("OrderlyCount")
        } else if value == TpmPt::MAX_COMMAND_SIZE {
            Option::Some("MaxCommandSize")
        } else if value == TpmPt::MAX_RESPONSE_SIZE {
            Option::Some("MaxResponseSize")
        } else if value == TpmPt::MAX_DIGEST {
            Option::Some("MaxDigest")
        } else if value == TpmPt::MAX_OBJECT_CONTEXT {
            Option::Some("MaxObjectContext")
        } else if value == TpmPt::MAX_SESSION_CONTEXT {
            Option::Some("MaxSessionContext")
        } else if value == TpmPt::PS_FAMILY_INDICATOR {
            Option::Some("PSFamilyIndicator")
        } else if value == TpmPt::PS_LEVEL {
            Option::Some("PSLevel")
        } else if value == TpmPt::PS_REVISION {
            Option::Some("PSRevision")
        } else if value == TpmPt::PS_DAY_OF_YEAR {
            Option::Some("PSDayOfYear")
        } else if value == TpmPt::PS_YEAR {
            Option::Some("PSYear")
        } else if value == TpmPt::SPLIT_MAX {
            Option::Some("SplitMax")
        } else if value == TpmPt::TOTAL_COMMANDS {
            Option::Some("TotalCommands")
        } else if value == TpmPt::LIBRARY_COMMANDS {
            Option::Some("LibraryCommands")
        } else if value == TpmPt::VENDOR_COMMANDS {
            Option::Some("VendorCommands")
        } else if value == TpmPt::NV_BUFFER_MAX {
            Option::Some("NVBufferMax")
        } else if value == TpmPt::MODES {
            Option::Some("Modes")
        } else if value == TpmPt::MAX_CAP_BUFFER {
            Option::Some("MaxCapBuffer")
        } else if value == TpmPt::PERMANENT {
            Option::Some("Permanent")
        } else if value == TpmPt::STARTUP_CLEAR {
            Option::Some("StartupClear")
        } else if value == TpmPt::HRNV_INDEX {
            Option::Some("HRNVIndex")
        } else if value == TpmPt::HR_LOADED {
            Option::Some("HRLoaded")
        } else if value == TpmPt::HR_LOADED_AVAIL {
            Option::Some("HRLoadedAvail")
        } else if value == TpmPt::HR_ACTIVE {
            Option::Some("HRActive")
        } else if value == TpmPt::HR_ACTIVE_AVAIL {
            Option::Some("HRActiveAvail")
        } else if value == TpmPt::HR_TRANSIENT_AVAIL {
            Option::Some("HRTransientAvail")
        } else if value == TpmPt::HR_PERSISTENT {
            Option::Some("HRPersistent")
        } else if value == TpmPt::HR_PERSISTENT_AVAIL {
            Option::Some("HRPersistentAvail")
        } else if value == TpmPt::NV_COUNTERS {
            Option::Some("NVCounters")
        } else if value == TpmPt::NV_COUNTERS_AVAIL {
            Option::Some("NVCountersAvail")
        } else if value == TpmPt::ALGORITHM_SET {
            Option::Some("AlgorithmSet")
        } else if value == TpmPt::LOADED_CURVES {
            Option::Some("LoadedCurves")
        } else if value == TpmPt::LOCKOUT_COUNTER {
            Option::Some("LockoutCounter")
        } else if value == TpmPt::MAX_AUTH_FAIL {
            Option::Some("MaxAuthFail")
        } else if value == TpmPt::LOCKOUT_INTERVAL {
            Option::Some("LockoutInterval")
        } else if value == TpmPt::LOCKOUT_RECOVERY {
            Option::Some("LockoutRecovery")
        } else if value == TpmPt::NV_WRITE_RECOVERY {
            Option::Some("NVWriteRecovery")
        } else if value == TpmPt::AUDIT_COUNTER0 {
            Option::Some("AuditCounter0")
        } else if value == TpmPt::AUDIT_COUNTER1 {
            Option::Some("AuditCounter1")
        } else {
            Option::None
        }
    }

    /// Renders the known name, or the raw integer as a hexadecimal literal:
    /// diagnostics never fail, and an unknown value keeps its exact bits.
    pub fn render(&self) -> (s: String)
        ensures
            !TpmPt::known(self->0) ==> s@ == spec_hex_render(self->0 as u32, 8),
    {
        let v = self.get();
        match TpmPt::name_of(v) {
            Option::Some(n) => String::from_str(n),
            Option::None => render_hex(v as u32, 8),
        }
    }

    /// Writes the raw integer big-endian at the enumeration's 32-bit width;
    /// the only failure is a sink without room for the whole integer, which
    /// leaves the sink unchanged.
    pub fn marshal(&self, sink: &mut ByteSink) -> (r: Result<(), CodecError>)
        ensures
            final(sink).capacity == old(sink).capacity,
            old(sink).spec_remaining() >= 4 ==> r == Ok::<(), CodecError>(())
                && final(sink).data@ == old(sink).data@ + spec_be_bytes32(self->0),
            old(sink).spec_remaining() < 4 ==> r == Err::<(), CodecError>(
                CodecError::BufferTooSmall,
            ) && final(sink).data@ == old(sink).data@,
    {
        sink.write_be_u32(self.get())
    }

    /// Reads a big-endian 32-bit integer at `offset` and builds the value
    /// from it, recognized or not; the only failure is a source holding fewer
    /// bytes than the width asks for.
    pub fn unmarshal(buf: &[u8], offset: usize) -> (r: Result<(TpmPt, usize), CodecError>)
        ensures
            offset + 4 <= buf@.len() ==> r == Ok::<(TpmPt, usize), CodecError>(
                (TpmPt::Value(spec_be_value32(buf@.subrange(offset as int, offset + 4))), (
                offset + 4) as usize),
            ),
            offset + 4 > buf@.len() ==> r == Err::<(TpmPt, usize), CodecError>(
                CodecError::Truncated,
            ),
    {
        match read_be_u32(buf, offset) {
            Ok((v, next)) => Ok((TpmPt::Value(v), next)),
            Err(e) => Err(e),
        }
    }
}

impl Default for TpmPt {
    /// The zero value, as for the derived `Default` of a plain integer.
    fn default() -> (r: Self)
        ensures
            r->0 == 0,
    {
        TpmPt::Value(0)
    }
}

impl PartialOrd for TpmPt {
    fn partial_cmp(&self, other: &Self) -> (r: Option<core::cmp::Ordering>) {
        let a = self.get();
        let b = other.get();
        if a < b {
            Option::Some(core::cmp::Ordering::Less)
        } else if a == b {
            Option::Some(core::cmp::Ordering::Equal)
        } else {
            Option::Some(core::cmp::Ordering::Greater)
        }
    }
}

impl vstd::std_specs::cmp::PartialOrdSpecImpl for TpmPt {
    open spec fn obeys_partial_cmp_spec() -> bool {
        true
    }

    open spec fn partial_cmp_spec(&self, other: &Self) -> Option<core::cmp::Ordering> {
        if self->0 < other->0 {
            Option::Some(core::cmp::Ordering::Less)
        } else if self->0 == other->0 {
            Option::Some(core::cmp::Ordering::Equal)
        } else {
            Option::Some(core::cmp::Ordering::Greater)
        }
    }
}

/// Equality and ordering of `TpmPt` go by the raw integer alone: values built
/// from raw integers are equal exactly when the integers are, and compare as
/// the integers do. In particular a value built from an integer matching no
/// known name is a legal value, equal to every value built from the same
/// integer.
pub proof fn lemma_tpm_pt_raw_semantics(x: u32, y: u32)
    ensures
        (TpmPt::Value(x) == TpmPt::Value(y)) <==> x == y,
        TpmPt::Value(x).partial_cmp_spec(&TpmPt::Value(y)) == x.partial_cmp_spec(&y),
{
}

/// Round trip through the wire encoding: a `TpmPt` built from any raw
/// integer of the enumeration's width, marshaled big-endian and unmarshaled
/// again, is the same value.
pub proof fn lemma_tpm_pt_round_trip(v: u32)
    ensures
        TpmPt::Value(spec_be_value32(spec_be_bytes32(v))) == TpmPt::Value(v),
{
    lemma_be_round_trip32(v);
}

/// TpmPtPcr represents a TPM_PT_PCR, a PCR property selector.
/// See definition in Part 2: Structures, section 6.14.
///
/// An open enumeration: one variant carrying the raw backing integer, so
/// every 32-bit value is legal whether or not it matches a known name.
#[derive(Clone, Copy, Debug, PartialEq, Eq, Structural)]
pub enum TpmPtPcr {
    /// The raw backing integer.
    Value(u32),
}

impl TpmPtPcr {
    /// a SET bit in the TPMS_PCR_SELECT indicates that the PCR is saved and
    /// restored by TPM_SU_STATE
    pub const SAVE: u32 = 0x00000000;

    /// a SET bit in the TPMS_PCR_SELECT indicates that the PCR may be
    /// extended from locality 0
    pub const EXTEND_L0: u32 = 0x00000001;

    /// a SET bit in the TPMS_PCR_SELECT indicates that the PCR may be reset
    /// by TPM2_PCR_Reset() from locality 0
    pub const RESET_L0: u32 = 0x00000002;

    /// a SET bit in the TPMS_PCR_SELECT indicates that the PCR may be
    /// extended from locality 1
    pub const EXTEND_L1: u32 = 0x00000003;

    /// a SET bit in the TPMS_PCR_SELECT indicates that the PCR may be reset
    /// by TPM2_PCR_Reset() from locality 1
    pub const RESET_L1: u32 = 0x00000004;

    /// a SET bit in the TPMS_PCR_SELECT indicates that the PCR may be
    /// extended from locality 2
    pub const EXTEND_L2: u32 = 0x00000005;

    /// a SET bit in the TPMS_PCR_SELECT indicates that the PCR may be reset
    /// by TPM2_PCR_Reset() from locality 2
    pub const RESET_L2: u32 = 0x00000006;

    /// a SET bit in the TPMS_PCR_SELECT indicates that the PCR may be
    /// extended from locality 3
    pub const EXTEND_L3: u32 = 0x00000007;

    /// a SET bit in the TPMS_PCR_SELECT indicates that the PCR may be reset
    /// by TPM2_PCR_Reset() from locality 3
    pub const RESET_L3: u32 = 0x00000008;

    /// a SET bit in the TPMS_PCR_SELECT indicates that the PCR may be
    /// extended from locality 4
    pub const EXTEND_L4: u32 = 0x00000009;

    /// a SET bit in the TPMS_PCR_SELECT indicates that the PCR may be reset
    /// by TPM2_PCR_Reset() from locality 4
    pub const RESET_L4: u32 = 0x0000000A;

    /// a SET bit in the TPMS_PCR_SELECT indicates that modifications to this
    /// PCR (reset or Extend) will not increment the pcrUpdateCounter
    pub const NO_INCREMENT: u32 = 0x00000011;

    /// a SET bit in the TPMS_PCR_SELECT indicates that the PCR is reset by a
    /// D-RTM event
    pub const DRTM_REST: u32 = 0x00000012;

    /// a SET bit in the TPMS_PCR_SELECT indicates that the PCR is controlled
    /// by policy
    pub const POLICY: u32 = 0x00000013;

    /// a SET bit in the TPMS_PCR_SELECT indicates that the PCR is controlled
    /// by an authorization value
    pub const AUTH: u32 = 0x00000014;

    /// Builds the value carrying `value`, named or not: the enumeration is
    /// open, so every 32-bit integer is a legal value.
    pub fn new(value: u32) -> (r: TpmPtPcr)
        ensures
            r->0 == value,
    {
        TpmPtPcr::Value(value)
    }

    /// The raw backing integer.
    pub fn get(&self) -> (r: u32)
        ensures
            r == self->0,
    {
        match *self {
            TpmPtPcr::Value(v) => v,
        }
    }

    /// Whether `value` matches one of the named constants.
    pub open spec fn known(value: u32) -> bool {
        ||| value == TpmPtPcr::SAVE
        ||| value == TpmPtPcr::EXTEND_L0
        ||| value == TpmPtPcr::RESET_L0
        ||| value == TpmPtPcr::EXTEND_L1
        ||| value == TpmPtPcr::RESET_L1
        ||| value == TpmPtPcr::EXTEND_L2
        ||| value == TpmPtPcr::RESET_L2
        ||| value == TpmPtPcr::EXTEND_L3
        ||| value == TpmPtPcr::RESET_L3
        ||| value == TpmPtPcr::EXTEND_L4
        ||| value == TpmPtPcr::RESET_L4
        ||| value == TpmPtPcr::NO_INCREMENT
        ||| value == TpmPtPcr::DRTM_REST
        ||| value == TpmPtPcr::POLICY
        ||| value == TpmPtPcr::AUTH
    }

    /// The name `value` matches, if any.
    pub fn name_of(value: u32) -> (r: Option<&'static str>)
        ensures
            r is Some <==> TpmPtPcr::known(value),
    {
        if value == TpmPtPcr::SAVE {
            Option::Some("Save")
        } else if value == TpmPtPcr::EXTEND_L0 {
            Option::Some("ExtendL0")
        } else if value == TpmPtPcr::RESET_L0 {
            Option::Some("ResetL0")
        } else if value == TpmPtPcr::EXTEND_L1 {
            Option::Some("ExtendL1")
        } else if value == TpmPtPcr::RESET_L1 {
            Option::Some("ResetL1")
        } else if value == TpmPtPcr::EXTEND_L2 {
            Option::Some("ExtendL2")
        } else if value == TpmPtPcr::RESET_L2 {
            Option::Some("ResetL2")
        } else if value == TpmPtPcr::EXTEND_L3 {
            Option::Some("ExtendL3")
        } else if value == TpmPtPcr::RESET_L3 {
            Option::Some("ResetL3")
        } else if value == TpmPtPcr::EXTEND_L4 {
            Option::Some("ExtendL4")
        } else if value == TpmPtPcr::RESET_L4 {
            Option::Some("ResetL4")
        } else if value == TpmPtPcr::NO_INCREMENT {
            Option::Some("NoIncrement")
        } else if value == TpmPtPcr::DRTM_REST {
            Option::Some("DRTMRest")
        } else if value == TpmPtPcr::POLICY {
            Option::Some("Policy")
        } else if value == TpmPtPcr::AUTH {
            Option::Some("Auth")
        } else {
            Option::None
        }
    }

    /// Renders the known name, or the raw integer as a hexadecimal literal:
    /// diagnostics never fail, and an unknown value keeps its exact bits.
    pub fn render(&self) -> (s: String)
        ensures
            !TpmPtPcr::known(self->0) ==> s@ == spec_hex_render(self->0 as u32, 8),
    {
        let v = self.get();
        match TpmPtPcr::name_of(v) {
            Option::Some(n) => String::from_str(n),
            Option::None => render_hex(v as u32, 8),
        }
    }

    /// Writes the raw integer big-endian at the enumeration's 32-bit width;
    /// the only failure is a sink without room for the whole integer, which
    /// leaves the sink unchanged.
    pub fn marshal(&self, sink: &mut ByteSink) -> (r: Result<(), CodecError>)
        ensures
            final(sink).capacity == old(sink).capacity,
            old(sink).spec_remaining() >= 4 ==> r == Ok::<(), CodecError>(())
                && final(sink).data@ == old(sink).data@ + spec_be_bytes32(self->0),
            old(sink).spec_remaining() < 4 ==> r == Err::<(), CodecError>(
                CodecError::BufferTooSmall,
            ) && final(sink).data@ == old(sink).data@,
    {
        sink.write_be_u32(self.get())
    }

    /// Reads a big-endian 32-bit integer at `offset` and builds the value
    /// from it, recognized or not; the only failure is a source holding fewer
    /// bytes than the width asks for.
    pub fn unmarshal(buf: &[u8], offset: usize) -> (r: Result<(TpmPtPcr, usize), CodecError>)
        ensures
            offset + 4 <= buf@.len() ==> r == Ok::<(TpmPtPcr, usize), CodecError>(
                (TpmPtPcr::Value(spec_be_value32(buf@.subrange(offset as int, offset + 4))), (
                offset + 4) as usize),
            ),
            offset + 4 > buf@.len() ==> r == Err::<(TpmPtPcr, usize), CodecError>(
                CodecError::Truncated,
            ),
    {
        match read_be_u32(buf, offset) {
            Ok((v, next)) => Ok((TpmPtPcr::Value(v), next)),
            Err(e) => Err(e),
        }
    }
}

impl Default for TpmPtPcr {
    /// The zero value, as for the derived `Default` of a plain integer.
    fn default() -> (r: Self)
        ensures
            r->0 == 0,
    {
        TpmPtPcr::Value(0)
    }
}

impl PartialOrd for TpmPtPcr {
    fn partial_cmp(&self, other: &Self) -> (r: Option<core::cmp::Ordering>) {
        let a = self.get();
        let b = other.get();
        if a < b {
            Option::Some(core::cmp::Ordering::Less)
        } else if a == b {
            Option::Some(core::cmp::Ordering::Equal)
        } else {
            Option::Some(core::cmp::Ordering::Greater)
        }
    }
}

impl vstd::std_specs::cmp::PartialOrdSpecImpl for TpmPtPcr {
    open spec fn obeys_partial_cmp_spec() -> bool {
        true
    }

    open spec fn partial_cmp_spec(&self, other: &Self) -> Option<core::cmp::Ordering> {
        if self->0 < other->0 {
            Option::Some(core::cmp::Ordering::Less)
        } else if self->0 == other->0 {
            Option::Some(core::cmp::Ordering::Equal)
        } else {
            Option::Some(core::cmp::Ordering::Greater)
        }
    }
}

/// Equality and ordering of `TpmPtPcr` go by the raw integer alone: values built
/// from raw integers are equal exactly when the integers are, and compare as
/// the integers do. In particular a value built from an integer matching no
/// known name is a legal value, equal to every value built from the same
/// integer.
pub proof fn lemma_tpm_pt_pcr_raw_semantics(x: u32, y: u32)
    ensures
        (TpmPtPcr::Value(x) == TpmPtPcr::Value(y)) <==> x == y,
        TpmPtPcr::Value(x).partial_cmp_spec(&TpmPtPcr::Value(y)) == x.partial_cmp_spec(&y),
{
}

/// Round trip through the wire encoding: a `TpmPtPcr` built from any raw
/// integer of the enumeration's width, marshaled big-endian and unmarshaled
/// again, is the same value.
pub proof fn lemma_tpm_pt_pcr_round_trip(v: u32)
    ensures
        TpmPtPcr::Value(spec_be_value32(spec_be_bytes32(v))) == TpmPtPcr::Value(v),
{
    lemma_be_round_trip32(v);
}

} // verus!
