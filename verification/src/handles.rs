//! The handle model: handle-type tags, the permanent handles, and the
//! handle-range arithmetic of TPM_HC (see the TpmHc type), which splits a
//! 32-bit handle into an 8-bit category tag and a 24-bit index.
use crate::TPM2_MAX_ACTIVE_SESSIONS;
use crate::codec::{ByteSink, CodecError, lemma_be_round_trip32, lemma_be_round_trip8, read_be_u32, read_u8, spec_be_bytes32, spec_be_bytes8, spec_be_value32, spec_be_value8};
use crate::hex::{render_hex, spec_hex_render};
use vstd::prelude::*;
use vstd::std_specs::cmp::PartialOrdSpec;
use vstd::string::StringExecFns;

verus! {

/// TpmHt represents a TPM_HT, the handle-type tag held in the top byte of a handle.
/// See definition in Part 2: Structures, section 7.2.
///
/// An open enumeration: one variant carrying the raw backing integer, so
/// every 8-bit value is legal whether or not it matches a known name.
#[derive(Clone, Copy, Debug, PartialEq, Eq, Structural)]
pub enum TpmHt {
    /// The raw backing integer.
    Value(u8),
}

impl TpmHt {
    /// `PCR`.
    pub const PCR: u8 = 0x00;

    /// `NVIndex`.
    pub const NV_INDEX: u8 = 0x01;

    /// `HMACSession`.
    pub const HMAC_SESSION: u8 = 0x02;

    /// `PolicySession`.
    pub const POLICY_SESSION: u8 = 0x03;

    /// `Permanent`.
    pub const PERMANENT: u8 = 0x40;

    /// `Transient`.
    pub const TRANSIENT: u8 = 0x80;

    /// `Persistent`.
    pub const PERSISTENT: u8 = 0x81;

    /// `AC`.
    pub const AC: u8 = 0x90;

    /// Builds the value carrying `value`, named or not: the enumeration is
    /// open, so every 8-bit integer is a legal value.
    pub fn new(value: u8) -> (r: TpmHt)
        ensures
            r->0 == value,
    {
        TpmHt::Value(value)
    }

    /// The raw backing integer.
    pub fn get(&self) -> (r: u8)
        ensures
            r == self->0,
    {
        match *self {
            TpmHt::Value(v) => v,
        }
    }

    /// Whether `value` matches one of the named constants.
    pub open spec fn known(value: u8) -> bool {
        ||| value == TpmHt::PCR
        ||| value == TpmHt::NV_INDEX
        ||| value == TpmHt::HMAC_SESSION
        ||| value == TpmHt::POLICY_SESSION
        ||| value == TpmHt::PERMANENT
        ||| value == TpmHt::TRANSIENT
        ||| value == TpmHt::PERSISTENT
        ||| value == TpmHt::AC
    }

    /// The name `value` matches, if any.
    pub fn name_of(value: u8) -> (r: Option<&'static str>)
        ensures
            r is Some <==> TpmHt::known(value),
    {
        if value == TpmHt::PCR {
            Option::Some("PCR")
        } else if value == TpmHt::NV_INDEX {
            Option::Some("NVIndex")
        } else if value == TpmHt::HMAC_SESSION {
            Option::Some("HMACSession")
        } else if value == TpmHt::POLICY_SESSION {
            Option::Some("PolicySession")
        } else if value == TpmHt::PERMANENT {
            Option::Some("Permanent")
        } else if value == TpmHt::TRANSIENT {
            Option::Some("Transient")
        } else if value == TpmHt::PERSISTENT {
            Option::Some("Persistent")
        } else if value == TpmHt::AC {
            Option::Some("AC")
        } else {
            Option::None
        }
    }

    /// Renders the known name, or the raw integer as a hexadecimal literal:
    /// diagnostics never fail, and an unknown value keeps its exact bits.
    pub fn render(&self) -> (s: String)
        ensures
            !TpmHt::known(self->0) ==> s@ == spec_hex_render(self->0 as u32, 2),
    {
        let v = self.get();
        match TpmHt::name_of(v) {
            Option::Some(n) => String::from_str(n),
            Option::None => render_hex(v as u32, 2),
        }
    }

    /// Writes the raw integer big-endian at the enumeration's 8-bit width;
    /// the only failure is a sink without room for the whole integer, which
    /// leaves the sink unchanged.
    pub fn marshal(&self, sink: &mut ByteSink) -> (r: Result<(), CodecError>)
        ensures
            final(sink).capacity == old(sink).capacity,
            old(sink).spec_remaining() >= 1 ==> r == Ok::<(), CodecError>(())
                && final(sink).data@ == old(sink).data@ + spec_be_bytes8(self->0),
            old(sink).spec_remaining() < 1 ==> r == Err::<(), CodecError>(
                CodecError::BufferTooSmall,
            ) && final(sink).data@ == old(sink).data@,
    {
        sink.write_u8(self.get())
    }

    /// Reads a big-endian 8-bit integer at `offset` and builds the value
    /// from it, recognized or not; the only failure is a source holding fewer
    /// bytes than the width asks for.
    pub fn unmarshal(buf: &[u8], offset: usize) -> (r: Result<(TpmHt, usize), CodecError>)
        ensures
            offset + 1 <= buf@.len() ==> r == Ok::<(TpmHt, usize), CodecError>(
                (TpmHt::Value(spec_be_value8(buf@.subrange(offset as int, offset + 1))), (
                offset + 1) as usize),
            ),
            offset + 1 > buf@.len() ==> r == Err::<(TpmHt, usize), CodecError>(
                CodecError::Truncated,
            ),
    {
        match read_u8(buf, offset) {
            Ok((v, next)) => Ok((TpmHt::Value(v), next)),
            Err(e) => Err(e),
        }
    }
}

impl PartialOrd for TpmHt {
    fn partial_cmp(&self, other: &Self) -> (r: Option<core::cmp::Ordering>) {
        let a = self.get();
        let b = other.get();
        if a < b {
            Option::Some(core::cmp::Ordering::Less)
        } else if a == b {
            Option::Some(core::cmp::Ordering::Equal)
        } else {
            Option::Some(core::cmp::Ordering::Greater)
        }
    }
}

impl vstd::std_specs::cmp::PartialOrdSpecImpl for TpmHt {
    open spec fn obeys_partial_cmp_spec() -> bool {
        true
    }

    open spec fn partial_cmp_spec(&self, other: &Self) -> Option<core::cmp::Ordering> {
        if self->0 < other->0 {
            Option::Some(core::cmp::Ordering::Less)
        } else if self->0 == other->0 {
            Option::Some(core::cmp::Ordering::Equal)
        } else {
            Option::Some(core::cmp::Ordering::Greater)
        }
    }
}

/// Equality and ordering of `TpmHt` go by the raw integer alone: values built
/// from raw integers are equal exactly when the integers are, and compare as
/// the integers do. In particular a value built from an integer matching no
/// known name is a legal value, equal to every value built from the same
/// integer.
pub proof fn lemma_tpm_ht_raw_semantics(x: u8, y: u8)
    ensures
        (TpmHt::Value(x) == TpmHt::Value(y)) <==> x == y,
        TpmHt::Value(x).partial_cmp_spec(&TpmHt::Value(y)) == x.partial_cmp_spec(&y),
{
}

/// Round trip through the wire encoding: a `TpmHt` built from any raw
/// integer of the enumeration's width, marshaled big-endian and unmarshaled
/// again, is the same value.
pub proof fn lemma_tpm_ht_round_trip(v: u8)
    ensures
        TpmHt::Value(spec_be_value8(spec_be_bytes8(v))) == TpmHt::Value(v),
{
    lemma_be_round_trip8(v);
}

/// TpmHandle represents a TPM_HANDLE, here the permanent handles.
/// See definition in Part 2: Structures, section 7.1.
///
/// An open enumeration: one variant carrying the raw backing integer, so
/// every 32-bit value is legal whether or not it matches a known name.
#[derive(Clone, Copy, Debug, PartialEq, Eq, Structural)]
pub enum TpmHandle {
    /// The raw backing integer.
    Value(u32),
}

impl TpmHandle {
    /// `RHOwner`.
    pub const RH_OWNER: u32 = 0x40000001;

    /// `RHNull`.
    pub const RH_NULL: u32 = 0x40000007;

    /// `RSPW`.
    pub const RSPW: u32 = 0x40000009;

    /// `RHLockout`.
    pub const RH_LOCKOUT: u32 = 0x4000000A;

    /// `RHEndorsement`.
    pub const RH_ENDORSEMENT: u32 = 0x4000000B;

    /// `RHPlatform`.
    pub const RH_PLATFORM: u32 = 0x4000000C;

    /// `RHPlatformNV`.
    pub const RH_PLATFORM_NV: u32 = 0x4000000D;

    /// Builds the value carrying `value`, named or not: the enumeration is
    /// open, so every 32-bit integer is a legal value.
    pub fn new(value: u32) -> (r: TpmHandle)
        ensures
            r->0 == value,
    {
        TpmHandle::Value(value)
    }

    /// The raw backing integer.
    pub fn get(&self) -> (r: u32)
        ensures
            r == self->0,
    {
        match *self {
            TpmHandle::Value(v) => v,
        }
    }

    /// Whether `value` matches one of the named constants.
    pub open spec fn known(value: u32) -> bool {
        ||| value == TpmHandle::RH_OWNER
        ||| value == TpmHandle::RH_NULL
        ||| value == TpmHandle::RSPW
        ||| value == TpmHandle::RH_LOCKOUT
        ||| value == TpmHandle::RH_ENDORSEMENT
        ||| value == TpmHandle::RH_PLATFORM
        ||| value == TpmHandle::RH_PLATFORM_NV
    }

    /// The name `value` matches, if any.
    pub fn name_of(value: u32) -> (r: Option<&'static str>)
        ensures
            r is Some <==> TpmHandle::known(value),
    {
        if value == TpmHandle::RH_OWNER {
            Option::Some("RHOwner")
        } else if value == TpmHandle::RH_NULL {
            Option::Some("RHNull")
        } else if value == TpmHandle::RSPW {
            Option::Some("RSPW")
        } else if value == TpmHandle::RH_LOCKOUT {
            Option::Some("RHLockout")
        } else if value == TpmHandle::RH_ENDORSEMENT {
            Option::Some("RHEndorsement")
        } else if value == TpmHandle::RH_PLATFORM {
            Option::Some("RHPlatform")
        } else if value == TpmHandle::RH_PLATFORM_NV {
            Option::Some("RHPlatformNV")
        } else {
            Option::None
        }
    }

    /// Renders the known name, or the raw integer as a hexadecimal literal:
    /// diagnostics never fail, and an unknown value keeps its exact bits.
    pub fn render(&self) -> (s: String)
        ensures
            !TpmHandle::known(self->0) ==> s@ == spec_hex_render(self->0 as u32, 8),
    {
        let v = self.get();
        match TpmHandle::name_of(v) {
            Option::Some(n) => String::from_str(n),
            Option::None => render_hex(v as u32, 8),
        }
    }

    /// Writes the raw integer big-endian at the enumeration's 32-bit width;
    /// the only failure is a sink without room for the whole integer, which
    /// leaves the sink unchanged.
    pub fn marshal(&self, sink: &mut ByteSink) -> (r: Result<(), CodecError>)
        ensures
            final(sink).capacity == old(sink).capacity,
            old(sink).spec_remaining() >= 4 ==> r == Ok::<(), CodecError>(())
                && final(sink).data@ == old(sink).data@ + spec_be_bytes32(self->0),
            old(sink).spec_remaining() < 4 ==> r == Err::<(), CodecError>(
                CodecError::BufferTooSmall,
            ) && final(sink).data@ == old(sink).data@,
    {
        sink.write_be_u32(self.get())
    }

    /// Reads a big-endian 32-bit integer at `offset` and builds the value
    /// from it, recognized or not; the only failure is a source holding fewer
    /// bytes than the width asks for.
    pub fn unmarshal(buf: &[u8], offset: usize) -> (r: Result<(TpmHandle, usize), CodecError>)
        ensures
            offset + 4 <= buf@.len() ==> r == Ok::<(TpmHandle, usize), CodecError>(
                (TpmHandle::Value(spec_be_value32(buf@.subrange(offset as int, offset + 4))), (
                offset + 4) as usize),
            ),
            offset + 4 > buf@.len() ==> r == Err::<(TpmHandle, usize), CodecError>(
                CodecError::Truncated,
            ),
    {
        match read_be_u32(buf, offset) {
            Ok((v, next)) => Ok((TpmHandle::Value(v), next)),
            Err(e) => Err(e),
        }
    }
}

impl Default for TpmHandle {
    /// The zero value, as for the derived `Default` of a plain integer.
    fn default() -> (r: Self)
        ensures
            r->0 == 0,
    {
        TpmHandle::Value(0)
    }
}

impl PartialOrd for TpmHandle {
    fn partial_cmp(&self, other: &Self) -> (r: Option<core::cmp::Ordering>) {
        let a = self.get();
        let b = other.get();
        if a < b {
            Option::Some(core::cmp::Ordering::Less)
        } else if a == b {
            Option::Some(core::cmp::Ordering::Equal)
        } else {
            Option::Some(core::cmp::Ordering::Greater)
        }
    }
}

impl vstd::std_specs::cmp::PartialOrdSpecImpl for TpmHandle {
    open spec fn obeys_partial_cmp_spec() -> bool {
        true
    }

    open spec fn partial_cmp_spec(&self, other: &Self) -> Option<core::cmp::Ordering> {
        if self->0 < other->0 {
            Option::Some(core::cmp::Ordering::Less)
        } else if self->0 == other->0 {
            Option::Some(core::cmp::Ordering::Equal)
        } else {
            Option::Some(core::cmp::Ordering::Greater)
        }
    }
}

/// Equality and ordering of `TpmHandle` go by the raw integer alone: values built
/// from raw integers are equal exactly when the integers are, and compare as
/// the integers do. In particular a value built from an integer matching no
/// known name is a legal value, equal to every value built from the same
/// integer.
pub proof fn lemma_tpm_handle_raw_semantics(x: u32, y: u32)
    ensures
        (TpmHandle::Value(x) == TpmHandle::Value(y)) <==> x == y,
        TpmHandle::Value(x).partial_cmp_spec(&TpmHandle::Value(y)) == x.partial_cmp_spec(&y),
{
}

/// Round trip through the wire encoding: a `TpmHandle` built from any raw
/// integer of the enumeration's width, marshaled big-endian and unmarshaled
/// again, is the same value.
pub proof fn lemma_tpm_handle_round_trip(v: u32)
    ensures
        TpmHandle::Value(spec_be_value32(spec_be_bytes32(v))) == TpmHandle::Value(v),
{
    lemma_be_round_trip32(v);
}

/// TpmHc represents a TPM_HC, a handle range constant.
/// See definition in Part 2: Structures, section 7.5.
///
/// A handle is a single 32-bit integer whose top byte is the handle-type tag
/// and whose low 24 bits are an index into that type's range: each tag owns
/// the contiguous range `[tag << 24, (tag << 24) + 0x00FFFFFF]`, and some
/// ranges are further bounded below the full 24-bit span (the session ranges,
/// by the maximum number of active sessions).
#[derive(Clone, Copy, Debug, PartialEq, Eq, Structural)]
pub struct TpmHc(pub u32);

/// The raw handle that starts the range of a handle-type tag: the tag in the
/// top byte, index zero.
pub open spec fn spec_range_base(tag: u8) -> u32 {
    (tag as u32) << 24
}

/// The handle-type tag encoded in the top byte of a raw handle.
pub open spec fn spec_tag(value: u32) -> u8 {
    ((value & 0xFF000000) >> 24) as u8
}

/// The index encoded in the low 24 bits of a raw handle.
pub open spec fn spec_index(value: u32) -> u32 {
    value & 0x00FFFFFF
}

/// Splitting any 32-bit handle into its tag and its index loses nothing:
/// shifting the tag back to the top byte and restoring the index yields the
/// handle unchanged.
pub proof fn lemma_tag_index_recompose(value: u32)
    ensures
        ((spec_tag(value) as u32) << 24) | spec_index(value) == value,
{
    assert((((((value & 0xFF000000) >> 24) as u8) as u32) << 24) | (value & 0x00FFFFFF)
        == value) by (bit_vector);
}

/// The published range constants are exactly the range arithmetic applied to
/// the handle-type tags: each `*_FIRST` is the tag's range base, each session
/// range is bounded by the active-session count, and each full range ends
/// `0x00FFFFFF` past its base.
pub proof fn lemma_range_constants()
    ensures
        TpmHc::HMAC_SESSION_FIRST == spec_range_base(TpmHt::HMAC_SESSION),
        TpmHc::HMAC_SESSION_LAST == TpmHc::HMAC_SESSION_FIRST + TPM2_MAX_ACTIVE_SESSIONS - 1,
        TpmHc::POLICY_SESSION_FIRST == spec_range_base(TpmHt::POLICY_SESSION),
        TpmHc::POLICY_SESSION_LAST == TpmHc::POLICY_SESSION_FIRST + TPM2_MAX_ACTIVE_SESSIONS - 1,
        TpmHc::PERSISTENT_FIRST == spec_range_base(TpmHt::PERSISTENT),
        TpmHc::PERSISTENT_LAST == TpmHc::PERSISTENT_FIRST + 0x00FFFFFF,
        TpmHc::NV_INDEX_FIRST == spec_range_base(TpmHt::NV_INDEX),
        TpmHc::NV_INDEX_LAST == TpmHc::NV_INDEX_FIRST + 0x00FFFFFF,
        TpmHc::PCR_FIRST == spec_range_base(TpmHt::PCR),
        TpmHc::TRANSIENT_FIRST == spec_range_base(TpmHt::TRANSIENT),
{
    assert((0x02u8 as u32) << 24 == 0x02000000u32) by (bit_vector);
    assert((0x03u8 as u32) << 24 == 0x03000000u32) by (bit_vector);
    assert((0x81u8 as u32) << 24 == 0x81000000u32) by (bit_vector);
    assert((0x01u8 as u32) << 24 == 0x01000000u32) by (bit_vector);
    assert((0x00u8 as u32) << 24 == 0x00000000u32) by (bit_vector);
    assert((0x80u8 as u32) << 24 == 0x80000000u32) by (bit_vector);
}

impl TpmHc {
    /// Masks off the index: the low 24 bits of a handle.
    pub const HR_HANDLE_MASK: u32 = 0x00FFFFFF;

    /// Masks off the handle-type tag: the top byte of a handle.
    pub const HR_RANGE_MASK: u32 = 0xFF000000;

    /// Bits the handle-type tag is shifted by.
    pub const HR_SHIFT: u32 = 24;

    /// The first PCR handle: the PCR range base.
    pub const PCR_FIRST: u32 = 0x00000000;

    /// The first HMAC session handle: the HMAC session range base.
    pub const HMAC_SESSION_FIRST: u32 = 0x02000000;

    /// The last HMAC session handle: the range is bounded by the maximum
    /// number of active sessions, not by the full 24-bit span.
    pub const HMAC_SESSION_LAST: u32 = 0x02000000 + TPM2_MAX_ACTIVE_SESSIONS - 1;

    /// The first policy session handle: the policy session range base.
    pub const POLICY_SESSION_FIRST: u32 = 0x03000000;

    /// The last policy session handle: the range is bounded by the maximum
    /// number of active sessions, not by the full 24-bit span.
    pub const POLICY_SESSION_LAST: u32 = 0x03000000 + TPM2_MAX_ACTIVE_SESSIONS - 1;

    /// The first transient object handle: the transient range base.
    pub const TRANSIENT_FIRST: u32 = 0x80000000;

    /// The first persistent object handle: the persistent range base.
    pub const PERSISTENT_FIRST: u32 = 0x81000000;

    /// The last persistent object handle: the range spans the full 24-bit
    /// index space.
    pub const PERSISTENT_LAST: u32 = 0x81000000 + 0x00FFFFFF;

    /// The first allowed NV index: the NV index range base.
    pub const NV_INDEX_FIRST: u32 = 0x01000000;

    /// The last allowed NV index: the range spans the full 24-bit index
    /// space.
    pub const NV_INDEX_LAST: u32 = 0x01000000 + 0x00FFFFFF;

    /// The range base for a handle-type tag: the tag in the top byte, index
    /// zero.
    pub fn new(handle_type: TpmHt) -> (r: TpmHc)
        ensures
            r.0 == spec_range_base(handle_type->0),
            spec_tag(r.0) == handle_type->0,
            spec_index(r.0) == 0,
    {
        let tag = handle_type.get();
        proof {
            let t = handle_type->0;
            assert(((((t as u32) << 24) & 0xFF000000) >> 24) as u8 == t && (((t as u32) << 24)
                & 0x00FFFFFF) == 0) by (bit_vector);
        }
        TpmHc((tag as u32) << 24)
    }

    /// The raw backing integer.
    pub fn get(&self) -> (r: u32)
        ensures
            r == self.0,
    {
        self.0
    }

    /// The handle-type tag of a raw handle: its top byte.
    pub fn extract_tag(value: u32) -> (r: u8)
        ensures
            r == spec_tag(value),
    {
        ((value & 0xFF000000) >> 24) as u8
    }

    /// The index of a raw handle: its low 24 bits.
    pub fn extract_index(value: u32) -> (r: u32)
        ensures
            r == spec_index(value),
    {
        value & 0x00FFFFFF
    }

    /// The raw handle with the given handle-type tag and index: a category
    /// base combined with a position in the category's range.
    pub fn compose(tag: u8, index: u32) -> (r: u32)
        requires
            index <= 0x00FFFFFF,
        ensures
            spec_tag(r) == tag,
            spec_index(r) == index,
    {
        proof {
            assert(index <= 0x00FFFFFFu32 ==> (((((tag as u32) << 24) | index) & 0xFF000000) >> 24)
                as u8 == tag && ((((tag as u32) << 24) | index) & 0x00FFFFFF)
                == index) by (bit_vector);
        }
        ((tag as u32) << 24) | index
    }

    /// The last handle of a range bounded to `count` handles starting at
    /// `base`, for ranges the specification bounds below the full 24-bit
    /// span.
    pub fn bounded_range_last(base: u32, count: u32) -> (r: u32)
        requires
            1 <= count,
            base + count - 1 <= u32::MAX,
        ensures
            r == base + count - 1,
    {
        base + (count - 1)
    }

    /// The last handle of a range spanning the full 24-bit index space
    /// starting at `base`.
    pub fn full_range_last(base: u32) -> (r: u32)
        requires
            base + 0x00FFFFFF <= u32::MAX,
        ensures
            r == base + 0x00FFFFFF,
    {
        base + 0x00FFFFFF
    }

    /// Closed-interval membership: a value is in the range exactly when it
    /// lies between `first` and `last`, equality at either boundary counting
    /// as membership. Non-membership is a plain `false`, never an error.
    pub fn in_range(value: u32, first: u32, last: u32) -> (r: bool)
        ensures
            r == (first <= value && value <= last),
    {
        first <= value && value <= last
    }

    /// Returns true if the value is a valid HMAC session handle: one in the
    /// HMAC session range, that is, with the HMAC session tag in its top byte
    /// and an index below the active-session bound.
    pub fn is_hmac_session(value: u32) -> (r: bool)
        ensures
            r == (TpmHc::HMAC_SESSION_FIRST <= value && value <= TpmHc::HMAC_SESSION_LAST),
            r == (spec_tag(value) == TpmHt::HMAC_SESSION && spec_index(value)
                < TPM2_MAX_ACTIVE_SESSIONS),
    {
        proof {
            assert((0x02000000u32 <= value && value <= 0x0200003Fu32) == ((((value & 0xFF000000)
                >> 24) as u8) == 0x02u8 && (value & 0x00FFFFFF) < 64u32)) by (bit_vector);
        }
        TpmHc::HMAC_SESSION_FIRST <= value && value <= TpmHc::HMAC_SESSION_LAST
    }

    /// Returns true if the value is a valid policy session handle: one in the
    /// policy session range, that is, with the policy session tag in its top
    /// byte and an index below the active-session bound.
    pub fn is_policy_session(value: u32) -> (r: bool)
        ensures
            r == (TpmHc::POLICY_SESSION_FIRST <= value && value <= TpmHc::POLICY_SESSION_LAST),
            r == (spec_tag(value) == TpmHt::POLICY_SESSION && spec_index(value)
                < TPM2_MAX_ACTIVE_SESSIONS),
    {
        proof {
            assert((0x03000000u32 <= value && value <= 0x0300003Fu32) == ((((value & 0xFF000000)
                >> 24) as u8) == 0x03u8 && (value & 0x00FFFFFF) < 64u32)) by (bit_vector);
        }
        TpmHc::POLICY_SESSION_FIRST <= value && value <= TpmHc::POLICY_SESSION_LAST
    }

    /// Returns true if the value is an allowed NV index: one in the NV index
    /// range, which spans the full 24-bit index space, so membership is
    /// exactly carrying the NV index tag in the top byte.
    pub fn is_nv_index(value: u32) -> (r: bool)
        ensures
            r == (TpmHc::NV_INDEX_FIRST <= value && value <= TpmHc::NV_INDEX_LAST),
            r == (spec_tag(value) == TpmHt::NV_INDEX),
    {
        proof {
            assert((0x01000000u32 <= value && value <= 0x01FFFFFFu32) == ((((value & 0xFF000000)
                >> 24) as u8) == 0x01u8)) by (bit_vector);
        }
        TpmHc::NV_INDEX_FIRST <= value && value <= TpmHc::NV_INDEX_LAST
    }

    /// Writes the raw handle big-endian at its 32-bit width; the only failure
    /// is a sink without room for the whole integer, which leaves the sink
    /// unchanged.
    pub fn marshal(&self, sink: &mut ByteSink) -> (r: Result<(), CodecError>)
        ensures
            final(sink).capacity == old(sink).capacity,
            old(sink).spec_remaining() >= 4 ==> r == Ok::<(), CodecError>(())
                && final(sink).data@ == old(sink).data@ + spec_be_bytes32(self.0),
            old(sink).spec_remaining() < 4 ==> r == Err::<(), CodecError>(
                CodecError::BufferTooSmall,
            ) && final(sink).data@ == old(sink).data@,
    {
        sink.write_be_u32(self.0)
    }

    /// Reads a big-endian 32-bit integer at `offset` and builds the handle
    /// from it; the only failure is a source holding fewer bytes than the
    /// width asks for.
    pub fn unmarshal(buf: &[u8], offset: usize) -> (r: Result<(TpmHc, usize), CodecError>)
        ensures
            offset + 4 <= buf@.len() ==> r == Ok::<(TpmHc, usize), CodecError>(
                (TpmHc(spec_be_value32(buf@.subrange(offset as int, offset + 4))), (offset
                    + 4) as usize),
            ),
            offset + 4 > buf@.len() ==> r == Err::<(TpmHc, usize), CodecError>(
                CodecError::Truncated,
            ),
    {
        match read_be_u32(buf, offset) {
            Ok((v, next)) => Ok((TpmHc(v), next)),
            Err(e) => Err(e),
        }
    }
}

impl Default for TpmHc {
    /// The zero value, as for the derived `Default` of a plain integer.
    fn default() -> (r: Self)
        ensures
            r.0 == 0,
    {
        TpmHc(0)
    }
}


} // verus!
