//! Strongly typed TPM2 protocol identifiers.
//!
//! Every numeric identifier of the TPM2 wire protocol (algorithm IDs, command
//! codes, return codes, handle types, capability tags, and so on) is an *open*
//! enumeration: a single-variant wrapper over a fixed-width unsigned integer
//! that names the values published by the specification while accepting any
//! other value of the same width, so that traffic from newer firmware still
//! parses. Each
//! value round-trips exactly through the big-endian wire encoding, and the
//! handle module models the 32-bit handle space, whose top byte is a category
//! tag and whose low 24 bits are an index.
use vstd::prelude::*;

pub mod alg;
pub mod caps;
pub mod codec;
pub mod command;
pub mod handles;
pub mod hex;
pub mod rc;
pub mod tags;

pub use alg::{TpmAlgId, TpmEccCurve};
pub use caps::{TpmCap, TpmPt, TpmPtPcr};
pub use codec::{ByteSink, CodecError};
pub use command::TpmCc;
pub use handles::{TpmHandle, TpmHc, TpmHt};
pub use rc::TpmRc;
pub use tags::{TpmEo, TpmGenerated, TpmNt, TpmSe, TpmSt, TpmSu};

verus! {

/// Digest size in bytes of SHA.
pub const TPM2_SHA_DIGEST_SIZE: u32 = 20;
/// Digest size in bytes of SHA-1.
pub const TPM2_SHA1_DIGEST_SIZE: u32 = 20;
/// Digest size in bytes of SHA-256.
pub const TPM2_SHA256_DIGEST_SIZE: u32 = 32;
/// Digest size in bytes of SHA-384.
pub const TPM2_SHA384_DIGEST_SIZE: u32 = 48;
/// Digest size in bytes of SHA-512.
pub const TPM2_SHA512_DIGEST_SIZE: u32 = 64;
/// Digest size in bytes of SM3-256.
pub const TPM2_SM3_256_DIGEST_SIZE: u32 = 32;

/// Largest digest buffer carried in a command or response.
pub const TPM2_MAX_DIGEST_BUFFER: u32 = 1024;
/// Largest NV read or write carried in a single command.
pub const TPM2_MAX_NV_BUFFER_SIZE: u32 = 2048;
/// Largest capability data buffer returned by the TPM.
pub const TPM2_MAX_CAP_BUFFER: u32 = 1024;
/// Number of PCR banks.
pub const TPM2_NUM_PCR_BANKS: u32 = 16;
/// Largest PCR index, exclusive.
pub const TPM2_MAX_PCRS: u32 = 32;
/// Bytes needed to hold one selection bit per PCR: `TPM2_MAX_PCRS`
/// divided by eight, rounded up.
pub const TPM2_PCR_SELECT_MAX: u32 = (TPM2_MAX_PCRS + 7) / 8;
/// Largest label buffer.
pub const TPM2_LABEL_MAX_BUFFER: u32 = 32;

/// Largest symmetric-cipher block size in bytes.
pub const TPM2_MAX_SYM_BLOCK_SIZE: u32 = 16;
/// Largest symmetric data size in bytes.
pub const TPM2_MAX_SYM_DATA: u32 = 256;
/// Largest ECC key size in bytes.
pub const TPM2_MAX_ECC_KEY_BYTES: u32 = 128;
/// Largest symmetric key size in bytes.
pub const TPM2_MAX_SYM_KEY_BYTES: u32 = 32;
/// Largest RSA key size in bytes.
pub const TPM2_MAX_RSA_KEY_BYTES: u32 = 512;

/// Size in bytes of a vendor-specific private key blob, derived from the
/// largest RSA key size.
pub const TPM2_PRIVATE_VENDOR_SPECIFIC_BYTES: u32 = (TPM2_MAX_RSA_KEY_BYTES / 2) * (3 + 2);

/// Largest saved-context blob size in bytes.
pub const TPM2_MAX_CONTEXT_SIZE: u32 = 5120;
/// Largest number of concurrently active sessions; bounds the session
/// handle ranges.
pub const TPM2_MAX_ACTIVE_SESSIONS: u32 = 64;

} // verus!
