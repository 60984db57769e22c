//! Command codes.
use crate::codec::{ByteSink, CodecError, lemma_be_round_trip32, read_be_u32, spec_be_bytes32, spec_be_value32};
use crate::hex::{render_hex, spec_hex_render};
use vstd::prelude::*;
use vstd::std_specs::cmp::PartialOrdSpec;
use vstd::string::StringExecFns;

verus! {

/// TpmCc represents a TPM_CC, a command code.
/// See definition in Part 2: Structures, section 6.5.2.
///
/// An open enumeration: one variant carrying the raw backing integer, so
/// every 32-bit value is legal whether or not it matches a known name.
#[derive(Clone, Copy, Debug, PartialEq, Eq, Structural)]
pub enum TpmCc {
    /// The raw backing integer.
    Value(u32),
}

impl TpmCc {
    /// `NVUndefineSpaceSpecial`.
    pub const NV_UNDEFINE_SPACE_SPECIAL: u32 = 0x0000011F;

    /// `EvictControl`.
    pub const EVICT_CONTROL: u32 = 0x00000120;

    /// `HierarchyControl`.
    pub const HIERARCHY_CONTROL: u32 = 0x00000121;

    /// `NVUndefineSpace`.
    pub const NV_UNDEFINE_SPACE: u32 = 0x00000122;

    /// `ChangeEPS`.
    pub const CHANGE_EPS: u32 = 0x00000124;

    /// `ChangePPS`.
    pub const CHANGE_PPS: u32 = 0x00000125;

    /// `Clear`.
    pub const CLEAR: u32 = 0x00000126;

    /// `ClearControl`.
    pub const CLEAR_CONTROL: u32 = 0x00000127;

    /// `ClockSet`.
    pub const CLOCK_SET: u32 = 0x00000128;

    /// `HierarchyChanegAuth`.
    pub const HIERARCHY_CHANEG_AUTH: u32 = 0x00000129;

    /// `NVDefineSpace`.
    pub const NV_DEFINE_SPACE: u32 = 0x0000012A;

    /// `PCRAllocate`.
    pub const PCR_ALLOCATE: u32 = 0x0000012B;

    /// `PCRSetAuthPolicy`.
    pub const PCR_SET_AUTH_POLICY: u32 = 0x0000012C;

    /// `PPCommands`.
    pub const PP_COMMANDS: u32 = 0x0000012D;

    /// `SetPrimaryPolicy`.
    pub const SET_PRIMARY_POLICY: u32 = 0x0000012E;

    /// `FieldUpgradeStart`.
    pub const FIELD_UPGRADE_START: u32 = 0x0000012F;

    /// `ClockRateAdjust`.
    pub const CLOCK_RATE_ADJUST: u32 = 0x00000130;

    /// `CreatePrimary`.
    pub const CREATE_PRIMARY: u32 = 0x00000131;

    /// `NVGlobalWriteLock`.
    pub const NV_GLOBAL_WRITE_LOCK: u32 = 0x00000132;

    /// `GetCommandAuditDigest`.
    pub const GET_COMMAND_AUDIT_DIGEST: u32 = 0x00000133;

    /// `NVIncrement`.
    pub const NV_INCREMENT: u32 = 0x00000134;

    /// `NVSetBits`.
    pub const NV_SET_BITS: u32 = 0x00000135;

    /// `NVExtend`.
    pub const NV_EXTEND: u32 = 0x00000136;

    /// `NVWrite`.
    pub const NV_WRITE: u32 = 0x00000137;

    /// `NVWriteLock`.
    pub const NV_WRITE_LOCK: u32 = 0x00000138;

    /// `DictionaryAttackLockReset`.
    pub const DICTIONARY_ATTACK_LOCK_RESET: u32 = 0x00000139;

    /// `DictionaryAttackParameters`.
    pub const DICTIONARY_ATTACK_PARAMETERS: u32 = 0x0000013A;

    /// `NVChangeAuth`.
    pub const NV_CHANGE_AUTH: u32 = 0x0000013B;

    /// `PCREvent`.
    pub const PCR_EVENT: u32 = 0x0000013C;

    /// `PCRReset`.
    pub const PCR_RESET: u32 = 0x0000013D;

    /// `SequenceComplete`.
    pub const SEQUENCE_COMPLETE: u32 = 0x0000013E;

    /// `SetAlgorithmSet`.
    pub const SET_ALGORITHM_SET: u32 = 0x0000013F;

    /// `SetCommandCodeAuditStatus`.
    pub const SET_COMMAND_CODE_AUDIT_STATUS: u32 = 0x00000140;

    /// `FieldUpgradeData`.
    pub const FIELD_UPGRADE_DATA: u32 = 0x00000141;

    /// `IncrementalSelfTest`.
    pub const INCREMENTAL_SELF_TEST: u32 = 0x00000142;

    /// `SelfTest`.
    pub const SELF_TEST: u32 = 0x00000143;

    /// `Startup`.
    pub const STARTUP: u32 = 0x00000144;

    /// `Shutdown`.
    pub const SHUTDOWN: u32 = 0x00000145;

    /// `StirRandom`.
    pub const STIR_RANDOM: u32 = 0x00000146;

    /// `ActivateCredential`.
    pub const ACTIVATE_CREDENTIAL: u32 = 0x00000147;

    /// `Certify`.
    pub const CERTIFY: u32 = 0x00000148;

    /// `PolicyNV`.
    pub const POLICY_NV: u32 = 0x00000149;

    /// `CertifyCreation`.
    pub const CERTIFY_CREATION: u32 = 0x0000014A;

    /// `Duplicate`.
    pub const DUPLICATE: u32 = 0x0000014B;

    /// `GetTime`.
    pub const GET_TIME: u32 = 0x0000014C;

    /// `GetSessionAuditDigest`.
    pub const GET_SESSION_AUDIT_DIGEST: u32 = 0x0000014D;

    /// `NVRead`.
    pub const NV_READ: u32 = 0x0000014E;

    /// `NVReadLock`.
    pub const NV_READ_LOCK: u32 = 0x0000014F;

    /// `ObjectChangeAuth`.
    pub const OBJECT_CHANGE_AUTH: u32 = 0x00000150;

    /// `PolicySecret`.
    pub const POLICY_SECRET: u32 = 0x00000151;

    /// `Rewrap`.
    pub const REWRAP: u32 = 0x00000152;

    /// `Create`.
    pub const CREATE: u32 = 0x00000153;

    /// `ECDHZGen`.
    pub const ECDHZ_GEN: u32 = 0x00000154;

    /// `MAC`.
    pub const MAC: u32 = 0x00000155;

    /// `Import`.
    pub const IMPORT: u32 = 0x00000156;

    /// `Load`.
    pub const LOAD: u32 = 0x00000157;

    /// `Quote`.
    pub const QUOTE: u32 = 0x00000158;

    /// `RSADecrypt`.
    pub const RSA_DECRYPT: u32 = 0x00000159;

    /// `MACStart`.
    pub const MAC_START: u32 = 0x0000015B;

    /// `SequenceUpdate`.
    pub const SEQUENCE_UPDATE: u32 = 0x0000015C;

    /// `Sign`.
    pub const SIGN: u32 = 0x0000015D;

    /// `Unseal`.
    pub const UNSEAL: u32 = 0x0000015E;

    /// `PolicySigned`.
    pub const POLICY_SIGNED: u32 = 0x00000160;

    /// `ContextLoad`.
    pub const CONTEXT_LOAD: u32 = 0x00000161;

    /// `ContextSave`.
    pub const CONTEXT_SAVE: u32 = 0x00000162;

    /// `ECDHKeyGen`.
    pub const ECDH_KEY_GEN: u32 = 0x00000163;

    /// `EncryptDecrypt`.
    pub const ENCRYPT_DECRYPT: u32 = 0x00000164;

    /// `FlushContext`.
    pub const FLUSH_CONTEXT: u32 = 0x00000165;

    /// `LoadExternal`.
    pub const LOAD_EXTERNAL: u32 = 0x00000167;

    /// `MakeCredential`.
    pub const MAKE_CREDENTIAL: u32 = 0x00000168;

    /// `NVReadPublic`.
    pub const NV_READ_PUBLIC: u32 = 0x00000169;

    /// `PolicyAuthorize`.
    pub const POLICY_AUTHORIZE: u32 = 0x0000016A;

    /// `PolicyAuthValue`.
    pub const POLICY_AUTH_VALUE: u32 = 0x0000016B;

    /// `PolicyCommandCode`.
    pub const POLICY_COMMAND_CODE: u32 = 0x0000016C;

    /// `PolicyCounterTimer`.
    pub const POLICY_COUNTER_TIMER: u32 = 0x0000016D;

    /// `PolicyCpHash`.
    pub const POLICY_CP_HASH: u32 = 0x0000016E;

    /// `PolicyLocality`.
    pub const POLICY_LOCALITY: u32 = 0x0000016F;

    /// `PolicyNameHash`.
    pub const POLICY_NAME_HASH: u32 = 0x00000170;

    /// `PolicyOR`.
    pub const POLICY_OR: u32 = 0x00000171;

    /// `PolicyTicket`.
    pub const POLICY_TICKET: u32 = 0x00000172;

    /// `ReadPublic`.
    pub const READ_PUBLIC: u32 = 0x00000173;

    /// `RSAEncrypt`.
    pub const RSA_ENCRYPT: u32 = 0x00000174;

    /// `StartAuthSession`.
    pub const START_AUTH_SESSION: u32 = 0x00000176;

    /// `VerifySignature`.
    pub const VERIFY_SIGNATURE: u32 = 0x00000177;

    /// `ECCParameters`.
    pub const ECC_PARAMETERS: u32 = 0x00000178;

    /// `FirmwareRead`.
    pub const FIRMWARE_READ: u32 = 0x00000179;

    /// `GetCapability`.
    pub const GET_CAPABILITY: u32 = 0x0000017A;

    /// Gets a random sequence of bytes (`TPM_CC_GetRandom`).
    pub const GET_RANDOM: u32 = 0x0000017B;

    /// `GetTestResult`.
    pub const GET_TEST_RESULT: u32 = 0x0000017C;

    /// `Hash`.
    pub const HASH: u32 = 0x0000017D;

    /// `PCRRead`.
    pub const PCR_READ: u32 = 0x0000017E;

    /// `PolicyPCR`.
    pub const POLICY_PCR: u32 = 0x0000017F;

    /// `PolicyRestart`.
    pub const POLICY_RESTART: u32 = 0x00000180;

    /// `ReadClock`.
    pub const READ_CLOCK: u32 = 0x00000181;

    /// `PCRExtend`.
    pub const PCR_EXTEND: u32 = 0x00000182;

    /// `PCRSetAuthValue`.
    pub const PCR_SET_AUTH_VALUE: u32 = 0x00000183;

    /// `NVCertify`.
    pub const NV_CERTIFY: u32 = 0x00000184;

    /// `EventSequenceComplete`.
    pub const EVENT_SEQUENCE_COMPLETE: u32 = 0x00000185;

    /// `HashSequenceStart`.
    pub const HASH_SEQUENCE_START: u32 = 0x00000186;

    /// `PolicyPhysicalPresence`.
    pub const POLICY_PHYSICAL_PRESENCE: u32 = 0x00000187;

    /// `PolicyDuplicationSelect`.
    pub const POLICY_DUPLICATION_SELECT: u32 = 0x00000188;

    /// `PolicyGetDigest`.
    pub const POLICY_GET_DIGEST: u32 = 0x00000189;

    /// `TestParams`.
    pub const TEST_PARAMS: u32 = 0x0000018A;

    /// `Commit`.
    pub const COMMIT: u32 = 0x0000018B;

    /// `PolicyPassword`.
    pub const POLICY_PASSWORD: u32 = 0x0000018C;

    /// `ZGen2Phase`.
    pub const Z_GEN2_PHASE: u32 = 0x0000018D;

    /// `ECEphemeral`.
    pub const EC_EPHEMERAL: u32 = 0x0000018E;

    /// `PolicyNvWritten`.
    pub const POLICY_NV_WRITTEN: u32 = 0x0000018F;

    /// `PolicyTemplate`.
    pub const POLICY_TEMPLATE: u32 = 0x00000190;

    /// `CreateLoaded`.
    pub const CREATE_LOADED: u32 = 0x00000191;

    /// `PolicyAuthorizeNV`.
    pub const POLICY_AUTHORIZE_NV: u32 = 0x00000192;

    /// `EncryptDecrypt2`.
    pub const ENCRYPT_DECRYPT2: u32 = 0x00000193;

    /// `ACGetCapability`.
    pub const AC_GET_CAPABILITY: u32 = 0x00000194;

    /// `ACSend`.
    pub const AC_SEND: u32 = 0x00000195;

    /// `PolicyACSendSelect`.
    pub const POLICY_AC_SEND_SELECT: u32 = 0x00000196;

    /// `CertifyX509`.
    pub const CERTIFY_X509: u32 = 0x00000197;

    /// `ACTSetTimeout`.
    pub const ACT_SET_TIMEOUT: u32 = 0x00000198;

    /// Builds the value carrying `value`, named or not: the enumeration is
    /// open, so every 32-bit integer is a legal value.
    pub fn new(value: u32) -> (r: TpmCc)
        ensures
            r->0 == value,
    {
        TpmCc::Value(value)
    }

    /// The raw backing integer.
    pub fn get(&self) -> (r: u32)
        ensures
            r == self->0,
    {
        match *self {
            TpmCc::Value(v) => v,
        }
    }

    /// Whether `value` matches one of the named constants.
    pub open spec fn known(value: u32) -> bool {
        ||| value == TpmCc::NV_UNDEFINE_SPACE_SPECIAL
        ||| value == TpmCc::EVICT_CONTROL
        ||| value == TpmCc::HIERARCHY_CONTROL
        ||| value == TpmCc::NV_UNDEFINE_SPACE
        ||| value == TpmCc::CHANGE_EPS
        ||| value == TpmCc::CHANGE_PPS
        ||| value == TpmCc::CLEAR
        ||| value == TpmCc::CLEAR_CONTROL
        ||| value == TpmCc::CLOCK_SET
        ||| value == TpmCc::HIERARCHY_CHANEG_AUTH
        ||| value == TpmCc::NV_DEFINE_SPACE
        ||| value == TpmCc::PCR_ALLOCATE
        ||| value == TpmCc::PCR_SET_AUTH_POLICY
        ||| value == TpmCc::PP_COMMANDS
        ||| value == TpmCc::SET_PRIMARY_POLICY
        ||| value == TpmCc::FIELD_UPGRADE_START
        ||| value == TpmCc::CLOCK_RATE_ADJUST
        ||| value == TpmCc::CREATE_PRIMARY
        ||| value == TpmCc::NV_GLOBAL_WRITE_LOCK
        ||| value == TpmCc::GET_COMMAND_AUDIT_DIGEST
        ||| value == TpmCc::NV_INCREMENT
        ||| value == TpmCc::NV_SET_BITS
        ||| value == TpmCc::NV_EXTEND
        ||| value == TpmCc::NV_WRITE
        ||| value == TpmCc::NV_WRITE_LOCK
        ||| value == TpmCc::DICTIONARY_ATTACK_LOCK_RESET
        ||| value == TpmCc::DICTIONARY_ATTACK_PARAMETERS
        ||| value == TpmCc::NV_CHANGE_AUTH
        ||| value == TpmCc::PCR_EVENT
        ||| value == TpmCc::PCR_RESET
        ||| value == TpmCc::SEQUENCE_COMPLETE
        ||| value == TpmCc::SET_ALGORITHM_SET
        ||| value == TpmCc::SET_COMMAND_CODE_AUDIT_STATUS
        ||| value == TpmCc::FIELD_UPGRADE_DATA
        ||| value == TpmCc::INCREMENTAL_SELF_TEST
        ||| value == TpmCc::SELF_TEST
        ||| value == TpmCc::STARTUP
        ||| value == TpmCc::SHUTDOWN
        ||| value == TpmCc::STIR_RANDOM
        ||| value == TpmCc::ACTIVATE_CREDENTIAL
        ||| value == TpmCc::CERTIFY
        ||| value == TpmCc::POLICY_NV
        ||| value == TpmCc::CERTIFY_CREATION
        ||| value == TpmCc::DUPLICATE
        ||| value == TpmCc::GET_TIME
        ||| value == TpmCc::GET_SESSION_AUDIT_DIGEST
        ||| value == TpmCc::NV_READ
        ||| value == TpmCc::NV_READ_LOCK
        ||| value == TpmCc::OBJECT_CHANGE_AUTH
        ||| value == TpmCc::POLICY_SECRET
        ||| value == TpmCc::REWRAP
        ||| value == TpmCc::CREATE
        ||| value == TpmCc::ECDHZ_GEN
        ||| value == TpmCc::MAC
        ||| value == TpmCc::IMPORT
        ||| value == TpmCc::LOAD
        ||| value == TpmCc::QUOTE
        ||| value == TpmCc::RSA_DECRYPT
        ||| value == TpmCc::MAC_START
        ||| value == TpmCc::SEQUENCE_UPDATE
        ||| value == TpmCc::SIGN
        ||| value == TpmCc::UNSEAL
        ||| value == TpmCc::POLICY_SIGNED
        ||| value == TpmCc::CONTEXT_LOAD
        ||| value == TpmCc::CONTEXT_SAVE
        ||| value == TpmCc::ECDH_KEY_GEN
        ||| value == TpmCc::ENCRYPT_DECRYPT
        ||| value == TpmCc::FLUSH_CONTEXT
        ||| value == TpmCc::LOAD_EXTERNAL
        ||| value == TpmCc::MAKE_CREDENTIAL
        ||| value == TpmCc::NV_READ_PUBLIC
        ||| value == TpmCc::POLICY_AUTHORIZE
        ||| value == TpmCc::POLICY_AUTH_VALUE
        ||| value == TpmCc::POLICY_COMMAND_CODE
        ||| value == TpmCc::POLICY_COUNTER_TIMER
        ||| value == TpmCc::POLICY_CP_HASH
        ||| value == TpmCc::POLICY_LOCALITY
        ||| value == TpmCc::POLICY_NAME_HASH
        ||| value == TpmCc::POLICY_OR
        ||| value == TpmCc::POLICY_TICKET
        ||| value == TpmCc::READ_PUBLIC
        ||| value == TpmCc::RSA_ENCRYPT
        ||| value == TpmCc::START_AUTH_SESSION
        ||| value == TpmCc::VERIFY_SIGNATURE
        ||| value == TpmCc::ECC_PARAMETERS
        ||| value == TpmCc::FIRMWARE_READ
        ||| value == TpmCc::GET_CAPABILITY
        ||| value == TpmCc::GET_RANDOM
        ||| value == TpmCc::GET_TEST_RESULT
        ||| value == TpmCc::HASH
        ||| value == TpmCc::PCR_READ
        ||| value == TpmCc::POLICY_PCR
        ||| value == TpmCc::POLICY_RESTART
        ||| value == TpmCc::READ_CLOCK
        ||| value == TpmCc::PCR_EXTEND
        ||| value == TpmCc::PCR_SET_AUTH_VALUE
        ||| value == TpmCc::NV_CERTIFY
        ||| value == TpmCc::EVENT_SEQUENCE_COMPLETE
        ||| value == TpmCc::HASH_SEQUENCE_START
        ||| value == TpmCc::POLICY_PHYSICAL_PRESENCE
        ||| value == TpmCc::POLICY_DUPLICATION_SELECT
        ||| value == TpmCc::POLICY_GET_DIGEST
        ||| value == TpmCc::TEST_PARAMS
        ||| value == TpmCc::COMMIT
        ||| value == TpmCc::POLICY_PASSWORD
        ||| value == TpmCc::Z_GEN2_PHASE
        ||| value == TpmCc::EC_EPHEMERAL
        ||| value == TpmCc::POLICY_NV_WRITTEN
        ||| value == TpmCc::POLICY_TEMPLATE
        ||| value == TpmCc::CREATE_LOADED
        ||| value == TpmCc::POLICY_AUTHORIZE_NV
        ||| value == TpmCc::ENCRYPT_DECRYPT2
        ||| value == TpmCc::AC_GET_CAPABILITY
        ||| value == TpmCc::AC_SEND
        ||| value == TpmCc::POLICY_AC_SEND_SELECT
        ||| value == TpmCc::CERTIFY_X509
        ||| value == TpmCc::ACT_SET_TIMEOUT
    }

    /// The name `value` matches, if any.
    #[verifier::rlimit(50)]
    pub fn name_of(value: u32) -> (r: Option<&'static str>)
        ensures
            r is Some <==> TpmCc::known(value),
    {
        if value == TpmCc::NV_UNDEFINE_SPACE_SPECIAL {
            Option::Some("NVUndefineSpaceSpecial")
        } else if value == TpmCc::EVICT_CONTROL {
            Option::Some("EvictControl")
        } else if value == TpmCc::HIERARCHY_CONTROL {
            Option::Some("HierarchyControl")
        } else if value == TpmCc::NV_UNDEFINE_SPACE {
            Option::Some("NVUndefineSpace")
        } else if value == TpmCc::CHANGE_EPS {
            Option::Some("ChangeEPS")
        } else if value == TpmCc::CHANGE_PPS {
            Option::Some("ChangePPS")
        } else if value == TpmCc::CLEAR {
            Option::Some("Clear")
        } else if value == TpmCc::CLEAR_CONTROL {
            Option::Some("ClearControl")
        } else if value == TpmCc::CLOCK_SET {
            Option::Some("ClockSet")
        } else if value == TpmCc::HIERARCHY_CHANEG_AUTH {
            Option::Some("HierarchyChanegAuth")
        } else if value == TpmCc::NV_DEFINE_SPACE {
            Option::Some("NVDefineSpace")
        } else if value == TpmCc::PCR_ALLOCATE {
            Option::Some("PCRAllocate")
        } else if value == TpmCc::PCR_SET_AUTH_POLICY {
            Option::Some("PCRSetAuthPolicy")
        } else if value == TpmCc::PP_COMMANDS {
            Option::Some("PPCommands")
        } else if value == TpmCc::SET_PRIMARY_POLICY {
            Option::Some("SetPrimaryPolicy")
        } else if value == TpmCc::FIELD_UPGRADE_START {
            Option::Some("FieldUpgradeStart")
        } else if value == TpmCc::CLOCK_RATE_ADJUST {
            Option::Some("ClockRateAdjust")
        } else if value == TpmCc::CREATE_PRIMARY {
            Option::Some("CreatePrimary")
        } else if value == TpmCc::NV_GLOBAL_WRITE_LOCK {
            Option::Some("NVGlobalWriteLock")
        } else if value == TpmCc::GET_COMMAND_AUDIT_DIGEST {
            Option::Some("GetCommandAuditDigest")
        } else if value == TpmCc::NV_INCREMENT {
            Option::Some("NVIncrement")
        } else if value == TpmCc::NV_SET_BITS {
            Option::Some("NVSetBits")
        } else if value == TpmCc::NV_EXTEND {
            Option::Some("NVExtend")
        } else if value == TpmCc::NV_WRITE {
            Option::Some("NVWrite")
        } else if value == TpmCc::NV_WRITE_LOCK {
            Option::Some("NVWriteLock")
        } else if value == TpmCc::DICTIONARY_ATTACK_LOCK_RESET {
            Option::Some("DictionaryAttackLockReset")
        } else if value == TpmCc::DICTIONARY_ATTACK_PARAMETERS {
            Option::Some("DictionaryAttackParameters")
        } else if value == TpmCc::NV_CHANGE_AUTH {
            Option::Some("NVChangeAuth")
        } else if value == TpmCc::PCR_EVENT {
            Option::Some("PCREvent")
        } else if value == TpmCc::PCR_RESET {
            Option::Some("PCRReset")
        } else if value == TpmCc::SEQUENCE_COMPLETE {
            Option::Some("SequenceComplete")
        } else if value == TpmCc::SET_ALGORITHM_SET {
            Option::Some("SetAlgorithmSet")
        } else if value == TpmCc::SET_COMMAND_CODE_AUDIT_STATUS {
            Option::Some("SetCommandCodeAuditStatus")
        } else if value == TpmCc::FIELD_UPGRADE_DATA {
            Option::Some("FieldUpgradeData")
        } else if value == TpmCc::INCREMENTAL_SELF_TEST {
            Option::Some("IncrementalSelfTest")
        } else if value == TpmCc::SELF_TEST {
            Option::Some("SelfTest")
        } else if value == TpmCc::STARTUP {
            Option::Some("Startup")
        } else if value == TpmCc::SHUTDOWN {
            Option::Some("Shutdown")
        } else if value == TpmCc::STIR_RANDOM {
            Option::Some("StirRandom")
        } else if value == TpmCc::ACTIVATE_CREDENTIAL {
            Option::Some("ActivateCredential")
        } else if value == TpmCc::CERTIFY {
            Option::Some("Certify")
        } else if value == TpmCc::POLICY_NV {
            Option::Some("PolicyNV")
        } else if value == TpmCc::CERTIFY_CREATION {
            Option::Some("CertifyCreation")
        } else if value == TpmCc::DUPLICATE {
            Option::Some("Duplicate")
        } else if value == TpmCc::GET_TIME {
            Option::Some("GetTime")
        } else if value == TpmCc::GET_SESSION_AUDIT_DIGEST {
            Option::Some("GetSessionAuditDigest")
        } else if value == TpmCc::NV_READ {
            Option::Some("NVRead")
        } else if value == TpmCc::NV_READ_LOCK {
            Option::Some("NVReadLock")
        } else if value == TpmCc::OBJECT_CHANGE_AUTH {
            Option::Some("ObjectChangeAuth")
        } else if value == TpmCc::POLICY_SECRET {
            Option::Some("PolicySecret")
        } else if value == TpmCc::REWRAP {
            Option::Some("Rewrap")
        } else if value == TpmCc::CREATE {
            Option::Some("Create")
        } else if value == TpmCc::ECDHZ_GEN {
            Option::Some("ECDHZGen")
        } else if value == TpmCc::MAC {
            Option::Some("MAC")
        } else if value == TpmCc::IMPORT {
            Option::Some("Import")
        } else if value == TpmCc::LOAD {
            Option::Some("Load")
        } else if value == TpmCc::QUOTE {
            Option::Some("Quote")
        } else if value == TpmCc::RSA_DECRYPT {
            Option::Some("RSADecrypt")
        } else if value == TpmCc::MAC_START {
            Option::Some("MACStart")
        } else if value == TpmCc::SEQUENCE_UPDATE {
            Option::Some("SequenceUpdate")
        } else if value == TpmCc::SIGN {
            Option::Some("Sign")
        } else if value == TpmCc::UNSEAL {
            Option::Some("Unseal")
        } else if value == TpmCc::POLICY_SIGNED {
            Option::Some("PolicySigned")
        } else if value == TpmCc::CONTEXT_LOAD {
            Option::Some("ContextLoad")
        } else if value == TpmCc::CONTEXT_SAVE {
            Option::Some("ContextSave")
        } else if value == TpmCc::ECDH_KEY_GEN {
            Option::Some("ECDHKeyGen")
        } else if value == TpmCc::ENCRYPT_DECRYPT {
            Option::Some("EncryptDecrypt")
        } else if value == TpmCc::FLUSH_CONTEXT {
            Option::Some("FlushContext")
        } else if value == TpmCc::LOAD_EXTERNAL {
            Option::Some("LoadExternal")
        } else if value == TpmCc::MAKE_CREDENTIAL {
            Option::Some("MakeCredential")
        } else if value == TpmCc::NV_READ_PUBLIC {
            Option::Some("NVReadPublic")
        } else if value == TpmCc::POLICY_AUTHORIZE {
            Option::Some("PolicyAuthorize")
        } else if value == TpmCc::POLICY_AUTH_VALUE {
            Option::Some("PolicyAuthValue")
        } else if value == TpmCc::POLICY_COMMAND_CODE {
            Option::Some("PolicyCommandCode")
        } else if value == TpmCc::POLICY_COUNTER_TIMER {
            Option::Some("PolicyCounterTimer")
        } else if value == TpmCc::POLICY_CP_HASH {
            Option::Some("PolicyCpHash")
        } else if value == TpmCc::POLICY_LOCALITY {
            Option::Some("PolicyLocality")
        } else if value == TpmCc::POLICY_NAME_HASH {
            Option::Some("PolicyNameHash")
        } else if value == TpmCc::POLICY_OR {
            Option::Some("PolicyOR")
        } else if value == TpmCc::POLICY_TICKET {
            Option::Some("PolicyTicket")
        } else if value == TpmCc::READ_PUBLIC {
            Option::Some("ReadPublic")
        } else if value == TpmCc::RSA_ENCRYPT {
            Option::Some("RSAEncrypt")
        } else if value == TpmCc::START_AUTH_SESSION {
            Option::Some("StartAuthSession")
        } else if value == TpmCc::VERIFY_SIGNATURE {
            Option::Some("VerifySignature")
        } else if value == TpmCc::ECC_PARAMETERS {
            Option::Some("ECCParameters")
        } else if value == TpmCc::FIRMWARE_READ {
            Option::Some("FirmwareRead")
        } else if value == TpmCc::GET_CAPABILITY {
            Option::Some("GetCapability")
        } else if value == TpmCc::GET_RANDOM {
            Option::Some("GetRandom")
        } else if value == TpmCc::GET_TEST_RESULT {
            Option::Some("GetTestResult")
        } else if value == TpmCc::HASH {
            Option::Some("Hash")
        } else if value == TpmCc::PCR_READ {
            Option::Some("PCRRead")
        } else if value == TpmCc::POLICY_PCR {
            Option::Some("PolicyPCR")
        } else if value == TpmCc::POLICY_RESTART {
            Option::Some("PolicyRestart")
        } else if value == TpmCc::READ_CLOCK {
            Option::Some("ReadClock")
        } else if value == TpmCc::PCR_EXTEND {
            Option::Some("PCRExtend")
        } else if value == TpmCc::PCR_SET_AUTH_VALUE {
            Option::Some("PCRSetAuthValue")
        } else if value == TpmCc::NV_CERTIFY {
            Option::Some("NVCertify")
        } else if value == TpmCc::EVENT_SEQUENCE_COMPLETE {
            Option::Some("EventSequenceComplete")
        } else if value == TpmCc::HASH_SEQUENCE_START {
            Option::Some("HashSequenceStart")
        } else if value == TpmCc::POLICY_PHYSICAL_PRESENCE {
            Option::Some("PolicyPhysicalPresence")
        } else if value == TpmCc::POLICY_DUPLICATION_SELECT {
            Option::Some("PolicyDuplicationSelect")
        } else if value == TpmCc::POLICY_GET_DIGEST {
            Option::Some("PolicyGetDigest")
        } else if value == TpmCc::TEST_PARAMS {
            Option::Some("TestParams")
        } else if value == TpmCc::COMMIT {
            Option::Some("Commit")
        } else if value == TpmCc::POLICY_PASSWORD {
            Option::Some("PolicyPassword")
        } else if value == TpmCc::Z_GEN2_PHASE {
            Option::Some("ZGen2Phase")
        } else if value == TpmCc::EC_EPHEMERAL {
            Option::Some("ECEphemeral")
        } else if value == TpmCc::POLICY_NV_WRITTEN {
            Option::Some("PolicyNvWritten")
        } else if value == TpmCc::POLICY_TEMPLATE {
            Option::Some("PolicyTemplate")
        } else if value == TpmCc::CREATE_LOADED {
            Option::Some("CreateLoaded")
        } else if value == TpmCc::POLICY_AUTHORIZE_NV {
            Option::Some("PolicyAuthorizeNV")
        } else if value == TpmCc::ENCRYPT_DECRYPT2 {
            Option::Some("EncryptDecrypt2")
        } else if value == TpmCc::AC_GET_CAPABILITY {
            Option::Some("ACGetCapability")
        } else if value == TpmCc::AC_SEND {
            Option::Some("ACSend")
        } else if value == TpmCc::POLICY_AC_SEND_SELECT {
            Option::Some("PolicyACSendSelect")
        } else if value == TpmCc::CERTIFY_X509 {
            Option::Some("CertifyX509")
        } else if value == TpmCc::ACT_SET_TIMEOUT {
            Option::Some("ACTSetTimeout")
        } else {
            Option::None
        }
    }

    /// Renders the known name, or the raw integer as a hexadecimal literal:
    /// diagnostics never fail, and an unknown value keeps its exact bits.
    pub fn render(&self) -> (s: String)
        ensures
            !TpmCc::known(self->0) ==> s@ == spec_hex_render(self->0 as u32, 8),
    {
        let v = self.get();
        match TpmCc::name_of(v) {
            Option::Some(n) => String::from_str(n),
            Option::None => render_hex(v as u32, 8),
        }
    }

    /// Writes the raw integer big-endian at the enumeration's 32-bit width;
    /// the only failure is a sink without room for the whole integer, which
    /// leaves the sink unchanged.
    pub fn marshal(&self, sink: &mut ByteSink) -> (r: Result<(), CodecError>)
        ensures
            final(sink).capacity == old(sink).capacity,
            old(sink).spec_remaining() >= 4 ==> r == Ok::<(), CodecError>(())
                && final(sink).data@ == old(sink).data@ + spec_be_bytes32(self->0),
            old(sink).spec_remaining() < 4 ==> r == Err::<(), CodecError>(
                CodecError::BufferTooSmall,
            ) && final(sink).data@ == old(sink).data@,
    {
        sink.write_be_u32(self.get())
    }

    /// Reads a big-endian 32-bit integer at `offset` and builds the value
    /// from it, recognized or not; the only failure is a source holding fewer
    /// bytes than the width asks for.
    pub fn unmarshal(buf: &[u8], offset: usize) -> (r: Result<(TpmCc, usize), CodecError>)
        ensures
            offset + 4 <= buf@.len() ==> r == Ok::<(TpmCc, usize), CodecError>(
                (TpmCc::Value(spec_be_value32(buf@.subrange(offset as int, offset + 4))), (
                offset + 4) as usize),
            ),
            offset + 4 > buf@.len() ==> r == Err::<(TpmCc, usize), CodecError>(
                CodecError::Truncated,
            ),
    {
        match read_be_u32(buf, offset) {
            Ok((v, next)) => Ok((TpmCc::Value(v), next)),
            Err(e) => Err(e),
        }
    }
}

impl Default for TpmCc {
    /// The zero value, as for the derived `Default` of a plain integer.
    fn default() -> (r: Self)
        ensures
            r->0 == 0,
    {
        TpmCc::Value(0)
    }
}

impl PartialOrd for TpmCc {
    fn partial_cmp(&self, other: &Self) -> (r: Option<core::cmp::Ordering>) {
        let a = self.get();
        let b = other.get();
        if a < b {
            Option::Some(core::cmp::Ordering::Less)
        } else if a == b {
            Option::Some(core::cmp::Ordering::Equal)
        } else {
            Option::Some(core::cmp::Ordering::Greater)
        }
    }
}

impl vstd::std_specs::cmp::PartialOrdSpecImpl for TpmCc {
    open spec fn obeys_partial_cmp_spec() -> bool {
        true
    }

    open spec fn partial_cmp_spec(&self, other: &Self) -> Option<core::cmp::Ordering> {
        if self->0 < other->0 {
            Option::Some(core::cmp::Ordering::Less)
        } else if self->0 == other->0 {
            Option::Some(core::cmp::Ordering::Equal)
        } else {
            Option::Some(core::cmp::Ordering::Greater)
        }
    }
}

/// Equality and ordering of `TpmCc` go by the raw integer alone: values built
/// from raw integers are equal exactly when the integers are, and compare as
/// the integers do. In particular a value built from an integer matching no
/// known name is a legal value, equal to every value built from the same
/// integer.
pub proof fn lemma_tpm_cc_raw_semantics(x: u32, y: u32)
    ensures
        (TpmCc::Value(x) == TpmCc::Value(y)) <==> x == y,
        TpmCc::Value(x).partial_cmp_spec(&TpmCc::Value(y)) == x.partial_cmp_spec(&y),
{
}

/// Round trip through the wire encoding: a `TpmCc` built from any raw
/// integer of the enumeration's width, marshaled big-endian and unmarshaled
/// again, is the same value.
pub proof fn lemma_tpm_cc_round_trip(v: u32)
    ensures
        TpmCc::Value(spec_be_value32(spec_be_bytes32(v))) == TpmCc::Value(v),
{
    lemma_be_round_trip32(v);
}

} // verus!
