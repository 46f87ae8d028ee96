//! Per-operation parameter validation: the checks every session performs
//! locally, before any bus transaction, so that a bad parameter is reported
//! without incurring a hardware round trip.

use vstd::prelude::*;
use crate::devtype::AtcaDeviceType;
use crate::slot::{KeyType, NonceTarget, ATCA_AES_KEY_SIZE, ATCA_ATECC_SLOTS_COUNT,
    ATCA_PRIV_KEY_SIZE, ATCA_SHA_KEY_SIZE};

verus! {

/// Largest message length the hashing command can carry: the wire protocol
/// transmits the length in sixteen bits.
pub const ATCA_SHA_MAX_MESSAGE_SIZE: usize = 65535;
/// Size in bytes of the buffer returned by the random-number command.
pub const ATCA_RANDOM_BUFFER_SIZE: usize = 32;
/// Size in bytes of a message digest.
pub const ATCA_SHA2_256_DIGEST_SIZE: usize = 32;
/// Size in bytes of a signature for the supported curve.
pub const ATCA_SIG_SIZE: usize = 64;
/// Size in bytes of the host nonce that a random-nonce command combines with
/// device-internal randomness.
pub const ATCA_NONCE_NUMIN_SIZE: usize = 20;
/// Size in bytes of a fixed-value nonce loaded into TempKey.
pub const ATCA_NONCE_SIZE: usize = 32;
/// Size in bytes of the longer fixed-value nonce the top-tier family accepts.
pub const ATCA_NONCE_SIZE_LONG: usize = 64;

/// Whether a message of `len` bytes fits the hashing command's length field.
pub open spec fn spec_sha_message_length_ok(len: nat) -> bool {
    len <= ATCA_SHA_MAX_MESSAGE_SIZE
}

/// Whether `slot_number` names a physical key slot.
pub open spec fn spec_slot_number_ok(slot_number: u8) -> bool {
    slot_number < ATCA_ATECC_SLOTS_COUNT
}

/// Returns whether `slot_number` names a physical key slot.
pub fn slot_number_ok(slot_number: u8) -> (ok: bool)
    ensures
        ok == spec_slot_number_ok(slot_number),
{
    slot_number < ATCA_ATECC_SLOTS_COUNT
}

/// Whether a fixed-value nonce of `len` bytes may be loaded into `target` on
/// a device of type `devtype`.  Only the top-tier ECC family member accepts a
/// target other than TempKey or the longer nonce; every other device accepts
/// TempKey at the standard nonce size alone.
pub open spec fn spec_nonce_target_ok(
    devtype: AtcaDeviceType,
    target: NonceTarget,
    len: nat,
) -> bool {
    if devtype == AtcaDeviceType::ATECC608A {
        match target {
            NonceTarget::TempKey => len == ATCA_NONCE_SIZE || len == ATCA_NONCE_SIZE_LONG,
            NonceTarget::MsgDigBuf => len == ATCA_NONCE_SIZE || len == ATCA_NONCE_SIZE_LONG,
            NonceTarget::AltKeyBuf => len == ATCA_NONCE_SIZE,
        }
    } else {
        target == NonceTarget::TempKey && len == ATCA_NONCE_SIZE
    }
}

/// Returns whether a fixed-value nonce of `len` bytes may be loaded into
/// `target` on a device of type `devtype`.
pub fn nonce_target_ok(devtype: AtcaDeviceType, target: NonceTarget, len: usize) -> (ok: bool)
    ensures
        ok == spec_nonce_target_ok(devtype, target, len as nat),
{
    if devtype == AtcaDeviceType::ATECC608A {
        match target {
            NonceTarget::TempKey => len == ATCA_NONCE_SIZE || len == ATCA_NONCE_SIZE_LONG,
            NonceTarget::MsgDigBuf => len == ATCA_NONCE_SIZE || len == ATCA_NONCE_SIZE_LONG,
            NonceTarget::AltKeyBuf => len == ATCA_NONCE_SIZE,
        }
    } else {
        target == NonceTarget::TempKey && len == ATCA_NONCE_SIZE
    }
}

/// The number of bytes of key material that an import of a key of kind
/// `key_type` must supply, or `None` for a kind that import rejects.
pub open spec fn spec_import_key_data_size(key_type: KeyType) -> Option<usize> {
    match key_type {
        KeyType::P256EccKey => Some(ATCA_PRIV_KEY_SIZE),
        KeyType::Aes => Some(ATCA_AES_KEY_SIZE),
        KeyType::ShaOrText => Some(ATCA_SHA_KEY_SIZE),
        KeyType::Rfu => None,
    }
}

/// Returns the number of bytes of key material that an import of a key of
/// kind `key_type` must supply, or `None` for a kind that import rejects.
pub fn import_key_data_size(key_type: KeyType) -> (size: Option<usize>)
    ensures
        size == spec_import_key_data_size(key_type),
{
    match key_type {
        KeyType::P256EccKey => Some(ATCA_PRIV_KEY_SIZE),
        KeyType::Aes => Some(ATCA_AES_KEY_SIZE),
        KeyType::ShaOrText => Some(ATCA_SHA_KEY_SIZE),
        KeyType::Rfu => None,
    }
}

/// Whether a key of kind `key_type` may be generated on the device.
pub open spec fn spec_gen_key_type_ok(key_type: KeyType) -> bool {
    key_type == KeyType::P256EccKey || key_type == KeyType::Aes
}

/// Returns whether a key of kind `key_type` may be generated on the device.
pub fn gen_key_type_ok(key_type: KeyType) -> (ok: bool)
    ensures
        ok == spec_gen_key_type_ok(key_type),
{
    match key_type {
        KeyType::P256EccKey => true,
        KeyType::Aes => true,
        _ => false,
    }
}

} // verus!
