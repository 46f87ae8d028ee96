//! Host-side session and command-dispatch layer for a family of secure
//! element cryptographic co-processors.
//!
//! The crate models the device session surface: a factory that constructs a
//! session from an interface configuration, a closed status-code space that
//! every operation reports into, buffer-size validation keyed off device
//! geometry, parsing of the configuration zone into per-slot descriptions,
//! and a session manager that enforces the one-live-session discipline.
//!
//! Two reserved device-type values select a software test double: one whose
//! transport always succeeds with deterministic canned responses, one whose
//! transport always fails with a communication error.  Hardware-backed device
//! types require a native transport; a build without one reports them as a
//! construction error, it never panics.

use vstd::prelude::*;

pub mod config_zone;
pub mod devtype;
pub mod iface;
pub mod session;
pub mod shim;
pub mod slot;
pub mod status;
pub mod sw_impl;

use crate::config_zone::{spec_config_zone_locked, spec_data_zone_locked,
    spec_slot_from_config_zone, spec_slot_is_locked};
use crate::devtype::{spec_config_zone_size, AtcaDeviceType};
use crate::iface::AtcaIfaceCfg;
use crate::shim::{spec_gen_key_type_ok, spec_import_key_data_size, spec_nonce_target_ok,
    spec_sha_message_length_ok, spec_slot_number_ok, ATCA_NONCE_NUMIN_SIZE,
    ATCA_RANDOM_BUFFER_SIZE, ATCA_SHA2_256_DIGEST_SIZE, ATCA_SIG_SIZE};
use crate::slot::{AtcaSlot, KeyType, NonceTarget, SignMode, VerifyMode, ATCA_ATECC_SLOTS_COUNT,
    ATCA_PUB_KEY_SIZE};
use crate::status::AtcaStatus;
use crate::sw_impl::{spec_canned_digest, spec_canned_public_key, spec_canned_random,
    spec_canned_signature};

verus! {

/// Whether `devtype` selects the test double whose transport always succeeds.
pub open spec fn spec_is_test_success(devtype: AtcaDeviceType) -> bool {
    devtype == AtcaDeviceType::AtcaTestDevSuccess
}

/// Whether `devtype` selects the test double whose transport always fails.
pub open spec fn spec_is_test_fail(devtype: AtcaDeviceType) -> bool {
    devtype == AtcaDeviceType::AtcaTestDevFail
}

/// Whether `devtype` selects a software test double.
pub open spec fn spec_is_test_device(devtype: AtcaDeviceType) -> bool {
    spec_is_test_success(devtype) || spec_is_test_fail(devtype)
}

/// Whether slot `slot_number` of a device whose configuration zone is
/// `config` holds a private key for the supported curve, so that it can be
/// the subject of signing or public-key derivation.
pub open spec fn spec_slot_holds_private_key(config: Seq<u8>, slot_number: u8) -> bool {
    let slot = spec_slot_from_config_zone(config, slot_number as int);
    slot.config.key_type == KeyType::P256EccKey && slot.config.ecc_key_attr.is_private
}

/// Whether the mode argument of a signature verification is well-formed: an
/// external verification carries a full public key, an internal one names a
/// physical slot.
pub open spec fn spec_verify_mode_ok(mode: VerifyMode) -> bool {
    match mode {
        VerifyMode::External(public_key) => public_key@.len() == ATCA_PUB_KEY_SIZE,
        VerifyMode::Internal(slot_number) => spec_slot_number_ok(slot_number),
    }
}

/// The operation surface of one live device session, hardware backed or
/// software test double.
///
/// Every operation is fallible and reports into the closed status space.  A
/// bad parameter is detected locally, before any bus transaction, so it is
/// reported even by the test double whose every transport operation fails.  A
/// refusal that depends on the device's own configuration (a locked slot, a
/// slot holding no compatible key) is the device's answer and is reported as
/// an execution error, after the transport.  A released session answers every
/// operation, release included, with `AtcaNotInitialized` and never panics.
pub trait AteccDevice: Sized {
    /// The device type the session was constructed for.
    spec fn device_type_spec(&self) -> AtcaDeviceType;

    /// Whether the session still owns its transport configuration; a released
    /// session is no longer alive.
    spec fn is_alive(&self) -> bool;

    /// The bytes of the device's configuration zone.
    spec fn config_zone_spec(&self) -> Seq<u8>;

    /// Requests device-generated entropy.  On success `rand_out` holds
    /// exactly the fixed random-buffer size, whatever its length beforehand.
    fn random(&self, rand_out: &mut Vec<u8>) -> (status: AtcaStatus)
        ensures
            status == AtcaStatus::AtcaSuccess ==> final(rand_out)@.len()
                == ATCA_RANDOM_BUFFER_SIZE,
            !self.is_alive() ==> status == AtcaStatus::AtcaNotInitialized && final(rand_out)@
                == old(rand_out)@,
            self.is_alive() && spec_is_test_success(self.device_type_spec()) ==> status
                == AtcaStatus::AtcaSuccess && final(rand_out)@ == spec_canned_random(),
            self.is_alive() && spec_is_test_fail(self.device_type_spec()) ==> status
                == AtcaStatus::AtcaCommFail && final(rand_out)@ == old(rand_out)@,
    ;

    /// Computes the message digest of `message`.  A message longer than the
    /// protocol's sixteen-bit length field is a bad parameter, reported
    /// before any transport; on success `digest` holds exactly one digest.
    fn sha(&self, message: Vec<u8>, digest: &mut Vec<u8>) -> (status: AtcaStatus)
        ensures
            status == AtcaStatus::AtcaSuccess ==> final(digest)@.len()
                == ATCA_SHA2_256_DIGEST_SIZE,
            !self.is_alive() ==> status == AtcaStatus::AtcaNotInitialized && final(digest)@
                == old(digest)@,
            self.is_alive() && !spec_sha_message_length_ok(message@.len()) ==> status
                == AtcaStatus::AtcaBadParam && final(digest)@ == old(digest)@,
            self.is_alive() && spec_sha_message_length_ok(message@.len()) && spec_is_test_success(
                self.device_type_spec(),
            ) ==> status == AtcaStatus::AtcaSuccess && final(digest)@ == spec_canned_digest(),
            self.is_alive() && spec_sha_message_length_ok(message@.len()) && spec_is_test_fail(
                self.device_type_spec(),
            ) ==> status == AtcaStatus::AtcaCommFail && final(digest)@ == old(digest)@,
    ;

    /// Loads a fixed-value nonce into one of the device's internal buffers.
    /// A target or size the device family does not support is a bad
    /// parameter, never a silent truncation.
    fn nonce(&self, target: NonceTarget, data: &[u8]) -> (status: AtcaStatus)
        ensures
            !self.is_alive() ==> status == AtcaStatus::AtcaNotInitialized,
            self.is_alive() && !spec_nonce_target_ok(
                self.device_type_spec(),
                target,
                data@.len(),
            ) ==> status == AtcaStatus::AtcaBadParam,
            self.is_alive() && spec_nonce_target_ok(self.device_type_spec(), target, data@.len())
                && spec_is_test_success(self.device_type_spec()) ==> status
                == AtcaStatus::AtcaSuccess,
            self.is_alive() && spec_nonce_target_ok(self.device_type_spec(), target, data@.len())
                && spec_is_test_fail(self.device_type_spec()) ==> status
                == AtcaStatus::AtcaCommFail,
    ;

    /// Combines a caller-supplied host nonce with device-internal randomness
    /// into a commitment of fixed size.
    fn nonce_rand(&self, host_nonce: &[u8], rand_out: &mut Vec<u8>) -> (status: AtcaStatus)
        ensures
            status == AtcaStatus::AtcaSuccess ==> final(rand_out)@.len()
                == ATCA_RANDOM_BUFFER_SIZE,
            !self.is_alive() ==> status == AtcaStatus::AtcaNotInitialized && final(rand_out)@
                == old(rand_out)@,
            self.is_alive() && host_nonce@.len() != ATCA_NONCE_NUMIN_SIZE ==> status
                == AtcaStatus::AtcaBadParam && final(rand_out)@ == old(rand_out)@,
            self.is_alive() && host_nonce@.len() == ATCA_NONCE_NUMIN_SIZE && spec_is_test_success(
                self.device_type_spec(),
            ) ==> status == AtcaStatus::AtcaSuccess && final(rand_out)@ == spec_canned_random(),
            self.is_alive() && host_nonce@.len() == ATCA_NONCE_NUMIN_SIZE && spec_is_test_fail(
                self.device_type_spec(),
            ) ==> status == AtcaStatus::AtcaCommFail && final(rand_out)@ == old(rand_out)@,
    ;

    /// Generates key material of kind `key_type` inside slot `slot_number`.
    /// An invalid slot index or a kind the device cannot generate is reported
    /// before any transport; generating into an individually locked slot is
    /// refused by the device itself.
    fn gen_key(&self, key_type: KeyType, slot_number: u8) -> (status: AtcaStatus)
        ensures
            !self.is_alive() ==> status == AtcaStatus::AtcaNotInitialized,
            self.is_alive() && !spec_slot_number_ok(slot_number) ==> status
                == AtcaStatus::AtcaInvalidId,
            self.is_alive() && spec_slot_number_ok(slot_number) && !spec_gen_key_type_ok(key_type)
                ==> status == AtcaStatus::AtcaBadParam,
            self.is_alive() && spec_slot_number_ok(slot_number) && spec_gen_key_type_ok(key_type)
                && spec_is_test_fail(self.device_type_spec()) ==> status
                == AtcaStatus::AtcaCommFail,
            self.is_alive() && spec_slot_number_ok(slot_number) && spec_gen_key_type_ok(key_type)
                && spec_is_test_success(self.device_type_spec()) && spec_slot_is_locked(
                self.config_zone_spec(),
                slot_number as int,
            ) ==> status == AtcaStatus::AtcaExecutionError,
            self.is_alive() && spec_slot_number_ok(slot_number) && spec_gen_key_type_ok(key_type)
                && spec_is_test_success(self.device_type_spec()) && !spec_slot_is_locked(
                self.config_zone_spec(),
                slot_number as int,
            ) ==> status == AtcaStatus::AtcaSuccess,
    ;

    /// Imports `key_data` as key material of kind `key_type` into slot
    /// `slot_number`.  The amount of key material each kind requires is
    /// checked before any transport; importing into an individually locked
    /// slot is refused by the device itself.
    fn import_key(&self, key_type: KeyType, key_data: &[u8], slot_number: u8) -> (status:
        AtcaStatus)
        ensures
            !self.is_alive() ==> status == AtcaStatus::AtcaNotInitialized,
            self.is_alive() && !spec_slot_number_ok(slot_number) ==> status
                == AtcaStatus::AtcaInvalidId,
            self.is_alive() && spec_slot_number_ok(slot_number) && spec_import_key_data_size(
                key_type,
            ) is None ==> status == AtcaStatus::AtcaBadParam,
            self.is_alive() && spec_slot_number_ok(slot_number) && (spec_import_key_data_size(
                key_type,
            ) matches Some(size) && key_data@.len() != size) ==> status
                == AtcaStatus::AtcaInvalidSize,
            self.is_alive() && spec_slot_number_ok(slot_number) && (spec_import_key_data_size(
                key_type,
            ) matches Some(size) && key_data@.len() == size) && spec_is_test_fail(
                self.device_type_spec(),
            ) ==> status == AtcaStatus::AtcaCommFail,
            self.is_alive() && spec_slot_number_ok(slot_number) && (spec_import_key_data_size(
                key_type,
            ) matches Some(size) && key_data@.len() == size) && spec_is_test_success(
                self.device_type_spec(),
            ) && spec_slot_is_locked(self.config_zone_spec(), slot_number as int) ==> status
                == AtcaStatus::AtcaExecutionError,
            self.is_alive() && spec_slot_number_ok(slot_number) && (spec_import_key_data_size(
                key_type,
            ) matches Some(size) && key_data@.len() == size) && spec_is_test_success(
                self.device_type_spec(),
            ) && !spec_slot_is_locked(self.config_zone_spec(), slot_number as int) ==> status
                == AtcaStatus::AtcaSuccess,
    ;

    /// Derives the public key from the private key resident in slot
    /// `slot_number`.  A slot holding no private key for the supported curve
    /// is refused by the device itself.
    fn get_public_key(&self, slot_number: u8, public_key: &mut Vec<u8>) -> (status: AtcaStatus)
        ensures
            status == AtcaStatus::AtcaSuccess ==> final(public_key)@.len() == ATCA_PUB_KEY_SIZE,
            !self.is_alive() ==> status == AtcaStatus::AtcaNotInitialized && final(public_key)@
                == old(public_key)@,
            self.is_alive() && !spec_slot_number_ok(slot_number) ==> status
                == AtcaStatus::AtcaInvalidId && final(public_key)@ == old(public_key)@,
            self.is_alive() && spec_slot_number_ok(slot_number) && spec_is_test_fail(
                self.device_type_spec(),
            ) ==> status == AtcaStatus::AtcaCommFail && final(public_key)@ == old(public_key)@,
            self.is_alive() && spec_slot_number_ok(slot_number) && spec_is_test_success(
                self.device_type_spec(),
            ) && !spec_slot_holds_private_key(self.config_zone_spec(), slot_number) ==> status
                == AtcaStatus::AtcaExecutionError && final(public_key)@ == old(public_key)@,
            self.is_alive() && spec_slot_number_ok(slot_number) && spec_is_test_success(
                self.device_type_spec(),
            ) && spec_slot_holds_private_key(self.config_zone_spec(), slot_number) ==> status
                == AtcaStatus::AtcaSuccess && final(public_key)@ == spec_canned_public_key(),
    ;

    /// Produces a signature over a digest with the private key resident in
    /// slot `slot_number`.  On success `signature` holds exactly one
    /// signature for the supported curve.
    fn sign_hash(&self, mode: SignMode, slot_number: u8, signature: &mut Vec<u8>) -> (status:
        AtcaStatus)
        ensures
            status == AtcaStatus::AtcaSuccess ==> final(signature)@.len() == ATCA_SIG_SIZE,
            !self.is_alive() ==> status == AtcaStatus::AtcaNotInitialized && final(signature)@
                == old(signature)@,
            self.is_alive() && !spec_slot_number_ok(slot_number) ==> status
                == AtcaStatus::AtcaInvalidId && final(signature)@ == old(signature)@,
            self.is_alive() && spec_slot_number_ok(slot_number) && (mode matches
            SignMode::External(digest) && digest@.len() != ATCA_SHA2_256_DIGEST_SIZE) ==> status
                == AtcaStatus::AtcaBadParam && final(signature)@ == old(signature)@,
            self.is_alive() && spec_slot_number_ok(slot_number) && (mode matches
            SignMode::External(digest) && digest@.len() == ATCA_SHA2_256_DIGEST_SIZE)
                && spec_is_test_fail(self.device_type_spec()) ==> status
                == AtcaStatus::AtcaCommFail && final(signature)@ == old(signature)@,
            self.is_alive() && spec_slot_number_ok(slot_number) && (mode matches
            SignMode::External(digest) && digest@.len() == ATCA_SHA2_256_DIGEST_SIZE)
                && spec_is_test_success(self.device_type_spec()) && !spec_slot_holds_private_key(
                self.config_zone_spec(),
                slot_number,
            ) ==> status == AtcaStatus::AtcaExecutionError && final(signature)@
                == old(signature)@,
            self.is_alive() && spec_slot_number_ok(slot_number) && (mode matches
            SignMode::External(digest) && digest@.len() == ATCA_SHA2_256_DIGEST_SIZE)
                && spec_is_test_success(self.device_type_spec()) && spec_slot_holds_private_key(
                self.config_zone_spec(),
                slot_number,
            ) ==> status == AtcaStatus::AtcaSuccess && final(signature)@
                == spec_canned_signature(),
    ;

    /// Checks a signature over a digest.  The boolean authenticity answer is
    /// produced only on a successful round trip: a communication or protocol
    /// failure is the error variant, never a false authenticity result.
    fn verify_hash(&self, mode: VerifyMode, hash: &[u8], signature: &[u8]) -> (result: Result<
        bool,
        AtcaStatus,
    >)
        ensures
            !self.is_alive() ==> result == Err::<bool, AtcaStatus>(AtcaStatus::AtcaNotInitialized),
            self.is_alive() && (hash@.len() != ATCA_SHA2_256_DIGEST_SIZE || signature@.len()
                != ATCA_SIG_SIZE) ==> result == Err::<bool, AtcaStatus>(AtcaStatus::AtcaBadParam),
            self.is_alive() && hash@.len() == ATCA_SHA2_256_DIGEST_SIZE && signature@.len()
                == ATCA_SIG_SIZE && !spec_verify_mode_ok(mode) ==> result == Err::<
                bool,
                AtcaStatus,
            >(AtcaStatus::AtcaBadParam),
            self.is_alive() && hash@.len() == ATCA_SHA2_256_DIGEST_SIZE && signature@.len()
                == ATCA_SIG_SIZE && spec_verify_mode_ok(mode) && spec_is_test_fail(
                self.device_type_spec(),
            ) ==> result == Err::<bool, AtcaStatus>(AtcaStatus::AtcaCommFail),
            self.is_alive() && hash@.len() == ATCA_SHA2_256_DIGEST_SIZE && signature@.len()
                == ATCA_SIG_SIZE && spec_verify_mode_ok(mode) && spec_is_test_success(
                self.device_type_spec(),
            ) ==> result == Ok::<bool, AtcaStatus>(true),
    ;

    /// The device type the session was constructed for; cached, no transport
    /// round trip, so it answers on a released session as well.
    fn get_device_type(&self) -> (devtype: AtcaDeviceType)
        ensures
            devtype == self.device_type_spec(),
    ;

    /// Whether the device's configuration zone is locked.  Independent of the
    /// data-zone lock.
    fn configuration_is_locked(&self) -> (result: Result<bool, AtcaStatus>)
        ensures
            !self.is_alive() ==> result == Err::<bool, AtcaStatus>(AtcaStatus::AtcaNotInitialized),
            self.is_alive() && spec_is_test_fail(self.device_type_spec()) ==> result == Err::<
                bool,
                AtcaStatus,
            >(AtcaStatus::AtcaCommFail),
            self.is_alive() && spec_is_test_success(self.device_type_spec()) ==> result == Ok::<
                bool,
                AtcaStatus,
            >(spec_config_zone_locked(self.config_zone_spec())),
    ;

    /// Whether the device's data zone is locked.  Independent of the
    /// configuration-zone lock.
    fn data_zone_is_locked(&self) -> (result: Result<bool, AtcaStatus>)
        ensures
            !self.is_alive() ==> result == Err::<bool, AtcaStatus>(AtcaStatus::AtcaNotInitialized),
            self.is_alive() && spec_is_test_fail(self.device_type_spec()) ==> result == Err::<
                bool,
                AtcaStatus,
            >(AtcaStatus::AtcaCommFail),
            self.is_alive() && spec_is_test_success(self.device_type_spec()) ==> result == Ok::<
                bool,
                AtcaStatus,
            >(spec_data_zone_locked(self.config_zone_spec())),
    ;

    /// Reads the raw configuration zone.  On success the buffer holds exactly
    /// the zone of the session's device geometry, whatever its length
    /// beforehand.
    fn read_config_zone(&self, config_data: &mut Vec<u8>) -> (status: AtcaStatus)
        ensures
            status == AtcaStatus::AtcaSuccess ==> final(config_data)@ == self.config_zone_spec()
                && final(config_data)@.len() == spec_config_zone_size(self.device_type_spec()),
            !self.is_alive() ==> status == AtcaStatus::AtcaNotInitialized && final(config_data)@
                == old(config_data)@,
            self.is_alive() && spec_is_test_fail(self.device_type_spec()) ==> status
                == AtcaStatus::AtcaCommFail && final(config_data)@ == old(config_data)@,
            self.is_alive() && spec_is_test_success(self.device_type_spec()) ==> status
                == AtcaStatus::AtcaSuccess,
    ;

    /// Compares `config_data` against the device's live configuration zone.
    /// A diagnostic, not a convenience read: the buffer must already have the
    /// device geometry's size, a mismatch is a bad parameter and no hardware
    /// comparison is attempted.
    fn cmp_config_zone(&self, config_data: &mut Vec<u8>, same_config: &mut bool) -> (status:
        AtcaStatus)
        ensures
            final(config_data)@ == old(config_data)@,
            !self.is_alive() ==> status == AtcaStatus::AtcaNotInitialized && *final(same_config)
                == *old(same_config),
            self.is_alive() && old(config_data)@.len() != spec_config_zone_size(
                self.device_type_spec(),
            ) ==> status == AtcaStatus::AtcaBadParam && *final(same_config)
                == *old(same_config),
            self.is_alive() && old(config_data)@.len() == spec_config_zone_size(
                self.device_type_spec(),
            ) && spec_is_test_fail(self.device_type_spec()) ==> status == AtcaStatus::AtcaCommFail
                && *final(same_config) == *old(same_config),
            self.is_alive() && old(config_data)@.len() == spec_config_zone_size(
                self.device_type_spec(),
            ) && spec_is_test_success(self.device_type_spec()) ==> status
                == AtcaStatus::AtcaSuccess && *final(same_config) == (old(config_data)@
                == self.config_zone_spec()),
    ;

    /// Parses the configuration zone read at construction into one
    /// description per physical slot, in slot-index order.
    fn get_config(&self, atca_slots: &mut Vec<AtcaSlot>) -> (status: AtcaStatus)
        ensures
            !self.is_alive() ==> status == AtcaStatus::AtcaNotInitialized && final(atca_slots)@
                == old(atca_slots)@,
            self.is_alive() && spec_is_test_fail(self.device_type_spec()) ==> status
                == AtcaStatus::AtcaCommFail && final(atca_slots)@ == old(atca_slots)@,
            self.is_alive() && spec_is_test_success(self.device_type_spec()) ==> status
                == AtcaStatus::AtcaSuccess && final(atca_slots)@.len() == ATCA_ATECC_SLOTS_COUNT
                && (forall|i: int|
                0 <= i < ATCA_ATECC_SLOTS_COUNT ==> final(atca_slots)@[i]
                    == spec_slot_from_config_zone(self.config_zone_spec(), i)),
    ;

    /// Tears the session down.  The first release frees the session's
    /// transport configuration, exactly once; any further release finds
    /// nothing to release, reports so, and changes nothing.  Never panics,
    /// however the session was left.
    fn release(&mut self) -> (status: AtcaStatus)
        ensures
            !final(self).is_alive(),
            final(self).device_type_spec() == old(self).device_type_spec(),
            final(self).config_zone_spec() == old(self).config_zone_spec(),
            old(self).is_alive() ==> status == AtcaStatus::AtcaSuccess,
            !old(self).is_alive() ==> status == AtcaStatus::AtcaNotInitialized && *final(self)
                == *old(self),
    ;
}

/// Constructs the session that `r_iface_cfg` selects.  The two reserved
/// device-type values yield a software test double; an explicitly unknown
/// device type is rejected; every other value names a hardware-backed device,
/// which needs a native transport that this build does not link, so its
/// construction fails with a descriptive error rather than a panic.
pub fn create_atecc_device(r_iface_cfg: AtcaIfaceCfg) -> (result: Result<
    sw_impl::AteccDevice,
    String,
>)
    ensures
        spec_is_test_device(r_iface_cfg.devtype) ==> (result matches Ok(device)
            && device.is_alive() && device.device_type_spec() == r_iface_cfg.devtype
            && device.config_zone_spec() == sw_impl::spec_canned_config()),
        r_iface_cfg.devtype == AtcaDeviceType::AtcaDevUnknown ==> (result matches Err(message)
            && message@ == "Attempting to create an unknown device type"@),
        !spec_is_test_device(r_iface_cfg.devtype) && r_iface_cfg.devtype
            != AtcaDeviceType::AtcaDevUnknown ==> (result matches Err(message) && message@
            == "no native transport is linked: only the test device types can be created"@),
{
    match r_iface_cfg.devtype {
        AtcaDeviceType::AtcaTestDevSuccess | AtcaDeviceType::AtcaTestDevFail => sw_impl::AteccDevice::new(
            r_iface_cfg,
        ),
        AtcaDeviceType::AtcaDevUnknown => Err(
            "Attempting to create an unknown device type".to_owned(),
        ),
        _ => Err("no native transport is linked: only the test device types can be created".to_owned()),
    }
}

/// A configuration buffer that was just read from a device whose
/// configuration has not changed compares as unchanged: what the read
/// contract hands back is exactly what the compare contract reports `true`
/// for.
pub proof fn lemma_read_then_cmp_reports_same<Device: AteccDevice>(
    device: Device,
    read_back: Seq<u8>,
    reported_same: bool,
)
    requires
        read_back == device.config_zone_spec(),
        reported_same == (read_back == device.config_zone_spec()),
    ensures
        reported_same,
{
}

/// Two releases in succession: the first leaves the session dead, so the
/// session contract forces the second to find nothing to release, report so,
/// and leave the session exactly as the first left it — it never corrupts
/// state.
pub proof fn lemma_release_twice<Device: AteccDevice>(
    after_first: Device,
    second_status: AtcaStatus,
    after_second: Device,
)
    requires
        !after_first.is_alive(),
        !after_first.is_alive() ==> second_status == AtcaStatus::AtcaNotInitialized
            && after_second == after_first,
    ensures
        second_status == AtcaStatus::AtcaNotInitialized,
        after_second == after_first,
{
}

} // verus!
