//! The software test double: a session whose transport is simulated in
//! process, with deterministic canned responses, selected by the two reserved
//! device-type values.  The always-succeeding variant answers every transport
//! operation with a canned success, the always-failing variant with a
//! communication error; parameter validation behaves exactly as on hardware,
//! before the simulated transport.

use vstd::prelude::*;
use crate::config_zone::{config_zone_is_locked, config_zone_to_slots, data_zone_is_locked,
    slot_from_config_zone, slot_is_locked};
use crate::devtype::{config_zone_size, AtcaDeviceType, ATCA_ATECC_CONFIG_BUFFER_SIZE};
use crate::iface::AtcaIfaceCfg;
use crate::shim::{gen_key_type_ok, import_key_data_size, nonce_target_ok, slot_number_ok,
    ATCA_NONCE_NUMIN_SIZE, ATCA_RANDOM_BUFFER_SIZE, ATCA_SHA2_256_DIGEST_SIZE,
    ATCA_SHA_MAX_MESSAGE_SIZE, ATCA_SIG_SIZE};
use crate::slot::{AtcaSlot, KeyType, NonceTarget, SignMode, VerifyMode, ATCA_PUB_KEY_SIZE};
use crate::status::AtcaStatus;
use crate::AteccDevice as _;

verus! {

/// Byte the canned entropy buffer is filled with.
pub const CANNED_RANDOM_BYTE: u8 = 0xA5;
/// Byte the canned message digest is filled with.
pub const CANNED_DIGEST_BYTE: u8 = 0x36;
/// Byte the canned signature is filled with.
pub const CANNED_SIGNATURE_BYTE: u8 = 0x5A;
/// Byte the canned public key is filled with.
pub const CANNED_PUBLIC_KEY_BYTE: u8 = 0x44;

/// Ownership state of the session's transport configuration: handed to the
/// session at construction, reclaimed exactly once at release.
#[derive(Clone, Copy, Debug, PartialEq, Eq, Structural)]
pub enum ConfigOwnership {
    /// Not yet handed over; never observed on a constructed session.
    Unowned,
    /// The session holds the configuration; the session is alive.
    TransferredToLibrary,
    /// The configuration has been reclaimed; the session is dead.
    Released,
}

/// The byte at offset `i` of the test double's configuration zone fixture.
/// The fixture models an ECC-family part whose configuration zone is locked,
/// whose data zone is not, and whose slot 0 is an unlocked slot holding a
/// private key for the supported curve; every other slot is individually
/// locked and typed as reserved.
pub open spec fn spec_canned_config_byte(i: int) -> u8 {
    if i == 20 {
        0x87
    } else if i == 21 {
        0x20
    } else if i == 86 {
        0x55
    } else if i == 88 {
        0x01
    } else if i == 96 {
        0x33
    } else {
        0x00
    }
}

/// The test double's configuration zone fixture.
pub open spec fn spec_canned_config() -> Seq<u8> {
    Seq::new(ATCA_ATECC_CONFIG_BUFFER_SIZE as nat, |i: int| spec_canned_config_byte(i))
}

/// The canned entropy buffer.
pub open spec fn spec_canned_random() -> Seq<u8> {
    Seq::new(ATCA_RANDOM_BUFFER_SIZE as nat, |i: int| CANNED_RANDOM_BYTE)
}

/// The canned message digest.
pub open spec fn spec_canned_digest() -> Seq<u8> {
    Seq::new(ATCA_SHA2_256_DIGEST_SIZE as nat, |i: int| CANNED_DIGEST_BYTE)
}

/// The canned signature.
pub open spec fn spec_canned_signature() -> Seq<u8> {
    Seq::new(ATCA_SIG_SIZE as nat, |i: int| CANNED_SIGNATURE_BYTE)
}

/// The canned public key.
pub open spec fn spec_canned_public_key() -> Seq<u8> {
    Seq::new(ATCA_PUB_KEY_SIZE as nat, |i: int| CANNED_PUBLIC_KEY_BYTE)
}

/// The byte at offset `i` of the test double's configuration zone fixture.
fn canned_config_byte(i: usize) -> (byte: u8)
    ensures
        byte == spec_canned_config_byte(i as int),
{
    if i == 20 {
        0x87
    } else if i == 21 {
        0x20
    } else if i == 86 {
        0x55
    } else if i == 88 {
        0x01
    } else if i == 96 {
        0x33
    } else {
        0x00
    }
}

/// Builds the test double's configuration zone fixture.
fn build_canned_config() -> (config: Vec<u8>)
    ensures
        config@ == spec_canned_config(),
{
    let mut config: Vec<u8> = Vec::new();
    let mut i: usize = 0;
    while i < ATCA_ATECC_CONFIG_BUFFER_SIZE
        invariant
            i <= ATCA_ATECC_CONFIG_BUFFER_SIZE,
            config@.len() == i,
            forall|j: int| 0 <= j < i ==> config@[j] == spec_canned_config_byte(j),
        decreases ATCA_ATECC_CONFIG_BUFFER_SIZE - i,
    {
        config.push(canned_config_byte(i));
        i = i + 1;
    }
    proof {
        assert(config@ =~= spec_canned_config());
    }
    config
}

/// Replaces the contents of `out` with `len` copies of `value`.
fn fill_bytes(out: &mut Vec<u8>, len: usize, value: u8)
    ensures
        final(out)@ == Seq::new(len as nat, |i: int| value),
{
    out.clear();
    let mut i: usize = 0;
    while i < len
        invariant
            i <= len,
            out@.len() == i,
            forall|j: int| 0 <= j < i ==> out@[j] == value,
        decreases len - i,
    {
        out.push(value);
        i = i + 1;
    }
    proof {
        assert(out@ =~= Seq::new(len as nat, |i: int| value));
    }
}

/// Replaces the contents of `out` with a copy of `src`.
fn copy_bytes(src: &Vec<u8>, out: &mut Vec<u8>)
    ensures
        final(out)@ == src@,
{
    out.clear();
    let mut i: usize = 0;
    while i < src.len()
        invariant
            i <= src@.len(),
            out@.len() == i,
            forall|j: int| 0 <= j < i ==> out@[j] == src@[j],
        decreases src@.len() - i,
    {
        out.push(src[i]);
        i = i + 1;
    }
    proof {
        assert(out@ =~= src@);
    }
}

/// Compares two byte buffers of equal length.
fn bytes_equal(a: &Vec<u8>, b: &Vec<u8>) -> (eq: bool)
    requires
        a@.len() == b@.len(),
    ensures
        eq == (a@ == b@),
{
    let mut eq: bool = true;
    let mut i: usize = 0;
    while i < a.len()
        invariant
            a@.len() == b@.len(),
            i <= a@.len(),
            eq ==> forall|j: int| 0 <= j < i ==> a@[j] == b@[j],
            !eq ==> a@ != b@,
        decreases a@.len() - i,
    {
        if a[i] != b[i] {
            eq = false;
        }
        i = i + 1;
    }
    proof {
        if eq {
            assert(a@ =~= b@);
        }
    }
    eq
}

/// A software test-double session.  Owns its interface configuration from
/// construction until release, and carries the configuration zone fixture it
/// pretends to have read from the device at construction.
pub struct AteccDevice {
    devtype: AtcaDeviceType,
    config_zone: Vec<u8>,
    iface_cfg: Option<AtcaIfaceCfg>,
    cfg_state: ConfigOwnership,
}

impl AteccDevice {
    #[verifier::type_invariant]
    spec fn wf(self) -> bool {
        &&& crate::spec_is_test_device(self.devtype)
        &&& self.config_zone@ == spec_canned_config()
        &&& !(self.cfg_state is Unowned)
        &&& (self.cfg_state is TransferredToLibrary ==> self.iface_cfg is Some)
    }

    /// The session state after its transport configuration has been
    /// reclaimed.
    pub closed spec fn spec_released(self) -> Self {
        AteccDevice {
            devtype: self.devtype,
            config_zone: self.config_zone,
            iface_cfg: None,
            cfg_state: ConfigOwnership::Released,
        }
    }

    /// Constructs a test-double session for the device type `r_iface_cfg`
    /// names, taking ownership of the configuration.  Only the two reserved
    /// test device types have a software implementation.
    pub fn new(r_iface_cfg: AtcaIfaceCfg) -> (result: Result<AteccDevice, String>)
        ensures
            crate::spec_is_test_device(r_iface_cfg.devtype) ==> (result matches Ok(device)
                && device.is_alive() && device.device_type_spec() == r_iface_cfg.devtype
                && device.config_zone_spec() == spec_canned_config()),
            !crate::spec_is_test_device(r_iface_cfg.devtype) ==> (result matches Err(message)
                && message@ == "only the test device types have a software implementation"@),
    {
        match r_iface_cfg.devtype {
            AtcaDeviceType::AtcaTestDevSuccess | AtcaDeviceType::AtcaTestDevFail => {
                let device = AteccDevice {
                    devtype: r_iface_cfg.devtype,
                    config_zone: build_canned_config(),
                    iface_cfg: Some(r_iface_cfg),
                    cfg_state: ConfigOwnership::TransferredToLibrary,
                };
                Ok(device)
            },
            _ => Err("only the test device types have a software implementation".to_owned()),
        }
    }

    /// Whether the session is still alive.
    fn alive(&self) -> (alive: bool)
        ensures
            alive == self.is_alive(),
    {
        matches!(self.cfg_state, ConfigOwnership::TransferredToLibrary)
    }

    /// Whether the simulated transport fails every operation.
    fn transport_fails(&self) -> (fails: bool)
        ensures
            fails == crate::spec_is_test_fail(self.device_type_spec()),
    {
        self.devtype == AtcaDeviceType::AtcaTestDevFail
    }
}

impl crate::AteccDevice for AteccDevice {
    closed spec fn device_type_spec(&self) -> AtcaDeviceType {
        self.devtype
    }

    closed spec fn is_alive(&self) -> bool {
        self.cfg_state is TransferredToLibrary
    }

    closed spec fn config_zone_spec(&self) -> Seq<u8> {
        self.config_zone@
    }

    fn random(&self, rand_out: &mut Vec<u8>) -> (status: AtcaStatus) {
        proof {
            use_type_invariant(&*self);
        }
        if !self.alive() {
            return AtcaStatus::AtcaNotInitialized;
        }
        if self.transport_fails() {
            return AtcaStatus::AtcaCommFail;
        }
        fill_bytes(rand_out, ATCA_RANDOM_BUFFER_SIZE, CANNED_RANDOM_BYTE);
        AtcaStatus::AtcaSuccess
    }

    fn sha(&self, message: Vec<u8>, digest: &mut Vec<u8>) -> (status: AtcaStatus) {
        proof {
            use_type_invariant(&*self);
        }
        if !self.alive() {
            return AtcaStatus::AtcaNotInitialized;
        }
        if message.len() > ATCA_SHA_MAX_MESSAGE_SIZE {
            return AtcaStatus::AtcaBadParam;
        }
        if self.transport_fails() {
            return AtcaStatus::AtcaCommFail;
        }
        fill_bytes(digest, ATCA_SHA2_256_DIGEST_SIZE, CANNED_DIGEST_BYTE);
        AtcaStatus::AtcaSuccess
    }

    fn nonce(&self, target: NonceTarget, data: &[u8]) -> (status: AtcaStatus) {
        proof {
            use_type_invariant(&*self);
        }
        if !self.alive() {
            return AtcaStatus::AtcaNotInitialized;
        }
        if !nonce_target_ok(self.devtype, target, data.len()) {
            return AtcaStatus::AtcaBadParam;
        }
        if self.transport_fails() {
            return AtcaStatus::AtcaCommFail;
        }
        AtcaStatus::AtcaSuccess
    }

    fn nonce_rand(&self, host_nonce: &[u8], rand_out: &mut Vec<u8>) -> (status: AtcaStatus) {
        proof {
            use_type_invariant(&*self);
        }
        if !self.alive() {
            return AtcaStatus::AtcaNotInitialized;
        }
        if host_nonce.len() != ATCA_NONCE_NUMIN_SIZE {
            return AtcaStatus::AtcaBadParam;
        }
        if self.transport_fails() {
            return AtcaStatus::AtcaCommFail;
        }
        fill_bytes(rand_out, ATCA_RANDOM_BUFFER_SIZE, CANNED_RANDOM_BYTE);
        AtcaStatus::AtcaSuccess
    }

    fn gen_key(&self, key_type: KeyType, slot_number: u8) -> (status: AtcaStatus) {
        proof {
            use_type_invariant(&*self);
        }
        if !self.alive() {
            return AtcaStatus::AtcaNotInitialized;
        }
        if !slot_number_ok(slot_number) {
            return AtcaStatus::AtcaInvalidId;
        }
        if !gen_key_type_ok(key_type) {
            return AtcaStatus::AtcaBadParam;
        }
        if self.transport_fails() {
            return AtcaStatus::AtcaCommFail;
        }
        if slot_is_locked(&self.config_zone, slot_number) {
            return AtcaStatus::AtcaExecutionError;
        }
        AtcaStatus::AtcaSuccess
    }

    fn import_key(&self, key_type: KeyType, key_data: &[u8], slot_number: u8) -> (status:
        AtcaStatus) {
        proof {
            use_type_invariant(&*self);
        }
        if !self.alive() {
            return AtcaStatus::AtcaNotInitialized;
        }
        if !slot_number_ok(slot_number) {
            return AtcaStatus::AtcaInvalidId;
        }
        let expected_size: usize = match import_key_data_size(key_type) {
            Some(size) => size,
            None => {
                return AtcaStatus::AtcaBadParam;
            },
        };
        if key_data.len() != expected_size {
            return AtcaStatus::AtcaInvalidSize;
        }
        if self.transport_fails() {
            return AtcaStatus::AtcaCommFail;
        }
        if slot_is_locked(&self.config_zone, slot_number) {
            return AtcaStatus::AtcaExecutionError;
        }
        AtcaStatus::AtcaSuccess
    }

    fn get_public_key(&self, slot_number: u8, public_key: &mut Vec<u8>) -> (status: AtcaStatus) {
        proof {
            use_type_invariant(&*self);
        }
        if !self.alive() {
            return AtcaStatus::AtcaNotInitialized;
        }
        if !slot_number_ok(slot_number) {
            return AtcaStatus::AtcaInvalidId;
        }
        if self.transport_fails() {
            return AtcaStatus::AtcaCommFail;
        }
        let slot = slot_from_config_zone(&self.config_zone, slot_number);
        if !(slot.config.key_type == KeyType::P256EccKey && slot.config.ecc_key_attr.is_private) {
            return AtcaStatus::AtcaExecutionError;
        }
        fill_bytes(public_key, ATCA_PUB_KEY_SIZE, CANNED_PUBLIC_KEY_BYTE);
        AtcaStatus::AtcaSuccess
    }

    fn sign_hash(&self, mode: SignMode, slot_number: u8, signature: &mut Vec<u8>) -> (status:
        AtcaStatus) {
        proof {
            use_type_invariant(&*self);
        }
        if !self.alive() {
            return AtcaStatus::AtcaNotInitialized;
        }
        if !slot_number_ok(slot_number) {
            return AtcaStatus::AtcaInvalidId;
        }
        let digest_ok: bool = match &mode {
            SignMode::External(digest) => digest.len() == ATCA_SHA2_256_DIGEST_SIZE,
        };
        if !digest_ok {
            return AtcaStatus::AtcaBadParam;
        }
        if self.transport_fails() {
            return AtcaStatus::AtcaCommFail;
        }
        let slot = slot_from_config_zone(&self.config_zone, slot_number);
        if !(slot.config.key_type == KeyType::P256EccKey && slot.config.ecc_key_attr.is_private) {
            return AtcaStatus::AtcaExecutionError;
        }
        fill_bytes(signature, ATCA_SIG_SIZE, CANNED_SIGNATURE_BYTE);
        AtcaStatus::AtcaSuccess
    }

    fn verify_hash(&self, mode: VerifyMode, hash: &[u8], signature: &[u8]) -> (result: Result<
        bool,
        AtcaStatus,
    >) {
        proof {
            use_type_invariant(&*self);
        }
        if !self.alive() {
            return Err(AtcaStatus::AtcaNotInitialized);
        }
        if hash.len() != ATCA_SHA2_256_DIGEST_SIZE || signature.len() != ATCA_SIG_SIZE {
            return Err(AtcaStatus::AtcaBadParam);
        }
        let mode_ok: bool = match &mode {
            VerifyMode::External(public_key) => public_key.len() == ATCA_PUB_KEY_SIZE,
            VerifyMode::Internal(key_slot) => slot_number_ok(*key_slot),
        };
        if !mode_ok {
            return Err(AtcaStatus::AtcaBadParam);
        }
        if self.transport_fails() {
            return Err(AtcaStatus::AtcaCommFail);
        }
        Ok(true)
    }

    fn get_device_type(&self) -> (devtype: AtcaDeviceType) {
        self.devtype
    }

    fn configuration_is_locked(&self) -> (result: Result<bool, AtcaStatus>) {
        proof {
            use_type_invariant(&*self);
        }
        if !self.alive() {
            return Err(AtcaStatus::AtcaNotInitialized);
        }
        if self.transport_fails() {
            return Err(AtcaStatus::AtcaCommFail);
        }
        config_zone_is_locked(&self.config_zone)
    }

    fn data_zone_is_locked(&self) -> (result: Result<bool, AtcaStatus>) {
        proof {
            use_type_invariant(&*self);
        }
        if !self.alive() {
            return Err(AtcaStatus::AtcaNotInitialized);
        }
        if self.transport_fails() {
            return Err(AtcaStatus::AtcaCommFail);
        }
        data_zone_is_locked(&self.config_zone)
    }

    fn read_config_zone(&self, config_data: &mut Vec<u8>) -> (status: AtcaStatus) {
        proof {
            use_type_invariant(&*self);
        }
        if !self.alive() {
            return AtcaStatus::AtcaNotInitialized;
        }
        if self.transport_fails() {
            return AtcaStatus::AtcaCommFail;
        }
        copy_bytes(&self.config_zone, config_data);
        AtcaStatus::AtcaSuccess
    }

    fn cmp_config_zone(&self, config_data: &mut Vec<u8>, same_config: &mut bool) -> (status:
        AtcaStatus) {
        proof {
            use_type_invariant(&*self);
        }
        if !self.alive() {
            return AtcaStatus::AtcaNotInitialized;
        }
        if config_data.len() != config_zone_size(self.devtype) {
            return AtcaStatus::AtcaBadParam;
        }
        if self.transport_fails() {
            return AtcaStatus::AtcaCommFail;
        }
        *same_config = bytes_equal(config_data, &self.config_zone);
        AtcaStatus::AtcaSuccess
    }

    fn get_config(&self, atca_slots: &mut Vec<AtcaSlot>) -> (status: AtcaStatus) {
        proof {
            use_type_invariant(&*self);
        }
        if !self.alive() {
            return AtcaStatus::AtcaNotInitialized;
        }
        if self.transport_fails() {
            return AtcaStatus::AtcaCommFail;
        }
        config_zone_to_slots(&self.config_zone, atca_slots)
    }

    fn release(&mut self) -> (status: AtcaStatus)
        ensures
            old(self).is_alive() ==> *final(self) == old(self).spec_released(),
    {
        proof {
            use_type_invariant(&*self);
        }
        if !self.alive() {
            return AtcaStatus::AtcaNotInitialized;
        }
        self.cfg_state = ConfigOwnership::Released;
        self.iface_cfg = None;
        AtcaStatus::AtcaSuccess
    }
}

/// Reclaiming the transport configuration is idempotent at the state level:
/// releasing a session that is already released leaves it exactly as it is,
/// and a released session is never alive.
pub proof fn lemma_release_idempotent(device: AteccDevice)
    ensures
        device.spec_released().spec_released() == device.spec_released(),
        !device.spec_released().is_alive(),
{
}

} // verus!
