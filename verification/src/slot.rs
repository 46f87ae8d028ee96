//! Key-slot descriptions and the closed enumerations that select internal
//! device buffers and cryptographic modes.

use vstd::prelude::*;

verus! {

/// Number of key slots of an ECC family device.
pub const ATCA_ATECC_SLOTS_COUNT: u8 = 16;

/// Size in bytes of a private key for the supported curve.
pub const ATCA_PRIV_KEY_SIZE: usize = 32;
/// Size in bytes of a public key for the supported curve.
pub const ATCA_PUB_KEY_SIZE: usize = 64;
/// Size in bytes of a symmetric block-cipher key accepted by import.
pub const ATCA_AES_KEY_SIZE: usize = 16;
/// Size in bytes of a stored secret or digest-sized datum accepted by import.
pub const ATCA_SHA_KEY_SIZE: usize = 32;

/// Kind of key material a slot is configured to hold.
#[derive(Clone, Copy, Debug, PartialEq, Eq, Structural)]
pub enum KeyType {
    /// A private or public key for the supported elliptic curve.
    P256EccKey,
    /// A symmetric block-cipher key.
    Aes,
    /// A stored secret, digest or other plain data.
    ShaOrText,
    /// A slot kind reserved for future use; operations reject it.
    Rfu,
}

/// Internal device buffer that a pass-through Nonce command loads.
#[derive(Clone, Copy, Debug, PartialEq, Eq, Structural)]
pub enum NonceTarget {
    /// The TempKey scratch register; the only target every family supports.
    TempKey,
    /// The message digest buffer; top-tier ECC family only.
    MsgDigBuf,
    /// The alternate key buffer; top-tier ECC family only.
    AltKeyBuf,
}

/// Source of the message digest that a Sign command signs.
#[derive(Debug, PartialEq, Eq)]
pub enum SignMode {
    /// Sign the caller-supplied 32 byte digest.
    External(Vec<u8>),
}

/// Source of the public key that a Verify command checks against.
#[derive(Debug, PartialEq, Eq)]
pub enum VerifyMode {
    /// Verify against the caller-supplied 64 byte public key.
    External(Vec<u8>),
    /// Verify against the public key derived from the private key resident in
    /// the named slot.
    Internal(u8),
}

/// Write permission a slot's configuration grants.
#[derive(Clone, Copy, Debug, PartialEq, Eq, Structural)]
pub enum WriteConfig {
    /// The slot may be written in the clear.
    Always,
    /// The slot may be written, but an invalid public key is rejected.
    PubInvalid,
    /// The slot may never be written.
    Never,
    /// The slot may only be written encrypted.
    Encrypt,
}

/// Read permission bits of a slot.
#[derive(Clone, Copy, Debug, PartialEq, Eq, Structural)]
pub struct ReadKey {
    /// Reads must be encrypted with the key named by `slot_number`.
    pub encrypt_read: bool,
    /// Slot holding the key that encrypts reads.
    pub slot_number: u8,
}

/// What a private key resident in the slot may be used for.
#[derive(Clone, Copy, Debug, PartialEq, Eq, Structural)]
pub struct EccKeyAttr {
    /// The slot holds a private key.
    pub is_private: bool,
    /// The key may sign external messages.
    pub ext_sign: bool,
    /// The key may sign internally generated messages.
    pub int_sign: bool,
    /// The key may be used for a shared-secret agreement.
    pub ecdh_operation: bool,
    /// The agreed secret is written to the next slot instead of the output.
    pub ecdh_secret_out: bool,
}

/// Description of one key slot, derived by parsing the raw configuration
/// zone; read-only once constructed.
#[derive(Clone, Copy, Debug, PartialEq, Eq, Structural)]
pub struct SlotConfig {
    /// Write permission granted by the slot's configuration word.
    pub write_config: WriteConfig,
    /// Kind of key material the slot is configured to hold.
    pub key_type: KeyType,
    /// Read permission bits; meaningful when the slot is not a private key.
    pub read_key: ReadKey,
    /// Private-key usage attributes.
    pub ecc_key_attr: EccKeyAttr,
    /// Certificate template identifier bits.
    pub x509id: u8,
    /// Slot holding the key that authorizes use of this slot.
    pub auth_key: u8,
    /// Slot holding the key that encrypts writes.
    pub write_key: u8,
    /// The slot's contents may never be read in the clear.
    pub is_secret: bool,
    /// Use of the slot decrements the monotonic counter.
    pub limited_use: bool,
    /// The slot may not be used by the MAC command.
    pub no_mac: bool,
    /// The slot can be permanently disabled.
    pub persistent_disable: bool,
    /// The public version of this key may always be generated.
    pub pub_info: bool,
}

/// One physical slot: its index, its individual lock bit, and its parsed
/// configuration.
#[derive(Clone, Copy, Debug, PartialEq, Eq, Structural)]
pub struct AtcaSlot {
    /// Slot index, `0` to `15`.
    pub id: u8,
    /// Whether the slot is individually locked.
    pub is_locked: bool,
    /// The slot's parsed configuration.
    pub config: SlotConfig,
}

} // verus!
