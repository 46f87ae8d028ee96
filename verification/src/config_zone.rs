//! Parsing of the raw configuration zone into per-slot descriptions and into
//! the two independent zone lock bits.

use vstd::prelude::*;
use crate::devtype::ATCA_ATECC_CONFIG_BUFFER_SIZE;
use crate::slot::{
    AtcaSlot, EccKeyAttr, KeyType, ReadKey, SlotConfig, WriteConfig, ATCA_ATECC_SLOTS_COUNT,
};
use crate::status::AtcaStatus;

verus! {

/// Offset of the first per-slot configuration word.
pub const ATCA_SLOT_CONFIG_OFFSET: usize = 20;
/// Offset of the data-zone lock byte.
pub const ATCA_LOCK_VALUE_OFFSET: usize = 86;
/// Offset of the configuration-zone lock byte.
pub const ATCA_LOCK_CONFIG_OFFSET: usize = 87;
/// Offset of the two bytes holding the individual slot lock bits.
pub const ATCA_SLOT_LOCKED_OFFSET: usize = 88;
/// Offset of the first per-slot key configuration word.
pub const ATCA_KEY_CONFIG_OFFSET: usize = 96;
/// Value of a lock byte whose zone is still unlocked.
pub const ATCA_ZONE_UNLOCKED: u8 = 0x55;

/// Write permission denoted by the four write-configuration bits of a slot
/// configuration word.
pub open spec fn spec_write_config_from_nibble(nibble: u8) -> WriteConfig {
    if nibble == 0x0 {
        WriteConfig::Always
    } else if nibble == 0x1 {
        WriteConfig::PubInvalid
    } else if nibble & 0x2 == 0x2 && nibble & 0x4 == 0x0 {
        WriteConfig::Never
    } else if nibble & 0x4 == 0x4 {
        WriteConfig::Encrypt
    } else {
        WriteConfig::Never
    }
}

/// Maps the write-configuration bits of a slot configuration word to the
/// write permission they denote.
pub fn write_config_from_nibble(nibble: u8) -> (wc: WriteConfig)
    ensures
        wc == spec_write_config_from_nibble(nibble),
{
    if nibble == 0x0 {
        WriteConfig::Always
    } else if nibble == 0x1 {
        WriteConfig::PubInvalid
    } else if nibble & 0x2 == 0x2 && nibble & 0x4 == 0x0 {
        WriteConfig::Never
    } else if nibble & 0x4 == 0x4 {
        WriteConfig::Encrypt
    } else {
        WriteConfig::Never
    }
}

/// Key kind denoted by the three key-type bits of a key configuration word.
pub open spec fn spec_key_type_from_bits(bits: u8) -> KeyType {
    if bits == 0x4 {
        KeyType::P256EccKey
    } else if bits == 0x6 {
        KeyType::Aes
    } else if bits == 0x7 {
        KeyType::ShaOrText
    } else {
        KeyType::Rfu
    }
}

/// Maps the key-type bits of a key configuration word to the key kind they
/// denote.
pub fn key_type_from_bits(bits: u8) -> (kt: KeyType)
    ensures
        kt == spec_key_type_from_bits(bits),
{
    if bits == 0x4 {
        KeyType::P256EccKey
    } else if bits == 0x6 {
        KeyType::Aes
    } else if bits == 0x7 {
        KeyType::ShaOrText
    } else {
        KeyType::Rfu
    }
}

/// The slot description encoded by one slot configuration word (`slot_lo`,
/// `slot_hi`) and one key configuration word (`key_lo`, `key_hi`).  For a
/// slot holding a private key, the four low read-key bits carry the key's
/// usage permissions instead of a read key.
pub open spec fn spec_slot_config_from_words(
    slot_lo: u8,
    slot_hi: u8,
    key_lo: u8,
    key_hi: u8,
) -> SlotConfig {
    SlotConfig {
        write_config: spec_write_config_from_nibble((slot_hi >> 4) & 0x0F),
        key_type: spec_key_type_from_bits((key_lo >> 2) & 0x07),
        read_key: ReadKey {
            encrypt_read: slot_lo & 0x40 == 0x40,
            slot_number: slot_lo & 0x0F,
        },
        ecc_key_attr: EccKeyAttr {
            is_private: key_lo & 0x01 == 0x01,
            ext_sign: key_lo & 0x01 == 0x01 && slot_lo & 0x01 == 0x01,
            int_sign: key_lo & 0x01 == 0x01 && slot_lo & 0x02 == 0x02,
            ecdh_operation: key_lo & 0x01 == 0x01 && slot_lo & 0x04 == 0x04,
            ecdh_secret_out: key_lo & 0x01 == 0x01 && slot_lo & 0x08 == 0x08,
        },
        x509id: (key_hi >> 6) & 0x03,
        auth_key: key_hi & 0x0F,
        write_key: slot_hi & 0x0F,
        is_secret: slot_lo & 0x80 == 0x80,
        limited_use: slot_lo & 0x20 == 0x20,
        no_mac: slot_lo & 0x10 == 0x10,
        persistent_disable: key_hi & 0x10 == 0x10,
        pub_info: key_lo & 0x02 == 0x02,
    }
}

/// Parses one slot configuration word and one key configuration word into
/// the slot description they encode.
pub fn slot_config_from_words(slot_lo: u8, slot_hi: u8, key_lo: u8, key_hi: u8) -> (config:
    SlotConfig)
    ensures
        config == spec_slot_config_from_words(slot_lo, slot_hi, key_lo, key_hi),
{
    let is_private: bool = key_lo & 0x01 == 0x01;
    SlotConfig {
        write_config: write_config_from_nibble((slot_hi >> 4) & 0x0F),
        key_type: key_type_from_bits((key_lo >> 2) & 0x07),
        read_key: ReadKey {
            encrypt_read: slot_lo & 0x40 == 0x40,
            slot_number: slot_lo & 0x0F,
        },
        ecc_key_attr: EccKeyAttr {
            is_private,
            ext_sign: is_private && slot_lo & 0x01 == 0x01,
            int_sign: is_private && slot_lo & 0x02 == 0x02,
            ecdh_operation: is_private && slot_lo & 0x04 == 0x04,
            ecdh_secret_out: is_private && slot_lo & 0x08 == 0x08,
        },
        x509id: (key_hi >> 6) & 0x03,
        auth_key: key_hi & 0x0F,
        write_key: slot_hi & 0x0F,
        is_secret: slot_lo & 0x80 == 0x80,
        limited_use: slot_lo & 0x20 == 0x20,
        no_mac: slot_lo & 0x10 == 0x10,
        persistent_disable: key_hi & 0x10 == 0x10,
        pub_info: key_lo & 0x02 == 0x02,
    }
}

/// Whether slot `idx` is individually locked: its bit in the two slot-lock
/// bytes is zero.
pub open spec fn spec_slot_is_locked(config_data: Seq<u8>, idx: int) -> bool
    recommends
        config_data.len() == ATCA_ATECC_CONFIG_BUFFER_SIZE,
        0 <= idx < ATCA_ATECC_SLOTS_COUNT,
{
    if idx < 8 {
        (config_data[ATCA_SLOT_LOCKED_OFFSET as int] >> (idx as u8)) & 0x01 == 0x00
    } else {
        (config_data[ATCA_SLOT_LOCKED_OFFSET as int + 1] >> ((idx - 8) as u8)) & 0x01 == 0x00
    }
}

/// The description of slot `idx` encoded by a full configuration zone.
pub open spec fn spec_slot_from_config_zone(config_data: Seq<u8>, idx: int) -> AtcaSlot
    recommends
        config_data.len() == ATCA_ATECC_CONFIG_BUFFER_SIZE,
        0 <= idx < ATCA_ATECC_SLOTS_COUNT,
{
    AtcaSlot {
        id: idx as u8,
        is_locked: spec_slot_is_locked(config_data, idx),
        config: spec_slot_config_from_words(
            config_data[ATCA_SLOT_CONFIG_OFFSET + 2 * idx],
            config_data[ATCA_SLOT_CONFIG_OFFSET + 2 * idx + 1],
            config_data[ATCA_KEY_CONFIG_OFFSET + 2 * idx],
            config_data[ATCA_KEY_CONFIG_OFFSET + 2 * idx + 1],
        ),
    }
}

/// Whether a configuration zone's configuration-zone lock byte says the zone
/// is locked.
pub open spec fn spec_config_zone_locked(config_data: Seq<u8>) -> bool
    recommends
        config_data.len() == ATCA_ATECC_CONFIG_BUFFER_SIZE,
{
    config_data[ATCA_LOCK_CONFIG_OFFSET as int] != ATCA_ZONE_UNLOCKED
}

/// Whether a configuration zone's data-zone lock byte says the zone is
/// locked.  Independent of the configuration-zone lock bit.
pub open spec fn spec_data_zone_locked(config_data: Seq<u8>) -> bool
    recommends
        config_data.len() == ATCA_ATECC_CONFIG_BUFFER_SIZE,
{
    config_data[ATCA_LOCK_VALUE_OFFSET as int] != ATCA_ZONE_UNLOCKED
}

/// Returns whether slot `slot_number` of a full configuration zone is
/// individually locked.
pub fn slot_is_locked(config_data: &Vec<u8>, slot_number: u8) -> (locked: bool)
    requires
        config_data@.len() == ATCA_ATECC_CONFIG_BUFFER_SIZE,
        slot_number < ATCA_ATECC_SLOTS_COUNT,
    ensures
        locked == spec_slot_is_locked(config_data@, slot_number as int),
{
    if slot_number < 8 {
        (config_data[ATCA_SLOT_LOCKED_OFFSET] >> slot_number) & 0x01 == 0x00
    } else {
        (config_data[ATCA_SLOT_LOCKED_OFFSET + 1] >> (slot_number - 8)) & 0x01 == 0x00
    }
}

/// Parses the description of slot `slot_number` out of a full configuration
/// zone.
pub fn slot_from_config_zone(config_data: &Vec<u8>, slot_number: u8) -> (slot: AtcaSlot)
    requires
        config_data@.len() == ATCA_ATECC_CONFIG_BUFFER_SIZE,
        slot_number < ATCA_ATECC_SLOTS_COUNT,
    ensures
        slot == spec_slot_from_config_zone(config_data@, slot_number as int),
{
    let idx: usize = slot_number as usize;
    AtcaSlot {
        id: slot_number,
        is_locked: slot_is_locked(config_data, slot_number),
        config: slot_config_from_words(
            config_data[ATCA_SLOT_CONFIG_OFFSET + 2 * idx],
            config_data[ATCA_SLOT_CONFIG_OFFSET + 2 * idx + 1],
            config_data[ATCA_KEY_CONFIG_OFFSET + 2 * idx],
            config_data[ATCA_KEY_CONFIG_OFFSET + 2 * idx + 1],
        ),
    }
}

/// Parses a full configuration zone into the sixteen slot descriptions it
/// encodes, in slot-index order.  A buffer that does not have the ECC-family
/// geometry is rejected as a bad parameter and the output is left unchanged.
pub fn config_zone_to_slots(config_data: &Vec<u8>, atca_slots: &mut Vec<AtcaSlot>) -> (status:
    AtcaStatus)
    ensures
        config_data@.len() != ATCA_ATECC_CONFIG_BUFFER_SIZE ==> (status
            == AtcaStatus::AtcaBadParam && final(atca_slots)@ == old(atca_slots)@),
        config_data@.len() == ATCA_ATECC_CONFIG_BUFFER_SIZE ==> (status
            == AtcaStatus::AtcaSuccess && final(atca_slots)@.len() == ATCA_ATECC_SLOTS_COUNT && (
        forall|i: int|
            0 <= i < ATCA_ATECC_SLOTS_COUNT ==> final(atca_slots)@[i]
                == spec_slot_from_config_zone(config_data@, i))),
{
    if config_data.len() != ATCA_ATECC_CONFIG_BUFFER_SIZE {
        return AtcaStatus::AtcaBadParam;
    }
    atca_slots.clear();
    let mut idx: usize = 0;
    while idx < ATCA_ATECC_SLOTS_COUNT as usize
        invariant
            config_data@.len() == ATCA_ATECC_CONFIG_BUFFER_SIZE,
            idx <= ATCA_ATECC_SLOTS_COUNT,
            atca_slots@.len() == idx,
            forall|i: int|
                0 <= i < idx ==> atca_slots@[i] == spec_slot_from_config_zone(config_data@, i),
        decreases ATCA_ATECC_SLOTS_COUNT - idx,
    {
        let slot = slot_from_config_zone(config_data, idx as u8);
        atca_slots.push(slot);
        idx = idx + 1;
    }
    AtcaStatus::AtcaSuccess
}

/// Reads the configuration-zone lock byte out of a full configuration zone.
pub fn config_zone_is_locked(config_data: &Vec<u8>) -> (locked: Result<bool, AtcaStatus>)
    ensures
        config_data@.len() != ATCA_ATECC_CONFIG_BUFFER_SIZE ==> locked == Err::<
            bool,
            AtcaStatus,
        >(AtcaStatus::AtcaBadParam),
        config_data@.len() == ATCA_ATECC_CONFIG_BUFFER_SIZE ==> locked == Ok::<
            bool,
            AtcaStatus,
        >(spec_config_zone_locked(config_data@)),
{
    if config_data.len() != ATCA_ATECC_CONFIG_BUFFER_SIZE {
        return Err(AtcaStatus::AtcaBadParam);
    }
    Ok(config_data[ATCA_LOCK_CONFIG_OFFSET] != ATCA_ZONE_UNLOCKED)
}

/// Reads the data-zone lock byte out of a full configuration zone.
pub fn data_zone_is_locked(config_data: &Vec<u8>) -> (locked: Result<bool, AtcaStatus>)
    ensures
        config_data@.len() != ATCA_ATECC_CONFIG_BUFFER_SIZE ==> locked == Err::<
            bool,
            AtcaStatus,
        >(AtcaStatus::AtcaBadParam),
        config_data@.len() == ATCA_ATECC_CONFIG_BUFFER_SIZE ==> locked == Ok::<
            bool,
            AtcaStatus,
        >(spec_data_zone_locked(config_data@)),
{
    if config_data.len() != ATCA_ATECC_CONFIG_BUFFER_SIZE {
        return Err(AtcaStatus::AtcaBadParam);
    }
    Ok(config_data[ATCA_LOCK_VALUE_OFFSET] != ATCA_ZONE_UNLOCKED)
}

} // verus!
