//! Device-type enumeration, its total mapping from raw wire codes, and the
//! device geometry that buffer validation is keyed off.

use vstd::prelude::*;

verus! {

/// Raw wire code of the hash-only device family member.
pub const ATSHA204A_TYPE_CODE: u8 = 0x00;
/// Raw wire code of the entry ECC family member.
pub const ATECC108A_TYPE_CODE: u8 = 0x01;
/// Raw wire code of the mid ECC family member.
pub const ATECC508A_TYPE_CODE: u8 = 0x02;
/// Raw wire code of the top-tier ECC family member.
pub const ATECC608A_TYPE_CODE: u8 = 0x03;

/// Size in bytes of the configuration zone of an ECC family device.  The
/// software test double emulates this geometry as well.
pub const ATCA_ATECC_CONFIG_BUFFER_SIZE: usize = 128;
/// Size in bytes of the configuration zone of the hash-only device family.
pub const ATCA_ATSHA_CONFIG_BUFFER_SIZE: usize = 88;

/// The device families this layer knows, plus the two reserved values that
/// select the software test double and an explicit unknown.
#[derive(Clone, Copy, Debug, PartialEq, Eq, Structural)]
pub enum AtcaDeviceType {
    /// Mid ECC family device.
    ATECC508A,
    /// Top-tier ECC family device: the only family member whose Nonce command
    /// accepts targets other than TempKey.
    ATECC608A,
    /// Entry ECC family device.
    ATECC108A,
    /// Hash-only device with the smaller configuration zone.
    ATSHA204A,
    /// Reserved value selecting the software test double whose every
    /// transport operation succeeds with a deterministic canned response.
    AtcaTestDevSuccess,
    /// Reserved value selecting the software test double whose every
    /// transport operation fails with a communication error.
    AtcaTestDevFail,
    /// An unrecognized device type; the factory rejects it.
    AtcaDevUnknown,
}

/// The device type a raw wire code denotes.  Total: unrecognized codes denote
/// `AtcaDevUnknown`.  The two test-double values are library-local and have
/// no wire code.
pub open spec fn spec_device_type_from_raw(raw: u8) -> AtcaDeviceType {
    if raw == ATSHA204A_TYPE_CODE {
        AtcaDeviceType::ATSHA204A
    } else if raw == ATECC108A_TYPE_CODE {
        AtcaDeviceType::ATECC108A
    } else if raw == ATECC508A_TYPE_CODE {
        AtcaDeviceType::ATECC508A
    } else if raw == ATECC608A_TYPE_CODE {
        AtcaDeviceType::ATECC608A
    } else {
        AtcaDeviceType::AtcaDevUnknown
    }
}

/// Maps a raw wire device-type code to the device type it denotes.
pub fn atca_device_type_from_raw(raw: u8) -> (devtype: AtcaDeviceType)
    ensures
        devtype == spec_device_type_from_raw(raw),
{
    if raw == ATSHA204A_TYPE_CODE {
        AtcaDeviceType::ATSHA204A
    } else if raw == ATECC108A_TYPE_CODE {
        AtcaDeviceType::ATECC108A
    } else if raw == ATECC508A_TYPE_CODE {
        AtcaDeviceType::ATECC508A
    } else if raw == ATECC608A_TYPE_CODE {
        AtcaDeviceType::ATECC608A
    } else {
        AtcaDeviceType::AtcaDevUnknown
    }
}

/// The configuration zone size of a device family.  The hash-only family has
/// the smaller zone; every other family member, the test doubles included,
/// carries the ECC geometry.
pub open spec fn spec_config_zone_size(devtype: AtcaDeviceType) -> usize {
    match devtype {
        AtcaDeviceType::ATSHA204A => ATCA_ATSHA_CONFIG_BUFFER_SIZE,
        _ => ATCA_ATECC_CONFIG_BUFFER_SIZE,
    }
}

/// Returns the configuration zone size that buffers for `devtype` must have.
pub fn config_zone_size(devtype: AtcaDeviceType) -> (size: usize)
    ensures
        size == spec_config_zone_size(devtype),
{
    match devtype {
        AtcaDeviceType::ATSHA204A => ATCA_ATSHA_CONFIG_BUFFER_SIZE,
        _ => ATCA_ATECC_CONFIG_BUFFER_SIZE,
    }
}

} // verus!
