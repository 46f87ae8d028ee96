//! The closed set of status codes produced by every device operation, and the
//! total mapping from raw wire codes into it.

use vstd::prelude::*;

verus! {

/// Raw wire code reported by the device for a successful command.
pub const ATCA_SUCCESS_CODE: u8 = 0x00;
/// Raw wire code: the configuration zone is locked.
pub const ATCA_CONFIG_ZONE_LOCKED_CODE: u8 = 0x01;
/// Raw wire code: the data zone is locked.
pub const ATCA_DATA_ZONE_LOCKED_CODE: u8 = 0x02;
/// Raw wire code: the device did not wake up.
pub const ATCA_WAKE_FAILED_CODE: u8 = 0xD0;
/// Raw wire code: a CheckMac or Verify command found a mismatch.
pub const ATCA_CHECKMAC_VERIFY_FAILED_CODE: u8 = 0xD1;
/// Raw wire code: a response could not be parsed.
pub const ATCA_PARSE_ERROR_CODE: u8 = 0xD2;
/// Raw wire code: the device reported a CRC error.
pub const ATCA_STATUS_CRC_CODE: u8 = 0xD4;
/// Raw wire code: the device reported an unknown condition.
pub const ATCA_STATUS_UNKNOWN_CODE: u8 = 0xD5;
/// Raw wire code: the device reported an ECC fault.
pub const ATCA_STATUS_ECC_CODE: u8 = 0xD6;
/// Raw wire code: the device self test failed.
pub const ATCA_STATUS_SELFTEST_ERROR_CODE: u8 = 0xD7;
/// Raw wire code: a host-side function failed.
pub const ATCA_FUNC_FAIL_CODE: u8 = 0xE0;
/// Raw wire code: an unspecified host-side failure.
pub const ATCA_GEN_FAIL_CODE: u8 = 0xE1;
/// Raw wire code: a bad argument was detected before any bus transaction.
pub const ATCA_BAD_PARAM_CODE: u8 = 0xE2;
/// Raw wire code: an invalid device or slot identifier.
pub const ATCA_INVALID_ID_CODE: u8 = 0xE3;
/// Raw wire code: a buffer of invalid size.
pub const ATCA_INVALID_SIZE_CODE: u8 = 0xE4;
/// Raw wire code: a CRC mismatch was found in a received packet.
pub const ATCA_RX_CRC_ERROR_CODE: u8 = 0xE5;
/// Raw wire code: receiving a response failed.
pub const ATCA_RX_FAIL_CODE: u8 = 0xE6;
/// Raw wire code: no response was received at all.
pub const ATCA_RX_NO_RESPONSE_CODE: u8 = 0xE7;
/// Raw wire code: the receive buffer was too small for the response.
pub const ATCA_SMALL_BUFFER_CODE: u8 = 0xED;
/// Raw wire code: communication with the device failed.
pub const ATCA_COMM_FAIL_CODE: u8 = 0xF0;
/// Raw wire code: the command timed out.
pub const ATCA_TIMEOUT_CODE: u8 = 0xF1;
/// Raw wire code: the device rejected the command opcode.
pub const ATCA_BAD_OPCODE_CODE: u8 = 0xF2;
/// Raw wire code: the device accepted the command but could not execute it.
pub const ATCA_EXECUTION_ERROR_CODE: u8 = 0xF4;
/// Raw wire code: the requested operation is not implemented.
pub const ATCA_UNIMPLEMENTED_CODE: u8 = 0xF5;
/// Raw wire code: transmitting the command failed.
pub const ATCA_TX_FAIL_CODE: u8 = 0xF7;
/// Raw wire code: a zone that must be locked for the operation is not.
pub const ATCA_NOT_LOCKED_CODE: u8 = 0xF8;
/// Raw wire code: no device was found on the bus.
pub const ATCA_NO_DEVICES_CODE: u8 = 0xF9;

/// Status of every fallible device operation.  A closed enumeration: raw wire
/// codes that this layer does not distinguish map to `AtcaUnknown`, so the
/// mapping from the wire is total and every call returns a defined status.
#[derive(Clone, Copy, Debug, PartialEq, Eq, Structural)]
pub enum AtcaStatus {
    /// The operation completed successfully.
    AtcaSuccess,
    /// The configuration zone is locked.
    AtcaConfigZoneLocked,
    /// The data zone is locked.
    AtcaDataZoneLocked,
    /// The device did not wake up.
    AtcaWakeFailed,
    /// A CheckMac or Verify command found a mismatch.
    AtcaCheckMacVerifyFailed,
    /// A response could not be parsed.
    AtcaParseError,
    /// The device reported a CRC error.
    AtcaStatusCrc,
    /// The device reported an unknown condition.
    AtcaStatusUnknown,
    /// The device reported an ECC fault.
    AtcaStatusEcc,
    /// The device self test failed.
    AtcaStatusSelftestError,
    /// A host-side function failed.
    AtcaFuncFail,
    /// An unspecified host-side failure.
    AtcaGenFail,
    /// A bad argument was detected before any bus transaction.
    AtcaBadParam,
    /// An invalid device or slot identifier.
    AtcaInvalidId,
    /// A buffer of invalid size.
    AtcaInvalidSize,
    /// A CRC mismatch was found in a received packet.
    AtcaRxCrcError,
    /// Receiving a response failed.
    AtcaRxFail,
    /// No response was received at all.
    AtcaRxNoResponse,
    /// The receive buffer was too small for the response.
    AtcaSmallBuffer,
    /// Communication with the device failed.
    AtcaCommFail,
    /// The command timed out.
    AtcaTimeout,
    /// The device rejected the command opcode.
    AtcaBadOpcode,
    /// The device accepted the command but could not execute it.
    AtcaExecutionError,
    /// The requested operation is not implemented.
    AtcaUnimplemented,
    /// Transmitting the command failed.
    AtcaTxFail,
    /// A zone that must be locked for the operation is not.
    AtcaNotLocked,
    /// No device was found on the bus.
    AtcaNoDevices,
    /// There is no live session to act on.
    AtcaNotInitialized,
    /// A wire code this layer does not distinguish.
    AtcaUnknown,
}

/// The status that a raw wire code denotes.  Total: unrecognized codes denote
/// `AtcaUnknown` rather than failing the mapping itself.
pub open spec fn spec_status_from_raw(raw: u8) -> AtcaStatus {
    if raw == ATCA_SUCCESS_CODE {
        AtcaStatus::AtcaSuccess
    } else if raw == ATCA_CONFIG_ZONE_LOCKED_CODE {
        AtcaStatus::AtcaConfigZoneLocked
    } else if raw == ATCA_DATA_ZONE_LOCKED_CODE {
        AtcaStatus::AtcaDataZoneLocked
    } else if raw == ATCA_WAKE_FAILED_CODE {
        AtcaStatus::AtcaWakeFailed
    } else if raw == ATCA_CHECKMAC_VERIFY_FAILED_CODE {
        AtcaStatus::AtcaCheckMacVerifyFailed
    } else if raw == ATCA_PARSE_ERROR_CODE {
        AtcaStatus::AtcaParseError
    } else if raw == ATCA_STATUS_CRC_CODE {
        AtcaStatus::AtcaStatusCrc
    } else if raw == ATCA_STATUS_UNKNOWN_CODE {
        AtcaStatus::AtcaStatusUnknown
    } else if raw == ATCA_STATUS_ECC_CODE {
        AtcaStatus::AtcaStatusEcc
    } else if raw == ATCA_STATUS_SELFTEST_ERROR_CODE {
        AtcaStatus::AtcaStatusSelftestError
    } else if raw == ATCA_FUNC_FAIL_CODE {
        AtcaStatus::AtcaFuncFail
    } else if raw == ATCA_GEN_FAIL_CODE {
        AtcaStatus::AtcaGenFail
    } else if raw == ATCA_BAD_PARAM_CODE {
        AtcaStatus::AtcaBadParam
    } else if raw == ATCA_INVALID_ID_CODE {
        AtcaStatus::AtcaInvalidId
    } else if raw == ATCA_INVALID_SIZE_CODE {
        AtcaStatus::AtcaInvalidSize
    } else if raw == ATCA_RX_CRC_ERROR_CODE {
        AtcaStatus::AtcaRxCrcError
    } else if raw == ATCA_RX_FAIL_CODE {
        AtcaStatus::AtcaRxFail
    } else if raw == ATCA_RX_NO_RESPONSE_CODE {
        AtcaStatus::AtcaRxNoResponse
    } else if raw == ATCA_SMALL_BUFFER_CODE {
        AtcaStatus::AtcaSmallBuffer
    } else if raw == ATCA_COMM_FAIL_CODE {
        AtcaStatus::AtcaCommFail
    } else if raw == ATCA_TIMEOUT_CODE {
        AtcaStatus::AtcaTimeout
    } else if raw == ATCA_BAD_OPCODE_CODE {
        AtcaStatus::AtcaBadOpcode
    } else if raw == ATCA_EXECUTION_ERROR_CODE {
        AtcaStatus::AtcaExecutionError
    } else if raw == ATCA_UNIMPLEMENTED_CODE {
        AtcaStatus::AtcaUnimplemented
    } else if raw == ATCA_TX_FAIL_CODE {
        AtcaStatus::AtcaTxFail
    } else if raw == ATCA_NOT_LOCKED_CODE {
        AtcaStatus::AtcaNotLocked
    } else if raw == ATCA_NO_DEVICES_CODE {
        AtcaStatus::AtcaNoDevices
    } else {
        AtcaStatus::AtcaUnknown
    }
}

/// Maps a raw wire status code to the status it denotes.
pub fn atca_status_from_raw(raw: u8) -> (status: AtcaStatus)
    ensures
        status == spec_status_from_raw(raw),
{
    if raw == ATCA_SUCCESS_CODE {
        AtcaStatus::AtcaSuccess
    } else if raw == ATCA_CONFIG_ZONE_LOCKED_CODE {
        AtcaStatus::AtcaConfigZoneLocked
    } else if raw == ATCA_DATA_ZONE_LOCKED_CODE {
        AtcaStatus::AtcaDataZoneLocked
    } else if raw == ATCA_WAKE_FAILED_CODE {
        AtcaStatus::AtcaWakeFailed
    } else if raw == ATCA_CHECKMAC_VERIFY_FAILED_CODE {
        AtcaStatus::AtcaCheckMacVerifyFailed
    } else if raw == ATCA_PARSE_ERROR_CODE {
        AtcaStatus::AtcaParseError
    } else if raw == ATCA_STATUS_CRC_CODE {
        AtcaStatus::AtcaStatusCrc
    } else if raw == ATCA_STATUS_UNKNOWN_CODE {
        AtcaStatus::AtcaStatusUnknown
    } else if raw == ATCA_STATUS_ECC_CODE {
        AtcaStatus::AtcaStatusEcc
    } else if raw == ATCA_STATUS_SELFTEST_ERROR_CODE {
        AtcaStatus::AtcaStatusSelftestError
    } else if raw == ATCA_FUNC_FAIL_CODE {
        AtcaStatus::AtcaFuncFail
    } else if raw == ATCA_GEN_FAIL_CODE {
        AtcaStatus::AtcaGenFail
    } else if raw == ATCA_BAD_PARAM_CODE {
        AtcaStatus::AtcaBadParam
    } else if raw == ATCA_INVALID_ID_CODE {
        AtcaStatus::AtcaInvalidId
    } else if raw == ATCA_INVALID_SIZE_CODE {
        AtcaStatus::AtcaInvalidSize
    } else if raw == ATCA_RX_CRC_ERROR_CODE {
        AtcaStatus::AtcaRxCrcError
    } else if raw == ATCA_RX_FAIL_CODE {
        AtcaStatus::AtcaRxFail
    } else if raw == ATCA_RX_NO_RESPONSE_CODE {
        AtcaStatus::AtcaRxNoResponse
    } else if raw == ATCA_SMALL_BUFFER_CODE {
        AtcaStatus::AtcaSmallBuffer
    } else if raw == ATCA_COMM_FAIL_CODE {
        AtcaStatus::AtcaCommFail
    } else if raw == ATCA_TIMEOUT_CODE {
        AtcaStatus::AtcaTimeout
    } else if raw == ATCA_BAD_OPCODE_CODE {
        AtcaStatus::AtcaBadOpcode
    } else if raw == ATCA_EXECUTION_ERROR_CODE {
        AtcaStatus::AtcaExecutionError
    } else if raw == ATCA_UNIMPLEMENTED_CODE {
        AtcaStatus::AtcaUnimplemented
    } else if raw == ATCA_TX_FAIL_CODE {
        AtcaStatus::AtcaTxFail
    } else if raw == ATCA_NOT_LOCKED_CODE {
        AtcaStatus::AtcaNotLocked
    } else if raw == ATCA_NO_DEVICES_CODE {
        AtcaStatus::AtcaNoDevices
    } else {
        AtcaStatus::AtcaUnknown
    }
}

} // verus!
