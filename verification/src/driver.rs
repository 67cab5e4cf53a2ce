//! The status codes that an FTDI device driver hands back.

use vstd::prelude::*;
use vstd::std_specs::convert::FromSpecImpl;

verus! {

/// The status that a call of the device driver ends with.
#[derive(Debug, PartialEq, Eq, Structural)]
pub enum FTDIStatus {
    /// The call went well: code 0.
    FTOk,
    /// The handle is not valid: code 1.
    FTInvalidHandle,
    /// No such device: code 2.
    FTDeviceNotFound,
    /// The device is not open: code 3.
    FTDeviceNotOpened,
    /// Reading or writing failed: code 4.
    FTIOError,
    /// The driver ran out of resources: code 5.
    FTInfficientResources,
    /// A parameter is not valid: code 6.
    FTInvalidParameter,
    /// The baud rate is not valid: code 7.
    FTInvalidBaudRate,
    /// The device is not open for erasing: code 8.
    FTDeviceNotOpenedForErase,
    /// The device is not open for writing: code 9.
    FTDeviceNotOpenedForWrite,
    /// Writing to the device failed: code 10.
    FTFailedToWriteDevice,
    /// Reading the EEPROM failed: code 11.
    FTEEPROMReadFailed,
    /// Writing the EEPROM failed: code 12.
    FTEEPROMWriteFailed,
    /// Erasing the EEPROM failed: code 13.
    FTEEPROMEraseFailed,
    /// The device has no EEPROM: code 14.
    FTEEPROMNotPresent,
    /// The EEPROM is not programmed: code 15.
    FTEEPROMNotProgrammed,
    /// The arguments are not valid: code 16.
    FTInvalidArgs,
    /// The device does not support the call: code 17.
    FTNotSupported,
    /// Another failure: code 18.
    FTOtherError,
    /// The list of devices is not ready: code 19.
    FTDeviceListNotReady,
    /// A code that the driver does not define.
    Unknown(u32),
}

/// The status that the code `code` stands for. The codes from 0 to 19 each
/// have a status of their own; every other code is kept as it is.
pub open spec fn status_of(code: u32) -> FTDIStatus {
    if code == 0 {
        FTDIStatus::FTOk
    } else if code == 1 {
        FTDIStatus::FTInvalidHandle
    } else if code == 2 {
        FTDIStatus::FTDeviceNotFound
    } else if code == 3 {
        FTDIStatus::FTDeviceNotOpened
    } else if code == 4 {
        FTDIStatus::FTIOError
    } else if code == 5 {
        FTDIStatus::FTInfficientResources
    } else if code == 6 {
        FTDIStatus::FTInvalidParameter
    } else if code == 7 {
        FTDIStatus::FTInvalidBaudRate
    } else if code == 8 {
        FTDIStatus::FTDeviceNotOpenedForErase
    } else if code == 9 {
        FTDIStatus::FTDeviceNotOpenedForWrite
    } else if code == 10 {
        FTDIStatus::FTFailedToWriteDevice
    } else if code == 11 {
        FTDIStatus::FTEEPROMReadFailed
    } else if code == 12 {
        FTDIStatus::FTEEPROMWriteFailed
    } else if code == 13 {
        FTDIStatus::FTEEPROMEraseFailed
    } else if code == 14 {
        FTDIStatus::FTEEPROMNotPresent
    } else if code == 15 {
        FTDIStatus::FTEEPROMNotProgrammed
    } else if code == 16 {
        FTDIStatus::FTInvalidArgs
    } else if code == 17 {
        FTDIStatus::FTNotSupported
    } else if code == 18 {
        FTDIStatus::FTOtherError
    } else if code == 19 {
        FTDIStatus::FTDeviceListNotReady
    } else {
        FTDIStatus::Unknown(code)
    }
}

impl FTDIStatus {
    /// The code of a status that the driver defines, and the code that an
    /// unknown status holds.
    pub open spec fn code(self) -> u32 {
        match self {
            FTDIStatus::FTOk => 0,
            FTDIStatus::FTInvalidHandle => 1,
            FTDIStatus::FTDeviceNotFound => 2,
            FTDIStatus::FTDeviceNotOpened => 3,
            FTDIStatus::FTIOError => 4,
            FTDIStatus::FTInfficientResources => 5,
            FTDIStatus::FTInvalidParameter => 6,
            FTDIStatus::FTInvalidBaudRate => 7,
            FTDIStatus::FTDeviceNotOpenedForErase => 8,
            FTDIStatus::FTDeviceNotOpenedForWrite => 9,
            FTDIStatus::FTFailedToWriteDevice => 10,
            FTDIStatus::FTEEPROMReadFailed => 11,
            FTDIStatus::FTEEPROMWriteFailed => 12,
            FTDIStatus::FTEEPROMEraseFailed => 13,
            FTDIStatus::FTEEPROMNotPresent => 14,
            FTDIStatus::FTEEPROMNotProgrammed => 15,
            FTDIStatus::FTInvalidArgs => 16,
            FTDIStatus::FTNotSupported => 17,
            FTDIStatus::FTOtherError => 18,
            FTDIStatus::FTDeviceListNotReady => 19,
            FTDIStatus::Unknown(c) => c,
        }
    }
}

impl From<u32> for FTDIStatus {
    fn from(ftdi_status_code: u32) -> (r: Self) {
        match ftdi_status_code {
            0 => FTDIStatus::FTOk,
            1 => FTDIStatus::FTInvalidHandle,
            2 => FTDIStatus::FTDeviceNotFound,
            3 => FTDIStatus::FTDeviceNotOpened,
            4 => FTDIStatus::FTIOError,
            5 => FTDIStatus::FTInfficientResources,
            6 => FTDIStatus::FTInvalidParameter,
            7 => FTDIStatus::FTInvalidBaudRate,
            8 => FTDIStatus::FTDeviceNotOpenedForErase,
            9 => FTDIStatus::FTDeviceNotOpenedForWrite,
            10 => FTDIStatus::FTFailedToWriteDevice,
            11 => FTDIStatus::FTEEPROMReadFailed,
            12 => FTDIStatus::FTEEPROMWriteFailed,
            13 => FTDIStatus::FTEEPROMEraseFailed,
            14 => FTDIStatus::FTEEPROMNotPresent,
            15 => FTDIStatus::FTEEPROMNotProgrammed,
            16 => FTDIStatus::FTInvalidArgs,
            17 => FTDIStatus::FTNotSupported,
            18 => FTDIStatus::FTOtherError,
            19 => FTDIStatus::FTDeviceListNotReady,
            _ => FTDIStatus::Unknown(ftdi_status_code),
        }
    }
}

impl FromSpecImpl<u32> for FTDIStatus {
    open spec fn obeys_from_spec() -> bool {
        true
    }

    open spec fn from_spec(code: u32) -> Self {
        status_of(code)
    }
}

/// The status of a code stands for that code again: no two codes share a
/// status.
pub proof fn status_keeps_code(code: u32)
    ensures
        status_of(code).code() == code,
{
}

/// What a call of the driver amounts to: the value that it read where the
/// status is a success, and the status where it is not.
pub fn outcome<V>(code: u32, value: V) -> (r: Result<V, FTDIStatus>)
    ensures
        r == (if code == 0 {
            Ok::<V, FTDIStatus>(value)
        } else {
            Err::<V, FTDIStatus>(status_of(code))
        }),
{
    match FTDIStatus::from(code) {
        FTDIStatus::FTOk => Ok(value),
        err => Err(err),
    }
}

} // verus!
