//! The fixed command set of the sensor and the selectors of its device
//! information strings, with their wire codes.

use vstd::prelude::*;

verus! {

/// Available commands
#[derive(Debug, Clone, Copy, PartialEq, Eq, Structural)]
pub enum CommandType {
    /// Start measurement
    StartMeasurement,
    /// Stop measurement
    StopMeasurement,
    /// Read measurement
    ReadMeasuredData,
    /// Read/Write Auto Cleaning Interval
    ReadWriteAutoCleaningInterval,
    /// Start Fan Cleaning
    StartFanCleaning,
    /// Device Information
    DeviceInformation,
    /// Reset
    Reset,
}

impl CommandType {
    /// The wire code of the command.
    pub open spec fn spec_code(self) -> u8 {
        match self {
            CommandType::StartMeasurement => 0x00,
            CommandType::StopMeasurement => 0x01,
            CommandType::ReadMeasuredData => 0x03,
            CommandType::ReadWriteAutoCleaningInterval => 0x80,
            CommandType::StartFanCleaning => 0x56,
            CommandType::DeviceInformation => 0xD0,
            CommandType::Reset => 0xD3,
        }
    }

    /// Returns the wire code of the command.
    pub fn code(self) -> (r: u8)
        ensures
            r == self.spec_code(),
    {
        match self {
            CommandType::StartMeasurement => 0x00,
            CommandType::StopMeasurement => 0x01,
            CommandType::ReadMeasuredData => 0x03,
            CommandType::ReadWriteAutoCleaningInterval => 0x80,
            CommandType::StartFanCleaning => 0x56,
            CommandType::DeviceInformation => 0xD0,
            CommandType::Reset => 0xD3,
        }
    }
}

/// Types of information the device holds
#[derive(Debug, Clone, Copy, PartialEq, Eq, Structural)]
pub enum DeviceInfo {
    /// Product Name
    ProductName,
    /// Article Code
    ArticleCode,
    /// Serial Number
    SerialNumber,
}

impl DeviceInfo {
    /// The wire code of the selector.
    pub open spec fn spec_code(self) -> u8 {
        match self {
            DeviceInfo::ProductName => 1,
            DeviceInfo::ArticleCode => 2,
            DeviceInfo::SerialNumber => 3,
        }
    }

    /// Returns the wire code of the selector, the single data byte of a
    /// device-information request.
    pub fn code(self) -> (r: u8)
        ensures
            r == self.spec_code(),
    {
        match self {
            DeviceInfo::ProductName => 1,
            DeviceInfo::ArticleCode => 2,
            DeviceInfo::SerialNumber => 3,
        }
    }
}

} // verus!
