//! Interpretation of validated response payloads, one function per command
//! shape: measurement data, the auto-cleaning interval, the acknowledgement
//! of a written interval, and the device-information strings.

use vstd::prelude::*;

use crate::commands::CommandType;
use crate::errors::Error;
use crate::frame::{check_miso_frame, miso_device_fault, miso_ok, spec_u32_from_be, u32_from_be};

verus! {

/// Decodes a measurement response: exactly 45 bytes (five of header, forty
/// of data, counting the trailing checksum byte in neither), validated
/// against the read-measured-data command, yielding the ten 4-byte
/// big-endian groups as raw 32-bit words in device order. A 5-byte response
/// carries no data yet; any other length fits no expected shape.
pub fn decode_measurement<E, F>(data: &[u8]) -> (r: Result<[u32; 10], Error<E, F>>)
    ensures
        (match r {
            Ok(bits) => data@.len() == 45 && miso_ok(
                data@,
                CommandType::ReadMeasuredData.spec_code(),
            ) && (forall|i: int|
                0 <= i < 10 ==> bits@[i] == spec_u32_from_be(
                    data@.subrange(4 + 4 * i, 8 + 4 * i),
                )),
            Err(e) => (if data@.len() == 45 {
                !miso_ok(data@, CommandType::ReadMeasuredData.spec_code()) && (if miso_device_fault(
                    data@,
                    CommandType::ReadMeasuredData.spec_code(),
                ) {
                    e == Error::<E, F>::StatusError
                } else {
                    e == Error::<E, F>::InvalidRespose
                })
            } else if data@.len() == 5 {
                e == Error::<E, F>::EmptyResult
            } else {
                e == Error::<E, F>::InvalidFrame
            }),
        }),
{
    if data.len() == 45 {
        match check_miso_frame::<E, F>(data, CommandType::ReadMeasuredData) {
            Ok(_) => {
                let mut bits: [u32; 10] = [0; 10];
                let mut i: usize = 0;
                while i < 10
                    invariant
                        i <= 10,
                        data@.len() == 45,
                        forall|j: int|
                            0 <= j < i ==> bits@[j] == spec_u32_from_be(
                                data@.subrange(4 + 4 * j, 8 + 4 * j),
                            ),
                    decreases 10 - i,
                {
                    let group = vstd::slice::slice_subrange(data, 4 + 4 * i, 8 + 4 * i);
                    bits[i] = u32_from_be(group);
                    i += 1;
                }
                Ok(bits)
            },
            Err(e) => Err(e),
        }
    } else if data.len() == 5 {
        Err(Error::EmptyResult)
    } else {
        Err(Error::InvalidFrame)
    }
}

/// Decodes a read-cleaning-interval response: validated against the
/// read/write-auto-cleaning-interval command, its four data bytes read as a
/// big-endian unsigned 32-bit number of seconds.
pub fn decode_cleaning_interval<E, F>(data: &[u8]) -> (r: Result<u32, Error<E, F>>)
    ensures
        (match r {
            Ok(v) => miso_ok(data@, CommandType::ReadWriteAutoCleaningInterval.spec_code())
                && data@[3] == 4 && v == spec_u32_from_be(data@.subrange(4, 8)),
            Err(e) => (if miso_ok(data@, CommandType::ReadWriteAutoCleaningInterval.spec_code()) {
                data@[3] != 4 && e == Error::<E, F>::InvalidRespose
            } else if miso_device_fault(
                data@,
                CommandType::ReadWriteAutoCleaningInterval.spec_code(),
            ) {
                e == Error::<E, F>::StatusError
            } else {
                e == Error::<E, F>::InvalidRespose
            }),
        }),
{
    match check_miso_frame::<E, F>(data, CommandType::ReadWriteAutoCleaningInterval) {
        Ok(_) => {
            if data[3] != 4 {
                return Err(Error::InvalidRespose);
            }
            let bytes = vstd::slice::slice_subrange(data, 4, 8);
            Ok(u32_from_be(bytes))
        },
        Err(e) => Err(e),
    }
}

/// Checks the acknowledgement of a written cleaning interval: validated
/// against the read/write-auto-cleaning-interval command, with no data
/// bytes.
pub fn decode_write_interval_ack<E, F>(data: &[u8]) -> (r: Result<(), Error<E, F>>)
    ensures
        (match r {
            Ok(_) => miso_ok(data@, CommandType::ReadWriteAutoCleaningInterval.spec_code())
                && data@[3] == 0,
            Err(e) => (if miso_ok(data@, CommandType::ReadWriteAutoCleaningInterval.spec_code()) {
                data@[3] != 0 && e == Error::<E, F>::InvalidRespose
            } else if miso_device_fault(
                data@,
                CommandType::ReadWriteAutoCleaningInterval.spec_code(),
            ) {
                e == Error::<E, F>::StatusError
            } else {
                e == Error::<E, F>::InvalidRespose
            }),
        }),
{
    match check_miso_frame::<E, F>(data, CommandType::ReadWriteAutoCleaningInterval) {
        Ok(_) => {
            if data[3] != 0 {
                return Err(Error::InvalidRespose);
            }
            Ok(())
        },
        Err(e) => Err(e),
    }
}

/// Decodes a device-information response: validated against the
/// device-information command, its data bytes returned in a fixed 32-byte
/// buffer, zero-filled past the reported length. A reported length over 32
/// does not fit the buffer and yields an empty result.
pub fn decode_device_info<E, F>(data: &[u8]) -> (r: Result<[u8; 32], Error<E, F>>)
    ensures
        (match r {
            Ok(buf) => miso_ok(data@, CommandType::DeviceInformation.spec_code()) && data@[3] <= 32
                && (forall|i: int|
                0 <= i < 32 ==> buf@[i] == (if i < data@[3] {
                    data@[4 + i]
                } else {
                    0u8
                })),
            Err(e) => (if miso_ok(data@, CommandType::DeviceInformation.spec_code()) {
                data@[3] > 32 && e == Error::<E, F>::EmptyResult
            } else if miso_device_fault(data@, CommandType::DeviceInformation.spec_code()) {
                e == Error::<E, F>::StatusError
            } else {
                e == Error::<E, F>::InvalidRespose
            }),
        }),
{
    match check_miso_frame::<E, F>(data, CommandType::DeviceInformation) {
        Ok(_) => {
            let n = data[3];
            if n < 33 {
                let mut buf: [u8; 32] = [0; 32];
                let mut i: usize = 0;
                while i < n as usize
                    invariant
                        i <= n <= 32,
                        data@.len() >= 5,
                        data@[3] == n,
                        data@.len() - 5 == n,
                        forall|j: int| 0 <= j < i ==> buf@[j] == data@[4 + j],
                        forall|j: int| i <= j < 32 ==> buf@[j] == 0u8,
                    decreases n as usize - i,
                {
                    buf[i] = data[4 + i];
                    i += 1;
                }
                Ok(buf)
            } else {
                Err(Error::EmptyResult)
            }
        },
        Err(e) => Err(e),
    }
}

} // verus!
