//! The driver proper: one request/response exchange per operation, strictly
//! synchronous, over an abstract serial transport.

use vstd::prelude::*;

use crate::checksum::{compute_cksum, spec_cksum};
use crate::commands::{CommandType, DeviceInfo};
use crate::errors::Error;
use crate::frame::{build_mosi_frame, check_miso_frame, u32_to_be};
use crate::hdlc::{hdlc_decode, hdlc_encode, lemma_unstuff_ok_len, FEND};
use crate::response::{
    decode_cleaning_interval, decode_device_info, decode_measurement, decode_write_interval_ack,
};

verus! {

/// Max characters to read for a frame detection
pub const MAX_BUFFER: usize = 600;

/// The serial channel the sensor is reached over.
///
/// The driver is written against this trait; an implementation wraps a
/// concrete serial device. Nothing is assumed of an implementation: every
/// guarantee the driver gives holds whatever bytes the channel yields.
pub trait SerialPort {
    /// Error reported when the transport cannot accept outgoing bytes.
    type WriteError;

    /// Error reported on a hard fault while waiting for a byte.
    type ReadError;

    /// Writes all given bytes, or fails as a whole.
    fn write_all(&mut self, data: &[u8]) -> Result<(), Self::WriteError>;

    /// Reads the next byte, waiting until one arrives or the transport
    /// fails hard.
    fn read_byte(&mut self) -> Result<u8, Self::ReadError>;
}

/// Sps30 driver
#[derive(Debug, Default)]
pub struct Sps30<SERIAL> {
    /// The concrete serial device implementation.
    serial: SERIAL,
}

impl<SERIAL: SerialPort> Sps30<SERIAL> {
    /// Create new instance of the Sps30 device
    pub fn new(serial: SERIAL) -> Self {
        Sps30 { serial }
    }

    /// Tear the driver down and hand the serial device back.
    pub fn into_serial(self) -> SERIAL {
        self.serial
    }

    /// Send a request payload: frame it through the codec and write the
    /// stream out.
    fn send_uart_data(&mut self, data: &[u8]) -> Result<
        (),
        Error<SERIAL::WriteError, SERIAL::ReadError>,
    >
        requires
            data@.len() <= 260,
    {
        let encoded = hdlc_encode(data);
        match self.serial.write_all(encoded.as_slice()) {
            Ok(_) => Ok(()),
            Err(e) => Err(Error::SerialW(e)),
        }
    }

    /// Read from serial until two frame-end bytes have been seen, reading no
    /// more than 600 bytes, then de-frame the captured stream and verify its
    /// trailing checksum.
    fn read_uart_data(&mut self) -> (r: Result<
        Vec<u8>,
        Error<SERIAL::WriteError, SERIAL::ReadError>,
    >)
        ensures
            (r matches Ok(v) ==> 1 <= v@.len() <= 260 && v@.last() == spec_cksum(v@.drop_last())),
    {
        let mut output: Vec<u8> = Vec::new();
        let mut seen: usize = 0;
        while seen != 2
            invariant
                seen <= 2,
                output@.len() <= MAX_BUFFER,
            decreases MAX_BUFFER - output@.len(),
        {
            if output.len() >= MAX_BUFFER {
                return Err(Error::InvalidFrame);
            }
            match self.serial.read_byte() {
                Ok(value) => {
                    if value == FEND {
                        seen += 1;
                    }
                    output.push(value);
                },
                Err(e) => {
                    return Err(Error::SerialR(e));
                },
            }
        }
        match hdlc_decode(output.as_slice()) {
            Ok(v) => {
                proof {
                    lemma_unstuff_ok_len(output@.subrange(1, output@.len() - 1));
                }
                let last = v[v.len() - 1];
                let body = vstd::slice::slice_subrange(v.as_slice(), 0, v.len() - 1);
                if last == compute_cksum(body) {
                    proof {
                        assert(v@.drop_last() =~= v@.subrange(0, v@.len() - 1));
                    }
                    Ok(v)
                } else {
                    Err(Error::ChecksumFailed)
                }
            },
            Err(e) => Err(Error::SHDLC(e)),
        }
    }

    /// Start measuring
    pub fn start_measurement(&mut self) -> Result<
        (),
        Error<SERIAL::WriteError, SERIAL::ReadError>,
    > {
        let data: [u8; 2] = [0x01, 0x03];
        let frame = build_mosi_frame(CommandType::StartMeasurement.code(), data.as_slice());
        match self.send_uart_data(frame.as_slice()) {
            Ok(_) => {},
            Err(e) => {
                return Err(e);
            },
        }
        match self.read_uart_data() {
            Ok(response) => match check_miso_frame(
                response.as_slice(),
                CommandType::StartMeasurement,
            ) {
                Ok(_) => Ok(()),
                Err(e) => Err(e),
            },
            Err(e) => Err(e),
        }
    }

    /// Stop measuring
    pub fn stop_measurement(&mut self) -> Result<
        (),
        Error<SERIAL::WriteError, SERIAL::ReadError>,
    > {
        let frame = build_mosi_frame(CommandType::StopMeasurement.code(), &[]);
        match self.send_uart_data(frame.as_slice()) {
            Ok(_) => {},
            Err(e) => {
                return Err(e);
            },
        }
        match self.read_uart_data() {
            Ok(response) => match check_miso_frame(
                response.as_slice(),
                CommandType::StopMeasurement,
            ) {
                Ok(_) => Ok(()),
                Err(e) => Err(e),
            },
            Err(e) => Err(e),
        }
    }

    /// Read a measurement: the ten 32-bit words of the response, in device
    /// order, each the raw big-endian bit pattern of one reading.
    pub fn read_measurement(&mut self) -> Result<
        [u32; 10],
        Error<SERIAL::WriteError, SERIAL::ReadError>,
    > {
        let frame = build_mosi_frame(CommandType::ReadMeasuredData.code(), &[]);
        match self.send_uart_data(frame.as_slice()) {
            Ok(_) => {},
            Err(e) => {
                return Err(e);
            },
        }
        match self.read_uart_data() {
            Ok(response) => decode_measurement(response.as_slice()),
            Err(e) => Err(e),
        }
    }

    /// Read cleaning interval
    pub fn read_cleaning_interval(&mut self) -> Result<
        u32,
        Error<SERIAL::WriteError, SERIAL::ReadError>,
    > {
        let data: [u8; 1] = [0x00];
        let frame = build_mosi_frame(
            CommandType::ReadWriteAutoCleaningInterval.code(),
            data.as_slice(),
        );
        match self.send_uart_data(frame.as_slice()) {
            Ok(_) => {},
            Err(e) => {
                return Err(e);
            },
        }
        match self.read_uart_data() {
            Ok(response) => decode_cleaning_interval(response.as_slice()),
            Err(e) => Err(e),
        }
    }

    /// Write cleaning interval
    pub fn write_cleaning_interval(&mut self, val: u32) -> Result<
        (),
        Error<SERIAL::WriteError, SERIAL::ReadError>,
    > {
        let mut data: Vec<u8> = Vec::new();
        data.push(0x00);
        let be = u32_to_be(val);
        let mut i: usize = 0;
        while i < 4
            invariant
                i <= 4,
                data@.len() == i + 1,
            decreases 4 - i,
        {
            data.push(be[i]);
            i += 1;
        }
        let frame = build_mosi_frame(CommandType::ReadWriteAutoCleaningInterval.code(), data.as_slice());
        match self.send_uart_data(frame.as_slice()) {
            Ok(_) => {},
            Err(e) => {
                return Err(e);
            },
        }
        match self.read_uart_data() {
            Ok(response) => decode_write_interval_ack(response.as_slice()),
            Err(e) => Err(e),
        }
    }

    /// Start fan cleaning
    pub fn start_fan_cleaning(&mut self) -> Result<
        (),
        Error<SERIAL::WriteError, SERIAL::ReadError>,
    > {
        let frame = build_mosi_frame(CommandType::StartFanCleaning.code(), &[]);
        match self.send_uart_data(frame.as_slice()) {
            Ok(_) => {},
            Err(e) => {
                return Err(e);
            },
        }
        match self.read_uart_data() {
            Ok(response) => match check_miso_frame(
                response.as_slice(),
                CommandType::StartFanCleaning,
            ) {
                Ok(_) => Ok(()),
                Err(e) => Err(e),
            },
            Err(e) => Err(e),
        }
    }

    /// Get info
    ///
    /// Returns a `[u8; 32]` with the requested device-information string,
    /// zero-filled past its reported length.
    pub fn device_info(&mut self, info: DeviceInfo) -> Result<
        [u8; 32],
        Error<SERIAL::WriteError, SERIAL::ReadError>,
    > {
        let data: [u8; 1] = [info.code()];
        let frame = build_mosi_frame(CommandType::DeviceInformation.code(), data.as_slice());
        match self.send_uart_data(frame.as_slice()) {
            Ok(_) => {},
            Err(e) => {
                return Err(e);
            },
        }
        match self.read_uart_data() {
            Ok(response) => decode_device_info(response.as_slice()),
            Err(e) => Err(e),
        }
    }

    /// Reset device
    ///
    /// After calling this function, caller must sleep before issuing more
    /// commands
    pub fn reset(&mut self) -> Result<(), Error<SERIAL::WriteError, SERIAL::ReadError>> {
        let frame = build_mosi_frame(CommandType::Reset.code(), &[]);
        match self.send_uart_data(frame.as_slice()) {
            Ok(_) => {},
            Err(e) => {
                return Err(e);
            },
        }
        match self.read_uart_data() {
            Ok(response) => match check_miso_frame(response.as_slice(), CommandType::Reset) {
                Ok(_) => Ok(()),
                Err(e) => Err(e),
            },
            Err(e) => Err(e),
        }
    }
}

} // verus!
