use sps30::{compute_cksum, DeviceInfo, Error, HdlcError, SerialPort, Sps30};

/// Builds the wire stream of one response frame: header, data, checksum,
/// all passed through the real SHDLC codec.
fn response_stream(cmd: u8, state: u8, data: &[u8]) -> Vec<u8> {
    let mut payload = vec![0x00, cmd, state, data.len() as u8];
    payload.extend_from_slice(data);
    payload.push(compute_cksum(&payload));
    sensirion_hdlc::encode(&payload, sensirion_hdlc::SpecialChars::default())
        .unwrap()
        .as_slice()
        .to_vec()
}

/// A scripted serial port: replays `rx` byte by byte (then zeros), and
/// records everything written.
struct Mock {
    rx: Vec<u8>,
    pos: usize,
    written: Vec<u8>,
    fail_write: bool,
    fail_read: bool,
}

impl Mock {
    fn with_rx(rx: Vec<u8>) -> Mock {
        Mock { rx, pos: 0, written: Vec::new(), fail_write: false, fail_read: false }
    }
}

impl SerialPort for Mock {
    type WriteError = u8;
    type ReadError = u8;

    fn write_all(&mut self, data: &[u8]) -> Result<(), u8> {
        if self.fail_write {
            return Err(7);
        }
        self.written.extend_from_slice(data);
        Ok(())
    }

    fn read_byte(&mut self) -> Result<u8, u8> {
        if self.fail_read {
            return Err(9);
        }
        if self.pos < self.rx.len() {
            let b = self.rx[self.pos];
            self.pos += 1;
            Ok(b)
        } else {
            Ok(0x00)
        }
    }
}

#[test]
fn start_measurement_acknowledged() {
    let mut dev = Sps30::new(Mock::with_rx(response_stream(0x00, 0, &[])));
    assert_eq!(dev.start_measurement(), Ok(()));
}

#[test]
fn stop_measurement_acknowledged() {
    let mut dev = Sps30::new(Mock::with_rx(response_stream(0x01, 0, &[])));
    assert_eq!(dev.stop_measurement(), Ok(()));
}

#[test]
fn start_fan_cleaning_acknowledged() {
    let mut dev = Sps30::new(Mock::with_rx(response_stream(0x56, 0, &[])));
    assert_eq!(dev.start_fan_cleaning(), Ok(()));
}

#[test]
fn reset_acknowledged() {
    let mut dev = Sps30::new(Mock::with_rx(response_stream(0xD3, 0, &[])));
    assert_eq!(dev.reset(), Ok(()));
}

#[test]
fn measurement_decodes_ieee754_words() {
    let mut data = [0u8; 40];
    // First reading: 1.0f32, big endian.
    data[0] = 0x3F;
    data[1] = 0x80;
    let mut dev = Sps30::new(Mock::with_rx(response_stream(0x03, 0, &data)));
    let bits = dev.read_measurement().unwrap();
    assert_eq!(bits[0], 0x3F80_0000);
    assert_eq!(f32::from_bits(bits[0]), 1.0);
    for i in 1..10 {
        assert_eq!(f32::from_bits(bits[i]), 0.0);
    }
}

#[test]
fn measurement_not_ready_is_empty_result() {
    let mut dev = Sps30::new(Mock::with_rx(response_stream(0x03, 0, &[])));
    assert_eq!(dev.read_measurement(), Err(Error::EmptyResult));
}

#[test]
fn measurement_of_unexpected_length_is_invalid_frame() {
    let mut dev = Sps30::new(Mock::with_rx(response_stream(0x03, 0, &[0xAA])));
    assert_eq!(dev.read_measurement(), Err(Error::InvalidFrame));
}

#[test]
fn cleaning_interval_with_escaped_bytes_round_trips() {
    // Every data byte is one the codec must escape on the wire.
    let mut dev = Sps30::new(Mock::with_rx(response_stream(0x80, 0, &[0x11, 0x7E, 0x13, 0x7D])));
    assert_eq!(dev.read_cleaning_interval(), Ok(0x117E_137D));
}

#[test]
fn cleaning_interval_of_wrong_width_is_invalid() {
    let mut dev = Sps30::new(Mock::with_rx(response_stream(0x80, 0, &[0x00, 0x09])));
    assert_eq!(dev.read_cleaning_interval(), Err(Error::InvalidRespose));
}

#[test]
fn write_cleaning_interval_stuffs_reserved_bytes() {
    let mut dev = Sps30::new(Mock::with_rx(response_stream(0x80, 0, &[])));
    assert_eq!(dev.write_cleaning_interval(0x117E_137D), Ok(()));
    let expected = [
        0x7E, 0x00, 0x80, 0x05, 0x00, 0x7D, 0x31, 0x7D, 0x5E, 0x7D, 0x33, 0x7D, 0x5D, 0x5B,
        0x7E,
    ];
    assert_eq!(dev.into_serial().written, expected);
}

#[test]
fn write_ack_with_data_is_invalid() {
    let mut dev = Sps30::new(Mock::with_rx(response_stream(0x80, 0, &[0x01])));
    assert_eq!(dev.write_cleaning_interval(60), Err(Error::InvalidRespose));
}

/// Echoes each written cleaning interval back on the next read request.
struct EchoDevice {
    rx: Vec<u8>,
    pos: usize,
    interval: [u8; 4],
}

impl SerialPort for EchoDevice {
    type WriteError = u8;
    type ReadError = u8;

    fn write_all(&mut self, data: &[u8]) -> Result<(), u8> {
        let payload =
            sensirion_hdlc::decode(data, sensirion_hdlc::SpecialChars::default()).unwrap();
        match payload[1] {
            0x80 if payload[2] == 5 => {
                // Write request: keep the four value bytes, acknowledge.
                self.interval.copy_from_slice(&payload[4..8]);
                self.rx.extend(response_stream(0x80, 0, &[]));
            }
            0x80 => {
                // Read request: answer with the stored value.
                let interval = self.interval;
                self.rx.extend(response_stream(0x80, 0, &interval));
            }
            _ => return Err(1),
        }
        Ok(())
    }

    fn read_byte(&mut self) -> Result<u8, u8> {
        if self.pos < self.rx.len() {
            let b = self.rx[self.pos];
            self.pos += 1;
            Ok(b)
        } else {
            Ok(0x00)
        }
    }
}

#[test]
fn cleaning_interval_echo_round_trip() {
    let echo = EchoDevice { rx: Vec::new(), pos: 0, interval: [0; 4] };
    let mut dev = Sps30::new(echo);
    assert_eq!(dev.write_cleaning_interval(604800), Ok(()));
    assert_eq!(dev.read_cleaning_interval(), Ok(604800));
}

#[test]
fn device_info_returns_zero_filled_buffer() {
    let mut dev = Sps30::new(Mock::with_rx(response_stream(0xD0, 0, b"SPS30")));
    let buf = dev.device_info(DeviceInfo::ProductName).unwrap();
    assert_eq!(&buf[..5], b"SPS30");
    assert_eq!(buf[5..], [0u8; 27]);
}

#[test]
fn device_info_of_zero_length_is_all_zeros() {
    let mut dev = Sps30::new(Mock::with_rx(response_stream(0xD0, 0, &[])));
    assert_eq!(dev.device_info(DeviceInfo::SerialNumber), Ok([0u8; 32]));
}

#[test]
fn device_info_over_capacity_is_empty_result() {
    let mut dev = Sps30::new(Mock::with_rx(response_stream(0xD0, 0, &[0x41; 33])));
    assert_eq!(dev.device_info(DeviceInfo::ArticleCode), Err(Error::EmptyResult));
}

#[test]
fn stream_without_two_delimiters_fails_within_600_bytes() {
    // The scripted bytes run out and the mock then yields zeros forever:
    // the read must still stop with an invalid frame.
    let mut dev = Sps30::new(Mock::with_rx(vec![0x7E, 0x01, 0x02]));
    assert_eq!(dev.start_measurement(), Err(Error::InvalidFrame));
}

#[test]
fn corrupted_checksum_is_rejected() {
    let mut stream = response_stream(0x00, 0, &[]);
    let n = stream.len();
    stream[n - 2] ^= 0x01;  // Flip a bit of the checksum byte.
    let mut dev = Sps30::new(Mock::with_rx(stream));
    assert_eq!(dev.start_measurement(), Err(Error::ChecksumFailed));
}

#[test]
fn bad_escape_sequence_is_a_framing_error() {
    // A frame escape followed by a byte that is no trade character.
    let mut dev = Sps30::new(Mock::with_rx(vec![0x7E, 0x7D, 0x01, 0x00, 0x7E]));
    assert_eq!(
        dev.start_measurement(),
        Err(Error::SHDLC(HdlcError::MissingTradeChar))
    );
}

#[test]
fn response_for_another_command_is_invalid() {
    let mut dev = Sps30::new(Mock::with_rx(response_stream(0xD3, 0, &[])));
    assert_eq!(dev.start_measurement(), Err(Error::InvalidRespose));
}

#[test]
fn device_reported_state_is_status_error() {
    let mut dev = Sps30::new(Mock::with_rx(response_stream(0x00, 0x43, &[])));
    assert_eq!(dev.start_measurement(), Err(Error::StatusError));
}

#[test]
fn write_fault_is_serial_write_error() {
    let mut mock = Mock::with_rx(Vec::new());
    mock.fail_write = true;
    let mut dev = Sps30::new(mock);
    assert_eq!(dev.reset(), Err(Error::SerialW(7)));
}

#[test]
fn read_fault_is_serial_read_error() {
    let mut mock = Mock::with_rx(Vec::new());
    mock.fail_read = true;
    let mut dev = Sps30::new(mock);
    assert_eq!(dev.reset(), Err(Error::SerialR(9)));
}
