//! Driver for the Sensirion SPS30 particulate-matter sensor over a serial
//! transport.
//!
//! The driver builds checksummed request frames, sends them through an
//! SHDLC byte-stuffing codec, reads back the delimited response stream,
//! validates its structure, and decodes the typed payload of each command.

pub mod checksum;
pub mod commands;
pub mod driver;
pub mod errors;
pub mod frame;
pub mod hdlc;
pub mod response;

pub use checksum::compute_cksum;
pub use commands::CommandType;
pub use commands::DeviceInfo;
pub use driver::SerialPort;
pub use driver::Sps30;
pub use errors::Error;
pub use errors::HdlcError;
pub use frame::build_mosi_frame;
pub use frame::check_miso_frame;
pub use frame::u32_from_be;
pub use frame::u32_to_be;
pub use response::decode_cleaning_interval;
pub use response::decode_device_info;
pub use response::decode_measurement;
pub use response::decode_write_interval_ack;
