//! Frame construction and interpretation.
//!
//! A request frame is `[address = 0, command, data length, data…, checksum]`.
//! A response frame, once de-framed by the codec, is
//! `[address, command, state, data length, data…, checksum]`: at least five
//! bytes, state 0 on success, and a data-length field that must equal the
//! byte count between the header and the trailing checksum byte.

use vstd::prelude::*;

use crate::checksum::{compute_cksum, spec_cksum};
use crate::commands::CommandType;
use crate::errors::Error;

verus! {

/// A request frame for `cmd` carrying `data`: address 0, the command code,
/// the data length, the data, and the checksum over everything before it.
pub open spec fn spec_mosi_frame(cmd: u8, data: Seq<u8>) -> Seq<u8>
    recommends
        data.len() <= 255,
{
    let prefix = seq![0u8, cmd, data.len() as u8] + data;
    prefix.push(spec_cksum(prefix))
}

/// Builds the request frame for `cmd` carrying `data`.
pub fn build_mosi_frame(cmd: u8, data: &[u8]) -> (r: Vec<u8>)
    requires
        data@.len() <= 255,
    ensures
        r@ == spec_mosi_frame(cmd, data@),
        r@.len() == data@.len() + 4,
{
    let mut out: Vec<u8> = Vec::new();
    out.push(0);
    out.push(cmd);
    out.push(data.len() as u8);
    let mut i: usize = 0;
    while i < data.len()
        invariant
            i <= data@.len() <= 255,
            out@ == seq![0u8, cmd, data@.len() as u8] + data@.take(i as int),
        decreases data.len() - i,
    {
        let b = data[i];
        out.push(b);
        proof {
            assert(data@.take(i + 1) =~= data@.take(i as int).push(data@[i as int]));
            assert(out@ =~= seq![0u8, cmd, data@.len() as u8] + data@.take(i + 1));
        }
        i += 1;
    }
    proof {
        assert(data@.take(data@.len() as int) =~= data@);
    }
    let ck = compute_cksum(out.as_slice());
    out.push(ck);
    out
}

/// Law: every request frame ends in the checksum of the bytes before it, so
/// the receive-side checksum comparison accepts it.
pub proof fn lemma_mosi_frame_checksum(cmd: u8, data: Seq<u8>)
    requires
        data.len() <= 255,
    ensures
        spec_mosi_frame(cmd, data).len() == data.len() + 4,
        spec_mosi_frame(cmd, data).last() == spec_cksum(spec_mosi_frame(cmd, data).drop_last()),
{
    let prefix = seq![0u8, cmd, data.len() as u8] + data;
    assert(prefix.push(spec_cksum(prefix)).drop_last() =~= prefix);
}

/// A structurally valid response to `cmd`: long enough, echoing the command
/// code, reporting state 0, with a data-length field that accounts for every
/// byte between the header and the trailing checksum byte.
pub open spec fn miso_ok(data: Seq<u8>, cmd: u8) -> bool {
    &&& data.len() >= 5
    &&& data[1] == cmd
    &&& data[2] == 0
    &&& data[3] as int == data.len() - 5
}

/// A response to `cmd` in which the device itself reports a fault: the state
/// byte is not zero.
pub open spec fn miso_device_fault(data: Seq<u8>, cmd: u8) -> bool {
    &&& data.len() >= 5
    &&& data[1] == cmd
    &&& data[2] != 0
}

/// Validates a de-framed response against the command that was sent:
/// length at least 5, command code echoed, state 0, data-length field
/// consistent — in that order, so a device-reported fault is surfaced only
/// on a response whose first two bytes check out.
pub fn check_miso_frame<E, F>(data: &[u8], cmd_type: CommandType) -> (r: Result<
    (),
    Error<E, F>,
>)
    ensures
        (match r {
            Ok(_) => miso_ok(data@, cmd_type.spec_code()),
            Err(e) => !miso_ok(data@, cmd_type.spec_code()) && (if miso_device_fault(
                data@,
                cmd_type.spec_code(),
            ) {
                e == Error::<E, F>::StatusError
            } else {
                e == Error::<E, F>::InvalidRespose
            }),
        }),
{
    if data.len() < 5 {
        return Err(Error::InvalidRespose);
    }
    if data[1] != cmd_type.code() {
        return Err(Error::InvalidRespose);
    }
    if data[2] != 0 {
        return Err(Error::StatusError);
    }
    if data[3] as usize != data.len() - 5 {
        return Err(Error::InvalidRespose);
    }
    Ok(())
}

/// The unsigned 32-bit value held by four bytes, most significant first.
pub open spec fn spec_u32_from_be(s: Seq<u8>) -> u32
    recommends
        s.len() == 4,
{
    (s[0] * 0x100_0000 + s[1] * 0x1_0000 + s[2] * 0x100 + s[3]) as u32
}

/// The four big-endian bytes of an unsigned 32-bit value.
pub open spec fn spec_u32_to_be(v: u32) -> Seq<u8> {
    seq![
        (v / 0x100_0000) as u8,
        ((v / 0x1_0000) % 0x100) as u8,
        ((v / 0x100) % 0x100) as u8,
        (v % 0x100) as u8,
    ]
}

/// Reads four bytes, most significant first, as an unsigned 32-bit value.
pub fn u32_from_be(b: &[u8]) -> (r: u32)
    requires
        b@.len() == 4,
    ensures
        r == spec_u32_from_be(b@),
{
    (b[0] as u32) * 0x100_0000 + (b[1] as u32) * 0x1_0000 + (b[2] as u32) * 0x100 + (b[3] as u32)
}

/// Writes an unsigned 32-bit value as four bytes, most significant first.
pub fn u32_to_be(v: u32) -> (r: [u8; 4])
    ensures
        r@ == spec_u32_to_be(v),
{
    let r = [
        (v / 0x100_0000) as u8,
        ((v / 0x1_0000) % 0x100) as u8,
        ((v / 0x100) % 0x100) as u8,
        (v % 0x100) as u8,
    ];
    proof {
        assert(r@ =~= spec_u32_to_be(v));
    }
    r
}

/// Law: the four big-endian bytes of a value read back as that value.
pub proof fn lemma_u32_be_round_trip(v: u32)
    ensures
        spec_u32_from_be(spec_u32_to_be(v)) == v,
{
    assert((v / 0x100_0000) * 0x100_0000 + ((v / 0x1_0000) % 0x100) * 0x1_0000 + ((v / 0x100)
        % 0x100) * 0x100 + (v % 0x100) == v) by (bit_vector);
}

} // verus!
