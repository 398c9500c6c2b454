//! Frame checksum: the one-byte complement of the byte sum modulo 256.

use vstd::prelude::*;

verus! {

/// Sum of a byte sequence, as an unbounded natural number.
pub open spec fn sum_bytes(s: Seq<u8>) -> nat
    decreases s.len(),
{
    if s.len() == 0 {
        0
    } else {
        sum_bytes(s.drop_last()) + (s.last() as nat)
    }
}

/// The checksum over a byte sequence: `255 - (sum mod 256)`.
pub open spec fn spec_cksum(s: Seq<u8>) -> u8 {
    (255 - (sum_bytes(s) % 256)) as u8
}

/// Extending a sequence by one byte adds that byte to the sum.
pub proof fn lemma_sum_bytes_push(s: Seq<u8>, b: u8)
    ensures
        sum_bytes(s.push(b)) == sum_bytes(s) + b,
{
    assert(s.push(b).drop_last() =~= s);
    assert(s.push(b).last() == b);
}

/// Law: appending the checksum to a sequence and recomputing a checksum over
/// the bytes before it reproduces the same value.
pub proof fn lemma_cksum_of_prefix(s: Seq<u8>)
    ensures
        spec_cksum(s.push(spec_cksum(s)).drop_last()) == spec_cksum(s),
{
    assert(s.push(spec_cksum(s)).drop_last() =~= s);
}

/// Compute the frame checksum over `data`.
pub fn compute_cksum(data: &[u8]) -> (r: u8)
    ensures
        r == spec_cksum(data@),
{
    let mut cksum: u8 = 0;
    let mut i: usize = 0;
    while i < data.len()
        invariant
            i <= data.len(),
            cksum == sum_bytes(data@.take(i as int)) % 256,
        decreases data.len() - i,
    {
        let val: u16 = cksum as u16 + data[i] as u16;
        let lsb = val % 256;
        proof {
            assert(data@.take(i + 1) =~= data@.take(i as int).push(data@[i as int]));
            lemma_sum_bytes_push(data@.take(i as int), data@[i as int]);
            assert((sum_bytes(data@.take(i as int)) % 256 + data@[i as int]) % 256
                == (sum_bytes(data@.take(i as int)) + data@[i as int]) % 256) by {
                vstd::arithmetic::div_mod::lemma_add_mod_noop(
                    sum_bytes(data@.take(i as int)) as int,
                    data@[i as int] as int,
                    256,
                );
                assert(sum_bytes(data@.take(i as int)) as int % 256 % 256
                    == sum_bytes(data@.take(i as int)) as int % 256);
            }
        }
        cksum = lsb as u8;
        i += 1;
    }
    proof {
        assert(data@.take(data@.len() as int) =~= data@);
    }
    255 - cksum
}

} // verus!
