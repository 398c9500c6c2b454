//! The SHDLC byte-stuffing layer, consumed as an external collaborator.
//!
//! A payload travels on the wire between two frame-end bytes; the four
//! reserved byte values are escaped inside it. The exact stuffing and
//! de-stuffing rules are written down here as spec functions, the calls into
//! the codec are trusted against them, and the round-trip law (de-framing a
//! framed payload gives the payload back) is proved from the spec functions
//! alone.

use vstd::prelude::*;

use crate::errors::HdlcError;

verus! {

/// Frame END: delimits a frame on the wire.
pub const FEND: u8 = 0x7E;
/// Frame ESCape: opens a two-byte escape pair.
pub const FESC: u8 = 0x7D;
/// Trade byte standing for an escaped `FEND`.
pub const TFEND: u8 = 0x5E;
/// Trade byte standing for an escaped `FESC`.
pub const TFESC: u8 = 0x5D;
/// First reserved data byte (XON), escaped on the wire.
pub const OB1: u8 = 0x11;
/// Trade byte standing for an escaped `OB1`.
pub const TFOB1: u8 = 0x31;
/// Second reserved data byte (XOFF), escaped on the wire.
pub const OB2: u8 = 0x13;
/// Trade byte standing for an escaped `OB2`.
pub const TFOB2: u8 = 0x33;

/// Payload bytes the codec escapes.
pub open spec fn escapes(b: u8) -> bool {
    b == FESC || b == FEND || b == OB1 || b == OB2
}

/// The trade byte that stands for an escaped byte.
pub open spec fn trade_of(b: u8) -> u8 {
    if b == FESC {
        TFESC
    } else if b == FEND {
        TFEND
    } else if b == OB1 {
        TFOB1
    } else {
        TFOB2
    }
}

/// The wire form of one payload byte.
pub open spec fn escape(b: u8) -> Seq<u8> {
    if escapes(b) {
        seq![FESC, trade_of(b)]
    } else {
        seq![b]
    }
}

/// Byte-stuffing of a whole payload.
pub open spec fn stuff(s: Seq<u8>) -> Seq<u8>
    decreases s.len(),
{
    if s.len() == 0 {
        Seq::empty()
    } else {
        escape(s[0]) + stuff(s.skip(1))
    }
}

/// The framed wire form of a payload: stuffed, between two frame-end bytes.
pub open spec fn spec_hdlc_encode(s: Seq<u8>) -> Seq<u8> {
    seq![FEND] + stuff(s) + seq![FEND]
}

/// The trade bytes a frame escape may be followed by.
pub open spec fn is_trade(t: u8) -> bool {
    t == TFEND || t == TFESC || t == TFOB1 || t == TFOB2
}

/// The payload byte a trade byte stands for.
pub open spec fn unescape_of(t: u8) -> u8 {
    if t == TFEND {
        FEND
    } else if t == TFESC {
        FESC
    } else if t == TFOB1 {
        OB1
    } else {
        OB2
    }
}

/// De-stuffing of the bytes between the two frame-end delimiters, scanning
/// left to right and reporting the first fault.
pub open spec fn unstuff(s: Seq<u8>) -> Result<Seq<u8>, HdlcError>
    decreases s.len(),
{
    if s.len() == 0 {
        Ok(Seq::empty())
    } else if s[0] == FESC {
        if s.len() >= 2 && is_trade(s[1]) {
            match unstuff(s.skip(2)) {
                Ok(rest) => Ok(seq![unescape_of(s[1])] + rest),
                Err(e) => Err(e),
            }
        } else {
            Err(HdlcError::MissingTradeChar)
        }
    } else if s[0] == FEND {
        Err(HdlcError::FendCharInData)
    } else {
        match unstuff(s.skip(1)) {
            Ok(rest) => Ok(seq![s[0]] + rest),
            Err(e) => Err(e),
        }
    }
}

/// What the codec makes of a captured wire stream: the stream must be 4 to
/// 1000 bytes, open and close with a frame-end byte, de-stuff cleanly, and
/// yield at most 260 payload bytes.
pub open spec fn spec_hdlc_decode(input: Seq<u8>) -> Result<Seq<u8>, HdlcError> {
    if input.len() < 4 {
        Err(HdlcError::TooFewData)
    } else if input.len() > 1000 {
        Err(HdlcError::TooMuchData)
    } else if input[0] != FEND {
        Err(HdlcError::MissingFirstFend)
    } else if input[input.len() - 1] != FEND {
        Err(HdlcError::MissingFinalFend)
    } else {
        match unstuff(input.subrange(1, input.len() - 1)) {
            Ok(out) => if out.len() > 260 {
                Err(HdlcError::TooMuchDecodedData)
            } else {
                Ok(out)
            },
            Err(e) => Err(e),
        }
    }
}

/// Relies on `sensirion_hdlc::encode` with the codec's default special
/// characters: a payload of at most 260 bytes is always accepted, and comes
/// back byte-stuffed between two frame-end bytes.
#[verifier::external_body]
pub(crate) fn hdlc_encode(data: &[u8]) -> (r: Vec<u8>)
    requires
        data@.len() <= 260,
    ensures
        r@ == spec_hdlc_encode(data@),
{
    let encoded = sensirion_hdlc::encode(data, sensirion_hdlc::SpecialChars::default()).unwrap();
    encoded.as_slice().to_vec()
}

/// Relies on `sensirion_hdlc::decode` with the codec's default special
/// characters: it checks the stream's length and delimiters, de-stuffs the
/// bytes between them, and reports the first fault it meets.
#[verifier::external_body]
pub(crate) fn hdlc_decode(input: &[u8]) -> (r: Result<Vec<u8>, HdlcError>)
    ensures
        (match r {
            Ok(v) => spec_hdlc_decode(input@) matches Ok(s) && s == v@,
            Err(e) => spec_hdlc_decode(input@) matches Err(f) && f == e,
        }),
{
    match sensirion_hdlc::decode(input, sensirion_hdlc::SpecialChars::default()) {
        Ok(v) => Ok(v.as_slice().to_vec()),
        Err(sensirion_hdlc::HDLCError::DuplicateSpecialChar) => Err(HdlcError::DuplicateSpecialChar),
        Err(sensirion_hdlc::HDLCError::FendCharInData) => Err(HdlcError::FendCharInData),
        Err(sensirion_hdlc::HDLCError::MissingTradeChar) => Err(HdlcError::MissingTradeChar),
        Err(sensirion_hdlc::HDLCError::MissingFirstFend) => Err(HdlcError::MissingFirstFend),
        Err(sensirion_hdlc::HDLCError::MissingFinalFend) => Err(HdlcError::MissingFinalFend),
        Err(sensirion_hdlc::HDLCError::TooMuchData) => Err(HdlcError::TooMuchData),
        Err(sensirion_hdlc::HDLCError::TooFewData) => Err(HdlcError::TooFewData),
        Err(sensirion_hdlc::HDLCError::InvalidChecksum) => Err(HdlcError::InvalidChecksum),
        Err(sensirion_hdlc::HDLCError::TooMuchDecodedData) => Err(HdlcError::TooMuchDecodedData),
    }
}

/// Stuffing at most doubles a payload and never shrinks it.
pub proof fn lemma_stuff_len(s: Seq<u8>)
    ensures
        s.len() <= stuff(s).len() <= 2 * s.len(),
    decreases s.len(),
{
    if s.len() > 0 {
        lemma_stuff_len(s.skip(1));
    }
}

/// A cleanly de-stuffed stream is at most twice its payload.
pub proof fn lemma_unstuff_ok_len(s: Seq<u8>)
    ensures
        unstuff(s) matches Ok(o) ==> o.len() <= s.len() <= 2 * o.len(),
    decreases s.len(),
{
    if s.len() == 0 {
    } else if s[0] == FESC {
        if s.len() >= 2 && is_trade(s[1]) {
            lemma_unstuff_ok_len(s.skip(2));
        }
    } else if s[0] == FEND {
    } else {
        lemma_unstuff_ok_len(s.skip(1));
    }
}

/// De-stuffing undoes stuffing exactly.
pub proof fn lemma_unstuff_stuff(s: Seq<u8>)
    ensures
        unstuff(stuff(s)) == Ok::<Seq<u8>, HdlcError>(s),
    decreases s.len(),
{
    if s.len() == 0 {
        assert(s =~= Seq::<u8>::empty());
    } else {
        lemma_unstuff_stuff(s.skip(1));
        let e = escape(s[0]);
        let rest = stuff(s.skip(1));
        if escapes(s[0]) {
            assert((e + rest)[0] == FESC);
            assert((e + rest)[1] == trade_of(s[0]));
            assert((e + rest).skip(2) =~= rest);
            assert(unescape_of(trade_of(s[0])) == s[0]);
            assert(seq![s[0]] + s.skip(1) =~= s);
        } else {
            assert((e + rest)[0] == s[0]);
            assert((e + rest).skip(1) =~= rest);
            assert(seq![s[0]] + s.skip(1) =~= s);
        }
    }
}

/// Law: framing a payload and de-framing the stream gives the payload back,
/// for every payload of 2 to 260 bytes. (A shorter payload may stuff to a
/// stream under the codec's four-byte floor.)
pub proof fn lemma_hdlc_round_trip(s: Seq<u8>)
    requires
        2 <= s.len() <= 260,
    ensures
        spec_hdlc_decode(spec_hdlc_encode(s)) == Ok::<Seq<u8>, HdlcError>(s),
{
    lemma_stuff_len(s);
    lemma_unstuff_stuff(s);
    let enc = spec_hdlc_encode(s);
    assert(enc.len() == stuff(s).len() + 2);
    assert(enc[0] == FEND);
    assert(enc[enc.len() - 1] == FEND);
    assert(enc.subrange(1, enc.len() - 1) =~= stuff(s));
}

} // verus!
