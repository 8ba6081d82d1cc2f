//! 15-bit packet error code (PEC) of the LTC681X family.
//!
//! Every command and every register block on the wire carries a two byte
//! checksum computed over the payload bytes. The code is a 15-bit CRC with
//! seed `0x0010` and polynomial `0x4599`, consuming one input bit per
//! shift-XOR iteration. The 15-bit remainder is packed into two bytes with
//! the low bit of the second byte forced to zero.
use vstd::prelude::*;

verus! {

/// Initial remainder of the checksum.
pub const PEC_SEED: u16 = 0x0010;

/// Polynomial of the 15-bit CRC.
pub const PEC_POLY: u16 = 0x4599;

/// One shift-XOR iteration: folds a single data bit (`0` or `1`) into the
/// 15-bit remainder.
pub open spec fn spec_pec_bit(rem: u16, bit: u8) -> u16 {
    let din = (bit & 1) as u16;
    let in0 = din ^ ((rem >> 14) & 1);
    if in0 == 1 {
        ((rem << 1) & 0x7fff) ^ PEC_POLY
    } else {
        (rem << 1) & 0x7fff
    }
}

/// Folds one input byte into the remainder, most significant bit first.
pub open spec fn spec_pec_byte(rem: u16, byte: u8) -> u16 {
    let r7 = spec_pec_bit(rem, (byte >> 7) & 1);
    let r6 = spec_pec_bit(r7, (byte >> 6) & 1);
    let r5 = spec_pec_bit(r6, (byte >> 5) & 1);
    let r4 = spec_pec_bit(r5, (byte >> 4) & 1);
    let r3 = spec_pec_bit(r4, (byte >> 3) & 1);
    let r2 = spec_pec_bit(r3, (byte >> 2) & 1);
    let r1 = spec_pec_bit(r2, (byte >> 1) & 1);
    spec_pec_bit(r1, byte & 1)
}

/// Remainder after folding all bytes of `data` into the seed, in order.
pub open spec fn spec_pec_remainder(data: Seq<u8>) -> u16
    decreases data.len(),
{
    if data.len() == 0 {
        PEC_SEED
    } else {
        spec_pec_byte(spec_pec_remainder(data.drop_last()), data.last())
    }
}

/// The two checksum bytes of `data`: the remainder shifted so that the low
/// bit of the second byte is always zero.
pub open spec fn spec_pec15(data: Seq<u8>) -> Seq<u8> {
    let rem = spec_pec_remainder(data);
    seq![(rem >> 7) as u8, (rem << 1) as u8]
}

/// 15-bit packet error code over a byte payload.
pub struct PEC15 {}

impl PEC15 {
    /// Computes the two checksum bytes over `data`.
    ///
    /// The same bytes always yield the same checksum, since the result
    /// equals the mathematical function `spec_pec15` of the byte sequence.
    pub fn calc(data: &[u8]) -> (r: [u8; 2])
        ensures
            r@ == spec_pec15(data@),
    {
        let mut rem: u16 = PEC_SEED;
        let mut i: usize = 0;
        while i < data.len()
            invariant
                0 <= i <= data@.len(),
                rem == spec_pec_remainder(data@.take(i as int)),
            decreases data@.len() - i,
        {
            rem = pec_fold_byte(rem, data[i]);
            i = i + 1;
            proof {
                assert(data@.take(i as int).drop_last() =~= data@.take(i - 1));
                assert(data@.take(i as int).last() == data@[i - 1]);
            }
        }
        proof {
            assert(data@.take(data@.len() as int) =~= data@);
        }
        let r: [u8; 2] = [(rem >> 7) as u8, (rem << 1) as u8];
        proof {
            assert(r@ =~= spec_pec15(data@));
        }
        r
    }
}

/// Folds one byte into the running remainder, most significant bit first.
fn pec_fold_byte(rem: u16, byte: u8) -> (r: u16)
    ensures
        r == spec_pec_byte(rem, byte),
{
    let r7 = pec_fold_bit(rem, (byte >> 7) & 1);
    let r6 = pec_fold_bit(r7, (byte >> 6) & 1);
    let r5 = pec_fold_bit(r6, (byte >> 5) & 1);
    let r4 = pec_fold_bit(r5, (byte >> 4) & 1);
    let r3 = pec_fold_bit(r4, (byte >> 3) & 1);
    let r2 = pec_fold_bit(r3, (byte >> 2) & 1);
    let r1 = pec_fold_bit(r2, (byte >> 1) & 1);
    pec_fold_bit(r1, byte & 1)
}

/// One shift-XOR iteration of the CRC.
fn pec_fold_bit(rem: u16, bit: u8) -> (r: u16)
    ensures
        r == spec_pec_bit(rem, bit),
{
    let din: u16 = (bit & 1) as u16;
    let in0: u16 = din ^ ((rem >> 14) & 1);
    if in0 == 1 {
        ((rem << 1) & 0x7fff) ^ PEC_POLY
    } else {
        (rem << 1) & 0x7fff
    }
}

/// The checksum is a function of the covered bytes alone: identical payloads
/// always carry identical checksum bytes.
pub proof fn lemma_pec15_deterministic(a: Seq<u8>, b: Seq<u8>)
    requires
        a == b,
    ensures
        spec_pec15(a) == spec_pec15(b),
{
}

} // verus!
