//! Error-detection codes of the command protocol.
//!
//! Two codes are in use: an eight-bit code that is processed least significant
//! bit first (polynomial 0x8C, the reflected form of 0x31) and a sixteen-bit
//! code that is processed most significant bit first (polynomial 0x1021).
//! Both start from a register of zero.

use vstd::prelude::*;

verus! {

/// One shift of the eight-bit register: the register moves right by one bit
/// and the polynomial is folded in when the bit that left was set.
pub open spec fn crc8_shift(reg: u8) -> u8 {
    if reg & 0x01 != 0 {
        (reg >> 1) ^ 0x8C
    } else {
        reg >> 1
    }
}

/// `n` shifts of the eight-bit register.
pub open spec fn crc8_rounds(reg: u8, n: nat) -> u8
    decreases n,
{
    if n == 0 {
        reg
    } else {
        crc8_shift(crc8_rounds(reg, (n - 1) as nat))
    }
}

/// The register after one more byte: the byte is folded into the register,
/// which is then shifted eight times.
pub open spec fn crc8_absorb(reg: u8, byte: u8) -> u8 {
    crc8_rounds(reg ^ byte, 8)
}

/// The eight-bit code of a byte sequence.
pub open spec fn crc8_maxim(data: Seq<u8>) -> u8
    decreases data.len(),
{
    if data.len() == 0 {
        0
    } else {
        crc8_absorb(crc8_maxim(data.drop_last()), data.last())
    }
}

/// Computes the eight-bit code of `data`.
pub fn calc_crc8_maxim(data: &[u8]) -> (crc: u8)
    ensures
        crc == crc8_maxim(data@),
{
    let mut crc: u8 = 0x00;
    let mut i: usize = 0;
    while i < data.len()
        invariant
            i <= data.len(),
            crc == crc8_maxim(data@.take(i as int)),
        decreases data.len() - i,
    {
        let ghost before = crc;
        crc = crc ^ data[i];
        let mut round: u8 = 0;
        while round < 8
            invariant
                round <= 8,
                crc == crc8_rounds(before ^ data@[i as int], round as nat),
            decreases 8 - round,
        {
            if (crc & 0x01) != 0x00 {
                crc = (crc >> 1) ^ 0x8C;
            } else {
                crc = crc >> 1;
            }
            round = round + 1;
        }
        proof {
            let next = data@.take(i + 1);
            assert(next.drop_last() =~= data@.take(i as int));
            assert(next.last() == data@[i as int]);
        }
        i = i + 1;
    }
    proof {
        assert(data@.take(data@.len() as int) =~= data@);
    }
    crc
}

/// One shift of the sixteen-bit register: the register moves left by one bit
/// and the polynomial is folded in when the bit that left was set.
pub open spec fn crc16_shift(reg: u16) -> u16 {
    if reg & 0x8000 != 0 {
        (reg << 1) ^ 0x1021
    } else {
        reg << 1
    }
}

/// `n` shifts of the sixteen-bit register.
pub open spec fn crc16_rounds(reg: u16, n: nat) -> u16
    decreases n,
{
    if n == 0 {
        reg
    } else {
        crc16_shift(crc16_rounds(reg, (n - 1) as nat))
    }
}

/// The register after one more byte: the byte is folded into the high half of
/// the register, which is then shifted eight times.
pub open spec fn crc16_absorb(reg: u16, byte: u8) -> u16 {
    crc16_rounds(reg ^ ((byte as u16) << 8), 8)
}

/// The sixteen-bit code of a byte sequence.
pub open spec fn crc16_ccitt(data: Seq<u8>) -> u16
    decreases data.len(),
{
    if data.len() == 0 {
        0
    } else {
        crc16_absorb(crc16_ccitt(data.drop_last()), data.last())
    }
}

/// Computes the sixteen-bit code of `data`.
pub fn calc_crc16_ccitt(data: &[u8]) -> (crc: u16)
    ensures
        crc == crc16_ccitt(data@),
{
    let mut crc: u16 = 0x0000;
    let mut i: usize = 0;
    while i < data.len()
        invariant
            i <= data.len(),
            crc == crc16_ccitt(data@.take(i as int)),
        decreases data.len() - i,
    {
        let ghost before = crc;
        crc = crc ^ ((data[i] as u16) << 8);
        let mut round: u8 = 0;
        while round < 8
            invariant
                round <= 8,
                crc == crc16_rounds(before ^ ((data@[i as int] as u16) << 8), round as nat),
            decreases 8 - round,
        {
            if (crc & 0x8000) != 0x0000 {
                crc = (crc << 1) ^ 0x1021;
            } else {
                crc = crc << 1;
            }
            round = round + 1;
        }
        proof {
            let next = data@.take(i + 1);
            assert(next.drop_last() =~= data@.take(i as int));
            assert(next.last() == data@[i as int]);
        }
        i = i + 1;
    }
    proof {
        assert(data@.take(data@.len() as int) =~= data@);
    }
    crc
}

/// The error-detection codes that the protocol knows. Which one a command
/// carries is decided per command kind.
#[derive(Clone, Copy, Debug, PartialEq, Eq, Structural)]
pub enum ChecksumAlgorithm {
    /// The eight-bit code, least significant bit first.
    Crc8Maxim,
    /// The sixteen-bit code, most significant bit first.
    Crc16Ccitt,
}

/// The code of `data` under `algorithm`, as a number. The eight-bit code
/// fills the low byte only.
pub open spec fn checksum_of(algorithm: ChecksumAlgorithm, data: Seq<u8>) -> u16 {
    match algorithm {
        ChecksumAlgorithm::Crc8Maxim => crc8_maxim(data) as u16,
        ChecksumAlgorithm::Crc16Ccitt => crc16_ccitt(data),
    }
}

/// Computes the code of `payload` under `algorithm`.
pub fn compute(algorithm: ChecksumAlgorithm, payload: &[u8]) -> (value: u16)
    ensures
        value == checksum_of(algorithm, payload@),
        algorithm == ChecksumAlgorithm::Crc8Maxim ==> value <= 0xFF,
{
    match algorithm {
        ChecksumAlgorithm::Crc8Maxim => calc_crc8_maxim(payload) as u16,
        ChecksumAlgorithm::Crc16Ccitt => calc_crc16_ccitt(payload),
    }
}

proof fn lemma_crc8_rounds_injective(x: u8, y: u8, n: nat)
    requires
        x != y,
    ensures
        crc8_rounds(x, n) != crc8_rounds(y, n),
    decreases n,
{
    if n > 0 {
        lemma_crc8_rounds_injective(x, y, (n - 1) as nat);
        let p = crc8_rounds(x, (n - 1) as nat);
        let q = crc8_rounds(y, (n - 1) as nat);
        assert(p != q ==> crc8_shift(p) != crc8_shift(q)) by (bit_vector);
    }
}

proof fn lemma_crc8_rounds_zero(n: nat)
    ensures
        crc8_rounds(0, n) == 0,
    decreases n,
{
    if n > 0 {
        lemma_crc8_rounds_zero((n - 1) as nat);
        assert(crc8_shift(0u8) == 0u8) by (bit_vector);
    }
}

proof fn lemma_crc16_rounds_injective(x: u16, y: u16, n: nat)
    requires
        x != y,
    ensures
        crc16_rounds(x, n) != crc16_rounds(y, n),
    decreases n,
{
    if n > 0 {
        lemma_crc16_rounds_injective(x, y, (n - 1) as nat);
        let p = crc16_rounds(x, (n - 1) as nat);
        let q = crc16_rounds(y, (n - 1) as nat);
        assert(p != q ==> crc16_shift(p) != crc16_shift(q)) by (bit_vector);
    }
}

proof fn lemma_crc16_rounds_zero(n: nat)
    ensures
        crc16_rounds(0, n) == 0,
    decreases n,
{
    if n > 0 {
        lemma_crc16_rounds_zero((n - 1) as nat);
        assert(crc16_shift(0u16) == 0u16) by (bit_vector);
    }
}

/// Two byte sequences of one length that differ in exactly one position.
pub open spec fn differ_in_one_byte(a: Seq<u8>, b: Seq<u8>, k: int) -> bool {
    &&& a.len() == b.len()
    &&& 0 <= k < a.len()
    &&& a[k] != b[k]
    &&& forall|i: int| 0 <= i < a.len() && i != k ==> a[i] == b[i]
}

/// The eight-bit code tells apart any two payloads of one length that differ
/// in a single byte, and so in particular in a single bit.
pub proof fn crc8_detects_single_byte_change(a: Seq<u8>, b: Seq<u8>, k: int)
    requires
        differ_in_one_byte(a, b, k),
    ensures
        crc8_maxim(a) != crc8_maxim(b),
    decreases a.len(),
{
    let ca = crc8_maxim(a.drop_last());
    let cb = crc8_maxim(b.drop_last());
    let x = a.last();
    let y = b.last();
    if k == a.len() - 1 {
        assert(a.drop_last() =~= b.drop_last());
        assert(x != y ==> ca ^ x != ca ^ y) by (bit_vector);
    } else {
        crc8_detects_single_byte_change(a.drop_last(), b.drop_last(), k);
        assert(ca != cb ==> ca ^ x != cb ^ x) by (bit_vector);
    }
    lemma_crc8_rounds_injective(ca ^ x, cb ^ y, 8);
}

/// The sixteen-bit code tells apart any two payloads of one length that
/// differ in a single byte, and so in particular in a single bit.
pub proof fn crc16_detects_single_byte_change(a: Seq<u8>, b: Seq<u8>, k: int)
    requires
        differ_in_one_byte(a, b, k),
    ensures
        crc16_ccitt(a) != crc16_ccitt(b),
    decreases a.len(),
{
    let ca = crc16_ccitt(a.drop_last());
    let cb = crc16_ccitt(b.drop_last());
    let x = a.last();
    let y = b.last();
    if k == a.len() - 1 {
        assert(a.drop_last() =~= b.drop_last());
        assert(x != y ==> ca ^ ((x as u16) << 8) != ca ^ ((y as u16) << 8)) by (bit_vector);
    } else {
        crc16_detects_single_byte_change(a.drop_last(), b.drop_last(), k);
        assert(ca != cb ==> ca ^ ((x as u16) << 8) != cb ^ ((x as u16) << 8)) by (bit_vector);
    }
    lemma_crc16_rounds_injective(ca ^ ((x as u16) << 8), cb ^ ((y as u16) << 8), 8);
}

/// The code is a function of the bytes and of nothing else: payloads with the
/// same bytes have the same code, however often and wherever it is computed.
pub proof fn checksum_is_repeatable(algorithm: ChecksumAlgorithm, a: Seq<u8>, b: Seq<u8>)
    requires
        a.len() == b.len(),
        forall|i: int| 0 <= i < a.len() ==> a[i] == b[i],
    ensures
        checksum_of(algorithm, a) == checksum_of(algorithm, b),
{
    assert(a =~= b);
}

/// A payload of zero bytes, of any length, has the code zero under either
/// algorithm.
pub proof fn checksum_of_zeros(algorithm: ChecksumAlgorithm, data: Seq<u8>)
    requires
        forall|i: int| 0 <= i < data.len() ==> data[i] == 0,
    ensures
        checksum_of(algorithm, data) == 0,
    decreases data.len(),
{
    if data.len() > 0 {
        checksum_of_zeros(algorithm, data.drop_last());
        lemma_crc8_rounds_zero(8);
        lemma_crc16_rounds_zero(8);
        assert(0u8 ^ 0u8 == 0u8) by (bit_vector);
        assert(0u16 ^ ((0u8 as u16) << 8) == 0u16) by (bit_vector);
    }
}

} // verus!
