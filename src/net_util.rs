//! Wire codec: big-endian integers, byte copies and the 16-bit word checksum
//! that IP, ICMP and UDP share.

use vstd::prelude::*;

verus! {

/// The value of two bytes read in network (big-endian) order.
pub open spec fn be16(hi: u8, lo: u8) -> u16 {
    (hi as int * 256 + lo as int) as u16
}

/// The value of four bytes read in network (big-endian) order.
pub open spec fn be32(a: u8, b: u8, c: u8, d: u8) -> u32 {
    (a as int * 0x100_0000 + b as int * 0x1_0000 + c as int * 0x100 + d as int) as u32
}

/// The two bytes of `x`, most significant first.
pub open spec fn u16_be(x: u16) -> Seq<u8> {
    seq![(x / 256) as u8, (x % 256) as u8]
}

/// The four bytes of `x`, most significant first.
pub open spec fn u32_be(x: u32) -> Seq<u8> {
    seq![
        (x / 0x100_0000) as u8,
        ((x / 0x1_0000) % 256) as u8,
        ((x / 0x100) % 256) as u8,
        (x % 256) as u8,
    ]
}

/// `x` with its two bytes swapped.
pub open spec fn swap16(x: u16) -> u16 {
    ((x % 256) * 256 + x / 256) as u16
}

/// `x` with its four bytes in reverse order.
pub open spec fn swap32(x: u32) -> u32 {
    ((x % 256) * 0x100_0000 + ((x / 0x100) % 256) * 0x1_0000 + ((x / 0x1_0000) % 256) * 0x100
        + x / 0x100_0000) as u32
}

/// Sum of `d` read as big-endian 16-bit words; an odd last byte is the high
/// byte of a word whose low byte is zero.
pub open spec fn word_sum(d: Seq<u8>) -> nat
    decreases d.len(),
{
    if d.len() == 0 {
        0
    } else if d.len() == 1 {
        (d[0] as nat) * 256
    } else {
        be16(d[0], d[1]) as nat + word_sum(d.subrange(2, d.len() as int))
    }
}

/// Folds the carry of a 32-bit word sum into its low 16 bits once, then
/// complements the low 16 bits (XOR with 0xffff).
pub open spec fn fold_complement(sum: nat) -> u16 {
    (0xffff - ((sum % 0x1_0000 + sum / 0x1_0000) % 0x1_0000)) as u16
}

/// The checksum of IP, ICMP and UDP over the bytes `d`.
pub open spec fn checksum_of(d: Seq<u8>) -> u16 {
    fold_complement(word_sum(d))
}

/// Whether every byte of `s` is zero (the unset address).
pub open spec fn is_zero(s: Seq<u8>) -> bool {
    forall|k: int| 0 <= k < s.len() ==> s[k] == 0
}

/// Longest byte run whose word sum is certain to fit in 32 bits.
pub const MAX_CHECKSUM_LEN: usize = 131070;

/// Swaps the byte order of a 32-bit value (0xee11ff22 becomes 0x22ff11ee).
pub fn switch_endian32(src: u32) -> (r: u32)
    ensures
        r == swap32(src),
{
    let r = (src >> 24) & 0x0000_00ff | (src << 8) & 0x00ff_0000 | (src >> 8) & 0x0000_ff00 | (src
        << 24) & 0xff00_0000;
    assert(r == ((src % 256) * 0x100_0000 + ((src / 0x100) % 256) * 0x1_0000 + ((src / 0x1_0000)
        % 256) * 0x100 + src / 0x100_0000) as u32) by (bit_vector)
        requires
            r == (src >> 24) & 0x0000_00ff | (src << 8) & 0x00ff_0000 | (src >> 8) & 0x0000_ff00
                | (src << 24) & 0xff00_0000,
    ;
    r
}

/// Swaps the two bytes of a 16-bit value (0xff22 becomes 0x22ff).
pub fn switch_endian16(src: u16) -> (r: u16)
    ensures
        r == swap16(src),
{
    let r = src << 8 | src >> 8;
    assert(r == ((src % 256) * 256 + src / 256) as u16) by (bit_vector)
        requires
            r == src << 8 | src >> 8,
    ;
    r
}

/// Reads the big-endian 16-bit value at `buf[i]`, `buf[i + 1]`.
pub fn read_u16_be(buf: &[u8], i: usize) -> (r: u16)
    requires
        i + 1 < buf@.len(),
    ensures
        r == be16(buf@[i as int], buf@[i + 1]),
{
    (buf[i] as u16) * 256 + buf[i + 1] as u16
}

/// Reads the big-endian 32-bit value at `buf[i..i + 4]`.
pub fn read_u32_be(buf: &[u8], i: usize) -> (r: u32)
    requires
        i + 3 < buf@.len(),
    ensures
        r == be32(buf@[i as int], buf@[i + 1], buf@[i + 2], buf@[i + 3]),
{
    (buf[i] as u32) * 0x100_0000 + (buf[i + 1] as u32) * 0x1_0000 + (buf[i + 2] as u32) * 0x100
        + buf[i + 3] as u32
}

/// Appends the two bytes of `x`, most significant first.
pub fn push_u16_be(v: &mut Vec<u8>, x: u16)
    ensures
        final(v)@ == old(v)@ + u16_be(x),
{
    v.push((x / 256) as u8);
    v.push((x % 256) as u8);
    assert(final(v)@ =~= old(v)@ + u16_be(x));
}

/// Appends the four bytes of `x`, most significant first.
pub fn push_u32_be(v: &mut Vec<u8>, x: u32)
    ensures
        final(v)@ == old(v)@ + u32_be(x),
{
    v.push((x / 0x100_0000) as u8);
    v.push(((x / 0x1_0000) % 256) as u8);
    v.push(((x / 0x100) % 256) as u8);
    v.push((x % 256) as u8);
    assert(final(v)@ =~= old(v)@ + u32_be(x));
}

/// Appends every byte of `s`.
pub fn push_bytes(v: &mut Vec<u8>, s: &[u8])
    ensures
        final(v)@ == old(v)@ + s@,
{
    let ghost start = v@;
    let mut i: usize = 0;
    while i < s.len()
        invariant
            i <= s@.len(),
            v@ == start + s@.subrange(0, i as int),
        decreases s@.len() - i,
    {
        v.push(s[i]);
        i = i + 1;
        assert(v@ =~= start + s@.subrange(0, i as int));
    }
    assert(s@.subrange(0, s@.len() as int) =~= s@);
}

/// A fresh vector holding `buf[start..]`.
pub fn copy_from(buf: &[u8], start: usize) -> (r: Vec<u8>)
    requires
        start <= buf@.len(),
    ensures
        r@ == buf@.subrange(start as int, buf@.len() as int),
{
    let mut r: Vec<u8> = Vec::new();
    let mut i: usize = start;
    while i < buf.len()
        invariant
            start <= i <= buf@.len(),
            r@ == buf@.subrange(start as int, i as int),
        decreases buf@.len() - i,
    {
        r.push(buf[i]);
        i = i + 1;
        assert(r@ =~= buf@.subrange(start as int, i as int));
    }
    r
}

/// A fresh vector holding the bytes of `s`.
pub fn bytes_of(s: &[u8]) -> (r: Vec<u8>)
    ensures
        r@ == s@,
{
    let r = copy_from(s, 0);
    assert(s@.subrange(0, s@.len() as int) =~= s@);
    r
}

/// `n` zero bytes.
pub fn zeros(n: usize) -> (r: Vec<u8>)
    ensures
        r@ == Seq::new(n as nat, |i: int| 0u8),
{
    let mut r: Vec<u8> = Vec::new();
    let mut i: usize = 0;
    while i < n
        invariant
            i <= n,
            r@ == Seq::new(i as nat, |j: int| 0u8),
        decreases n - i,
    {
        r.push(0u8);
        i = i + 1;
        assert(r@ =~= Seq::new(i as nat, |j: int| 0u8));
    }
    r
}

/// Reading back the bytes of a 16-bit value gives the value.
pub proof fn lemma_u16_round_trip(x: u16)
    ensures
        be16(u16_be(x)[0], u16_be(x)[1]) == x,
{
}

/// Reading back the bytes of a 32-bit value gives the value.
pub proof fn lemma_u32_round_trip(x: u32)
    ensures
        be32(u32_be(x)[0], u32_be(x)[1], u32_be(x)[2], u32_be(x)[3]) == x,
{
}

/// Each pair of bytes adds at most 0xffff to the word sum.
pub proof fn lemma_word_sum_bound(d: Seq<u8>)
    ensures
        2 * word_sum(d) <= 0xffff * (d.len() + 1),
    decreases d.len(),
{
    if d.len() >= 2 {
        lemma_word_sum_bound(d.subrange(2, d.len() as int));
    }
}

/// The word sum of two runs, the first of even length, is the sum of their
/// word sums.
pub proof fn lemma_word_sum_concat(a: Seq<u8>, b: Seq<u8>)
    requires
        a.len() % 2 == 0,
    ensures
        word_sum(a + b) == word_sum(a) + word_sum(b),
    decreases a.len(),
{
    if a.len() >= 2 {
        assert((a + b).subrange(2, (a + b).len() as int) =~= a.subrange(2, a.len() as int) + b);
        lemma_word_sum_concat(a.subrange(2, a.len() as int), b);
    } else {
        assert(a + b =~= b);
    }
}

/// Sums `d` as big-endian 16-bit words, folds the carry once and complements
/// the result.
pub fn checksum(d: &[u8]) -> (r: u16)
    requires
        d@.len() <= MAX_CHECKSUM_LEN,
    ensures
        r == checksum_of(d@),
{
    proof {
        lemma_word_sum_bound(d@);
    }
    let mut sum: u32 = 0;
    let mut i: usize = 0;
    assert(d@.subrange(0, d@.len() as int) =~= d@);
    while i < d.len()
        invariant
            i <= d@.len() <= MAX_CHECKSUM_LEN,
            sum + word_sum(d@.subrange(i as int, d@.len() as int)) == word_sum(d@),
            2 * word_sum(d@) <= 0xffff * (d@.len() + 1),
        decreases d@.len() - i,
    {
        let ghost rest = d@.subrange(i as int, d@.len() as int);
        if i + 1 < d.len() {
            assert(rest.subrange(2, rest.len() as int) =~= d@.subrange(i + 2, d@.len() as int));
            sum = sum + read_u16_be(d, i) as u32;
            i = i + 2;
        } else {
            sum = sum + (d[i] as u32) * 256;
            i = i + 1;
            assert(d@.subrange(i as int, d@.len() as int) =~= Seq::<u8>::empty());
        }
    }
    let bottom: u32 = sum % 0x1_0000;
    let upper: u32 = sum / 0x1_0000;
    (0xffff - (bottom + upper) % 0x1_0000) as u16
}

/// Whether two byte runs hold the same bytes.
pub fn bytes_equal(a: &[u8], b: &[u8]) -> (r: bool)
    ensures
        r == (a@ == b@),
{
    if a.len() != b.len() {
        return false;
    }
    let mut i: usize = 0;
    while i < a.len()
        invariant
            i <= a@.len() == b@.len(),
            a@.subrange(0, i as int) == b@.subrange(0, i as int),
        decreases a@.len() - i,
    {
        if a[i] != b[i] {
            assert(a@.subrange(0, i + 1)[i as int] != b@.subrange(0, i + 1)[i as int]);
            assert(a@ != b@) by {
                if a@ == b@ {
                    assert(a@[i as int] == b@[i as int]);
                }
            }
            return false;
        }
        i = i + 1;
        assert(a@.subrange(0, i as int) =~= b@.subrange(0, i as int)) by {
            assert forall|k: int| 0 <= k < i implies a@[k] == b@[k] by {
                if k < i - 1 {
                    assert(a@.subrange(0, i - 1)[k] == b@.subrange(0, i - 1)[k]);
                }
            }
        }
    }
    assert(a@ =~= b@) by {
        assert(a@.subrange(0, i as int) =~= a@);
        assert(b@.subrange(0, i as int) =~= b@);
    }
    true
}

/// Whether every byte of `a` is zero.
pub fn all_zero(a: &[u8]) -> (r: bool)
    ensures
        r == is_zero(a@),
{
    let mut i: usize = 0;
    while i < a.len()
        invariant
            i <= a@.len(),
            forall|k: int| 0 <= k < i ==> a@[k] == 0,
        decreases a@.len() - i,
    {
        if a[i] != 0 {
            return false;
        }
        i = i + 1;
    }
    true
}

/// The six bytes `buf[i..i + 6]` as a hardware address.
pub fn mac_at(buf: &[u8], i: usize) -> (r: [u8; 6])
    requires
        i + 6 <= buf@.len(),
    ensures
        r@ == buf@.subrange(i as int, i + 6),
{
    let r = [buf[i], buf[i + 1], buf[i + 2], buf[i + 3], buf[i + 4], buf[i + 5]];
    assert(r@ =~= buf@.subrange(i as int, i + 6));
    r
}

/// The four bytes `buf[i..i + 4]` as a protocol address.
pub fn ip_at(buf: &[u8], i: usize) -> (r: [u8; 4])
    requires
        i + 4 <= buf@.len(),
    ensures
        r@ == buf@.subrange(i as int, i + 4),
{
    let r = [buf[i], buf[i + 1], buf[i + 2], buf[i + 3]];
    assert(r@ =~= buf@.subrange(i as int, i + 4));
    r
}

} // verus!
