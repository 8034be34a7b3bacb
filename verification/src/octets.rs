//! Big-endian octet encoding of the fixed-width integers used by the wire
//! format: 16-, 24- and 32-bit unsigned values.

use vstd::prelude::*;

verus! {

/// The bytes of `v` in big-endian order, most significant first.
pub open spec fn enc16(v: u16) -> Seq<u8> {
    seq![(v / 0x100) as u8, (v % 0x100) as u8]
}

/// The three bytes of a 24-bit value in big-endian order.
pub open spec fn enc24(v: u32) -> Seq<u8>
    recommends
        v < 0x100_0000,
{
    seq![(v / 0x1_0000) as u8, ((v / 0x100) % 0x100) as u8, (v % 0x100) as u8]
}

/// The four bytes of `v` in big-endian order.
pub open spec fn enc32(v: u32) -> Seq<u8> {
    seq![
        (v / 0x100_0000) as u8,
        ((v / 0x1_0000) % 0x100) as u8,
        ((v / 0x100) % 0x100) as u8,
        (v % 0x100) as u8,
    ]
}

/// The value of two big-endian bytes.
pub open spec fn dec16(s: Seq<u8>) -> int
    recommends
        s.len() == 2,
{
    s[0] * 0x100 + s[1]
}

/// The value of three big-endian bytes.
pub open spec fn dec24(s: Seq<u8>) -> int
    recommends
        s.len() == 3,
{
    s[0] * 0x1_0000 + s[1] * 0x100 + s[2]
}

/// The value of four big-endian bytes.
pub open spec fn dec32(s: Seq<u8>) -> int
    recommends
        s.len() == 4,
{
    s[0] * 0x100_0000 + s[1] * 0x1_0000 + s[2] * 0x100 + s[3]
}

/// Decoding the big-endian bytes of a 16-bit value gives the value back.
pub proof fn lemma_enc16_dec(v: u16)
    ensures
        dec16(enc16(v)) == v,
{
    assert((v / 0x100) * 0x100 + v % 0x100 == v) by (bit_vector);
}

/// Decoding the big-endian bytes of a 24-bit value gives the value back.
pub proof fn lemma_enc24_dec(v: u32)
    requires
        v < 0x100_0000,
    ensures
        dec24(enc24(v)) == v,
{
    assert((v / 0x1_0000) * 0x1_0000 + ((v / 0x100) % 0x100) * 0x100 + v % 0x100 == v
        && v / 0x1_0000 < 0x100) by (bit_vector)
        requires
            v < 0x100_0000,
    ;
}

/// Decoding the big-endian bytes of a 32-bit value gives the value back.
pub proof fn lemma_enc32_dec(v: u32)
    ensures
        dec32(enc32(v)) == v,
{
    assert((v / 0x100_0000) * 0x100_0000 + ((v / 0x1_0000) % 0x100) * 0x1_0000 + ((v / 0x100)
        % 0x100) * 0x100 + v % 0x100 == v) by (bit_vector);
}

/// Append the two big-endian bytes of `v`.
pub fn put_u16(dst: &mut Vec<u8>, v: u16)
    ensures
        final(dst)@ == old(dst)@ + enc16(v),
{
    dst.push((v / 0x100) as u8);
    dst.push((v % 0x100) as u8);
    assert(dst@ =~= old(dst)@ + enc16(v));
}

/// Append the three big-endian bytes of the 24-bit value `v`.
pub fn put_u24(dst: &mut Vec<u8>, v: u32)
    requires
        v < 0x100_0000,
    ensures
        final(dst)@ == old(dst)@ + enc24(v),
{
    dst.push((v / 0x1_0000) as u8);
    dst.push(((v / 0x100) % 0x100) as u8);
    dst.push((v % 0x100) as u8);
    assert(dst@ =~= old(dst)@ + enc24(v));
}

/// Append the four big-endian bytes of `v`.
pub fn put_u32(dst: &mut Vec<u8>, v: u32)
    ensures
        final(dst)@ == old(dst)@ + enc32(v),
{
    dst.push((v / 0x100_0000) as u8);
    dst.push(((v / 0x1_0000) % 0x100) as u8);
    dst.push(((v / 0x100) % 0x100) as u8);
    dst.push((v % 0x100) as u8);
    assert(dst@ =~= old(dst)@ + enc32(v));
}

/// Append every byte of `src`.
pub fn put_bytes(dst: &mut Vec<u8>, src: &Vec<u8>)
    ensures
        final(dst)@ == old(dst)@ + src@,
{
    let ghost dst0 = dst@;
    let mut i: usize = 0;
    while i < src.len()
        invariant
            i <= src@.len(),
            dst@ == dst0 + src@.take(i as int),
        decreases src@.len() - i,
    {
        dst.push(src[i]);
        assert(dst@ =~= dst0 + src@.take(i + 1));
        i = i + 1;
    }
    assert(dst@ =~= dst0 + src@);
}

/// Read two big-endian bytes starting at `pos`.
pub fn get_u16(b: &[u8], pos: usize) -> (r: u16)
    requires
        pos + 2 <= b@.len(),
    ensures
        r == dec16(b@.subrange(pos as int, pos + 2)),
{
    let r: u16 = (b[pos] as u16) * 0x100 + (b[pos + 1] as u16);
    proof {
        let s = b@.subrange(pos as int, pos + 2);
        assert(s[0] == b@[pos as int] && s[1] == b@[pos + 1]);
    }
    r
}

/// Read three big-endian bytes starting at `pos`.
pub fn get_u24(b: &[u8], pos: usize) -> (r: u32)
    requires
        pos + 3 <= b@.len(),
    ensures
        r == dec24(b@.subrange(pos as int, pos + 3)),
        r < 0x100_0000,
{
    let r: u32 = (b[pos] as u32) * 0x1_0000 + (b[pos + 1] as u32) * 0x100 + (b[pos + 2] as u32);
    proof {
        let s = b@.subrange(pos as int, pos + 3);
        assert(s[0] == b@[pos as int] && s[1] == b@[pos + 1] && s[2] == b@[pos + 2]);
    }
    r
}

/// Read four big-endian bytes starting at `pos`.
pub fn get_u32(b: &[u8], pos: usize) -> (r: u32)
    requires
        pos + 4 <= b@.len(),
    ensures
        r == dec32(b@.subrange(pos as int, pos + 4)),
{
    let r: u32 = (b[pos] as u32) * 0x100_0000 + (b[pos + 1] as u32) * 0x1_0000 + (b[pos
        + 2] as u32) * 0x100 + (b[pos + 3] as u32);
    proof {
        let s = b@.subrange(pos as int, pos + 4);
        assert(s[0] == b@[pos as int] && s[1] == b@[pos + 1] && s[2] == b@[pos + 2]);
        assert(s[3] == b@[pos + 3]);
    }
    r
}

} // verus!
