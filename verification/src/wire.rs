use vstd::prelude::*;

verus! {

/// Little-endian bytes of a 32-bit unsigned integer.
pub open spec fn le_u32(x: u32) -> Seq<u8> {
    seq![
        (x & 0xff) as u8,
        ((x >> 8) & 0xff) as u8,
        ((x >> 16) & 0xff) as u8,
        ((x >> 24) & 0xff) as u8,
    ]
}

/// Little-endian bytes of a 64-bit unsigned integer.
pub open spec fn le_u64(x: u64) -> Seq<u8> {
    seq![
        (x & 0xff) as u8,
        ((x >> 8) & 0xff) as u8,
        ((x >> 16) & 0xff) as u8,
        ((x >> 24) & 0xff) as u8,
        ((x >> 32) & 0xff) as u8,
        ((x >> 40) & 0xff) as u8,
        ((x >> 48) & 0xff) as u8,
        ((x >> 56) & 0xff) as u8,
    ]
}

/// The 32-bit unsigned integer whose little-endian bytes are the first four of `s`.
pub open spec fn from_le_u32(s: Seq<u8>) -> u32
    recommends
        s.len() >= 4,
{
    (s[0] as u32) | (s[1] as u32) << 8 | (s[2] as u32) << 16 | (s[3] as u32) << 24
}

/// The 64-bit unsigned integer whose little-endian bytes are the first eight of `s`.
pub open spec fn from_le_u64(s: Seq<u8>) -> u64
    recommends
        s.len() >= 8,
{
    (s[0] as u64) | (s[1] as u64) << 8 | (s[2] as u64) << 16 | (s[3] as u64) << 24 | (s[4] as u64)
        << 32 | (s[5] as u64) << 40 | (s[6] as u64) << 48 | (s[7] as u64) << 56
}

/// Decoding undoes encoding of a 32-bit integer.
pub proof fn lemma_le_u32_value(x: u32)
    ensures
        le_u32(x).len() == 4,
        from_le_u32(le_u32(x)) == x,
{
    let b0 = (x & 0xff) as u8;
    let b1 = ((x >> 8) & 0xff) as u8;
    let b2 = ((x >> 16) & 0xff) as u8;
    let b3 = ((x >> 24) & 0xff) as u8;
    assert(x == ((x & 0xff) as u8 as u32) | (((x >> 8) & 0xff) as u8 as u32) << 8 | (((x >> 16)
        & 0xff) as u8 as u32) << 16 | (((x >> 24) & 0xff) as u8 as u32) << 24) by (bit_vector);
}

/// Encoding undoes decoding of four bytes.
pub proof fn lemma_le_u32_bytes(s: Seq<u8>)
    requires
        s.len() == 4,
    ensures
        le_u32(from_le_u32(s)) == s,
{
    let x = from_le_u32(s);
    let s0 = s[0];
    let s1 = s[1];
    let s2 = s[2];
    let s3 = s[3];
    assert(x == (s0 as u32) | (s1 as u32) << 8 | (s2 as u32) << 16 | (s3 as u32) << 24 ==> s0 == (x
        & 0xff) as u8 && s1 == ((x >> 8) & 0xff) as u8 && s2 == ((x >> 16) & 0xff) as u8 && s3 == ((
    x >> 24) & 0xff) as u8) by (bit_vector);
    assert(le_u32(x) =~= s);
}

/// Decoding undoes encoding of a 64-bit integer.
pub proof fn lemma_le_u64_value(x: u64)
    ensures
        le_u64(x).len() == 8,
        from_le_u64(le_u64(x)) == x,
{
    assert(x == ((x & 0xff) as u8 as u64) | (((x >> 8) & 0xff) as u8 as u64) << 8 | (((x >> 16)
        & 0xff) as u8 as u64) << 16 | (((x >> 24) & 0xff) as u8 as u64) << 24 | (((x >> 32) & 0xff) as u8 as u64)
        << 32 | (((x >> 40) & 0xff) as u8 as u64) << 40 | (((x >> 48) & 0xff) as u8 as u64) << 48 | (((x
        >> 56) & 0xff) as u8 as u64) << 56) by (bit_vector);
}

/// Encoding undoes decoding of eight bytes.
pub proof fn lemma_le_u64_bytes(s: Seq<u8>)
    requires
        s.len() == 8,
    ensures
        le_u64(from_le_u64(s)) == s,
{
    let x = from_le_u64(s);
    let s0 = s[0];
    let s1 = s[1];
    let s2 = s[2];
    let s3 = s[3];
    let s4 = s[4];
    let s5 = s[5];
    let s6 = s[6];
    let s7 = s[7];
    assert(x == (s0 as u64) | (s1 as u64) << 8 | (s2 as u64) << 16 | (s3 as u64) << 24 | (s4 as u64)
        << 32 | (s5 as u64) << 40 | (s6 as u64) << 48 | (s7 as u64) << 56 ==> s0 == (x & 0xff) as u8
        && s1 == ((x >> 8) & 0xff) as u8 && s2 == ((x >> 16) & 0xff) as u8 && s3 == ((x >> 24)
        & 0xff) as u8 && s4 == ((x >> 32) & 0xff) as u8 && s5 == ((x >> 40) & 0xff) as u8 && s6 == ((
    x >> 48) & 0xff) as u8 && s7 == ((x >> 56) & 0xff) as u8) by (bit_vector);
    assert(le_u64(x) =~= s);
}

/// Appends the little-endian bytes of `x` to `buf`.
pub fn push_le_u32(buf: &mut Vec<u8>, x: u32)
    ensures
        final(buf)@ == old(buf)@ + le_u32(x),
{
    buf.push((x & 0xff) as u8);
    buf.push(((x >> 8) & 0xff) as u8);
    buf.push(((x >> 16) & 0xff) as u8);
    buf.push(((x >> 24) & 0xff) as u8);
    assert(buf@ =~= old(buf)@ + le_u32(x));
}

/// Appends the little-endian bytes of `x` to `buf`.
pub fn push_le_u64(buf: &mut Vec<u8>, x: u64)
    ensures
        final(buf)@ == old(buf)@ + le_u64(x),
{
    buf.push((x & 0xff) as u8);
    buf.push(((x >> 8) & 0xff) as u8);
    buf.push(((x >> 16) & 0xff) as u8);
    buf.push(((x >> 24) & 0xff) as u8);
    buf.push(((x >> 32) & 0xff) as u8);
    buf.push(((x >> 40) & 0xff) as u8);
    buf.push(((x >> 48) & 0xff) as u8);
    buf.push(((x >> 56) & 0xff) as u8);
    assert(buf@ =~= old(buf)@ + le_u64(x));
}

/// Reads a little-endian 32-bit integer from the four bytes of `data` that start at `at`.
pub fn read_le_u32(data: &Vec<u8>, at: usize) -> (x: u32)
    requires
        at + 4 <= data.len(),
    ensures
        x == from_le_u32(data@.subrange(at as int, at + 4)),
{
    let b0: u32 = data[at] as u32;
    let b1: u32 = data[at + 1] as u32;
    let b2: u32 = data[at + 2] as u32;
    let b3: u32 = data[at + 3] as u32;
    b0 | b1 << 8 | b2 << 16 | b3 << 24
}

/// Reads a little-endian 64-bit integer from the eight bytes of `data` that start at `at`.
pub fn read_le_u64(data: &Vec<u8>, at: usize) -> (x: u64)
    requires
        at + 8 <= data.len(),
    ensures
        x == from_le_u64(data@.subrange(at as int, at + 8)),
{
    let b0: u64 = data[at] as u64;
    let b1: u64 = data[at + 1] as u64;
    let b2: u64 = data[at + 2] as u64;
    let b3: u64 = data[at + 3] as u64;
    let b4: u64 = data[at + 4] as u64;
    let b5: u64 = data[at + 5] as u64;
    let b6: u64 = data[at + 6] as u64;
    let b7: u64 = data[at + 7] as u64;
    b0 | b1 << 8 | b2 << 16 | b3 << 24 | b4 << 32 | b5 << 40 | b6 << 48 | b7 << 56
}

/// A fresh vector holding the same bytes.
pub fn copy_bytes(v: &Vec<u8>) -> (c: Vec<u8>)
    ensures
        c@ == v@,
{
    let mut c: Vec<u8> = Vec::new();
    let mut i: usize = 0;
    while i < v.len()
        invariant
            i <= v.len(),
            c@ == v@.subrange(0, i as int),
        decreases v.len() - i,
    {
        c.push(v[i]);
        i = i + 1;
    }
    assert(v@.subrange(0, v.len() as int) == v@);
    c
}

} // verus!
