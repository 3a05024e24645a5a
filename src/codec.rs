//! Fixed-layout byte encoding of the fields of stored records: little-endian
//! integers, 32-byte fields, one-byte tags, and optional values written as a
//! presence flag followed by the value when present. A record takes the room
//! of its largest form; what its fields leave is zero.
use vstd::prelude::*;

verus! {

/// Little-endian bytes of a `u32`.
pub open spec fn u32_le(v: u32) -> Seq<u8> {
    seq![(v & 0xff) as u8, ((v >> 8u32) & 0xff) as u8, ((v >> 16u32) & 0xff) as u8, ((v >> 24u32) & 0xff) as u8]
}

/// Little-endian bytes of a `u64`.
pub open spec fn u64_le(v: u64) -> Seq<u8> {
    seq![
        (v & 0xff) as u8,
        ((v >> 8u64) & 0xff) as u8,
        ((v >> 16u64) & 0xff) as u8,
        ((v >> 24u64) & 0xff) as u8,
        ((v >> 32u64) & 0xff) as u8,
        ((v >> 40u64) & 0xff) as u8,
        ((v >> 48u64) & 0xff) as u8,
        ((v >> 56u64) & 0xff) as u8,
    ]
}

/// The `u32` whose little-endian bytes start `s`.
pub open spec fn u32_from(s: Seq<u8>) -> u32 {
    (s[0] as u32) | ((s[1] as u32) << 8u32) | ((s[2] as u32) << 16u32) | ((s[3] as u32) << 24u32)
}

/// The `u64` whose little-endian bytes start `s`.
pub open spec fn u64_from(s: Seq<u8>) -> u64 {
    (s[0] as u64) | ((s[1] as u64) << 8u64) | ((s[2] as u64) << 16u64) | ((s[3] as u64) << 24u64)
        | ((s[4] as u64) << 32u64) | ((s[5] as u64) << 40u64) | ((s[6] as u64) << 48u64) | ((s[7] as u64) << 56u64)
}

/// Encoding of a flag.
pub open spec fn bool_byte(b: bool) -> Seq<u8> {
    seq![if b { 1u8 } else { 0u8 }]
}

/// Decoding of a flag: only 0 and 1 are flags.
pub open spec fn bool_from(b: u8) -> Option<bool> {
    if b == 0 {
        Some(false)
    } else if b == 1 {
        Some(true)
    } else {
        None
    }
}

/// Encoding of an optional `u32`: flag 1 and the value, or the flag 0 alone.
pub open spec fn opt_u32_le(o: Option<u32>) -> Seq<u8> {
    match o {
        Some(v) => seq![1u8] + u32_le(v),
        None => seq![0u8],
    }
}

/// Encoding of an optional `u64`: flag 1 and the value, or the flag 0 alone.
pub open spec fn opt_u64_le(o: Option<u64>) -> Seq<u8> {
    match o {
        Some(v) => seq![1u8] + u64_le(v),
        None => seq![0u8],
    }
}

/// `n` zero bytes.
pub open spec fn zeros(n: nat) -> Seq<u8> {
    Seq::new(n, |i: int| 0u8)
}

/// Decoding of an optional `u32` from the five bytes at its place; after the
/// flag 0 the four bytes belong to what follows.
pub open spec fn opt_u32_from(s: Seq<u8>) -> Option<Option<u32>> {
    if s[0] == 0 {
        Some(None)
    } else if s[0] == 1 {
        Some(Some(u32_from(s.subrange(1, 5))))
    } else {
        None
    }
}

/// Decoding of an optional `u64` from the nine bytes at its place; after the
/// flag 0 the eight bytes belong to what follows.
pub open spec fn opt_u64_from(s: Seq<u8>) -> Option<Option<u64>> {
    if s[0] == 0 {
        Some(None)
    } else if s[0] == 1 {
        Some(Some(u64_from(s.subrange(1, 9))))
    } else {
        None
    }
}

/// The 32-byte array holding `s`.
pub open spec fn bytes32_from(s: Seq<u8>) -> [u8; 32] {
    choose|a: [u8; 32]| a@ == s
}

/// Reading back the little-endian bytes of a `u32` gives the `u32`.
pub proof fn lemma_u32_round_trip(v: u32)
    ensures
        u32_from(u32_le(v)) == v,
        u32_le(v).len() == 4,
{
    let s = u32_le(v);
    let b0 = v & 0xff;
    let b1 = (v >> 8u32) & 0xff;
    let b2 = (v >> 16u32) & 0xff;
    let b3 = (v >> 24u32) & 0xff;
    assert(s[0] as u32 == b0 && s[1] as u32 == b1 && s[2] as u32 == b2 && s[3] as u32 == b3) by {
        assert(b0 < 256 && b1 < 256 && b2 < 256 && b3 < 256) by (bit_vector)
            requires
                b0 == v & 0xff,
                b1 == (v >> 8u32) & 0xff,
                b2 == (v >> 16u32) & 0xff,
                b3 == (v >> 24u32) & 0xff,
        ;
    }
    assert(b0 | (b1 << 8u32) | (b2 << 16u32) | (b3 << 24u32) == v) by (bit_vector)
        requires
            b0 == v & 0xff,
            b1 == (v >> 8u32) & 0xff,
            b2 == (v >> 16u32) & 0xff,
            b3 == (v >> 24u32) & 0xff,
    ;
}

/// Reading back the little-endian bytes of a `u64` gives the `u64`.
pub proof fn lemma_u64_round_trip(v: u64)
    ensures
        u64_from(u64_le(v)) == v,
        u64_le(v).len() == 8,
{
    let s = u64_le(v);
    let b0 = v & 0xff;
    let b1 = (v >> 8u64) & 0xff;
    let b2 = (v >> 16u64) & 0xff;
    let b3 = (v >> 24u64) & 0xff;
    let b4 = (v >> 32u64) & 0xff;
    let b5 = (v >> 40u64) & 0xff;
    let b6 = (v >> 48u64) & 0xff;
    let b7 = (v >> 56u64) & 0xff;
    assert(s[0] as u64 == b0 && s[1] as u64 == b1 && s[2] as u64 == b2 && s[3] as u64 == b3 && s[4] as u64 == b4
        && s[5] as u64 == b5 && s[6] as u64 == b6 && s[7] as u64 == b7) by {
        assert(b0 < 256 && b1 < 256 && b2 < 256 && b3 < 256 && b4 < 256 && b5 < 256 && b6 < 256 && b7 < 256)
            by (bit_vector)
            requires
                b0 == v & 0xff,
                b1 == (v >> 8u64) & 0xff,
                b2 == (v >> 16u64) & 0xff,
                b3 == (v >> 24u64) & 0xff,
                b4 == (v >> 32u64) & 0xff,
                b5 == (v >> 40u64) & 0xff,
                b6 == (v >> 48u64) & 0xff,
                b7 == (v >> 56u64) & 0xff,
        ;
    }
    assert(b0 | (b1 << 8u64) | (b2 << 16u64) | (b3 << 24u64) | (b4 << 32u64) | (b5 << 40u64) | (b6 << 48u64)
        | (b7 << 56u64) == v) by (bit_vector)
        requires
            b0 == v & 0xff,
            b1 == (v >> 8u64) & 0xff,
            b2 == (v >> 16u64) & 0xff,
            b3 == (v >> 24u64) & 0xff,
            b4 == (v >> 32u64) & 0xff,
            b5 == (v >> 40u64) & 0xff,
            b6 == (v >> 48u64) & 0xff,
            b7 == (v >> 56u64) & 0xff,
    ;
}

/// Five bytes that start with an encoded optional `u32` read back as it.
pub proof fn lemma_opt_u32_round_trip(o: Option<u32>, s: Seq<u8>)
    requires
        s.len() == 5,
        s.subrange(0, opt_u32_le(o).len() as int) == opt_u32_le(o),
    ensures
        opt_u32_from(s) == Some(o),
{
    assert(s[0] == opt_u32_le(o)[0]);
    if let Some(v) = o {
        lemma_u32_round_trip(v);
        assert(s =~= s.subrange(0, 5));
        assert(s.subrange(1, 5) =~= (seq![1u8] + u32_le(v)).subrange(1, 5));
        assert(s.subrange(1, 5) =~= u32_le(v));
    }
}

/// Nine bytes that start with an encoded optional `u64` read back as it.
pub proof fn lemma_opt_u64_round_trip(o: Option<u64>, s: Seq<u8>)
    requires
        s.len() == 9,
        s.subrange(0, opt_u64_le(o).len() as int) == opt_u64_le(o),
    ensures
        opt_u64_from(s) == Some(o),
{
    assert(s[0] == opt_u64_le(o)[0]);
    if let Some(v) = o {
        lemma_u64_round_trip(v);
        assert(s =~= s.subrange(0, 9));
        assert(s.subrange(1, 9) =~= (seq![1u8] + u64_le(v)).subrange(1, 9));
        assert(s.subrange(1, 9) =~= u64_le(v));
    }
}

/// The array holding the bytes of an array is that array.
pub proof fn lemma_bytes32_round_trip(a: [u8; 32])
    ensures
        bytes32_from(a@) == a,
        a@.len() == 32,
{
    let c = bytes32_from(a@);
    assert(c@ == a@);
    assert(c =~= a);
}

/// Appends the little-endian bytes of `v`.
pub fn put_u32(out: &mut Vec<u8>, v: u32)
    ensures
        final(out)@ == old(out)@ + u32_le(v),
{
    out.push((v & 0xff) as u8);
    out.push(((v >> 8u32) & 0xff) as u8);
    out.push(((v >> 16u32) & 0xff) as u8);
    out.push(((v >> 24u32) & 0xff) as u8);
    assert(out@ =~= old(out)@ + u32_le(v));
}

/// Appends the little-endian bytes of `v`.
pub fn put_u64(out: &mut Vec<u8>, v: u64)
    ensures
        final(out)@ == old(out)@ + u64_le(v),
{
    out.push((v & 0xff) as u8);
    out.push(((v >> 8u64) & 0xff) as u8);
    out.push(((v >> 16u64) & 0xff) as u8);
    out.push(((v >> 24u64) & 0xff) as u8);
    out.push(((v >> 32u64) & 0xff) as u8);
    out.push(((v >> 40u64) & 0xff) as u8);
    out.push(((v >> 48u64) & 0xff) as u8);
    out.push(((v >> 56u64) & 0xff) as u8);
    assert(out@ =~= old(out)@ + u64_le(v));
}

/// Appends one byte.
pub fn put_u8(out: &mut Vec<u8>, v: u8)
    ensures
        final(out)@ == old(out)@ + seq![v],
{
    out.push(v);
    assert(out@ =~= old(out)@ + seq![v]);
}

/// Appends a flag.
pub fn put_bool(out: &mut Vec<u8>, b: bool)
    ensures
        final(out)@ == old(out)@ + bool_byte(b),
{
    put_u8(out, if b { 1u8 } else { 0u8 });
}

/// Appends `n` zero bytes.
pub fn put_zeros(out: &mut Vec<u8>, n: usize)
    ensures
        final(out)@ == old(out)@ + zeros(n as nat),
{
    let ghost start = out@;
    let mut i: usize = 0;
    while i < n
        invariant
            0 <= i <= n,
            out@ == start + zeros(i as nat),
        decreases n - i,
    {
        out.push(0u8);
        assert(out@ =~= start + zeros((i + 1) as nat));
        i = i + 1;
    }
}

/// Appends an optional `u32`: flag and value, or the flag alone.
pub fn put_opt_u32(out: &mut Vec<u8>, o: Option<u32>)
    ensures
        final(out)@ == old(out)@ + opt_u32_le(o),
{
    match o {
        Some(v) => {
            put_u8(out, 1);
            put_u32(out, v);
        },
        None => {
            put_u8(out, 0);
        },
    }
    assert(out@ =~= old(out)@ + opt_u32_le(o));
}

/// Appends an optional `u64`: flag and value, or the flag alone.
pub fn put_opt_u64(out: &mut Vec<u8>, o: Option<u64>)
    ensures
        final(out)@ == old(out)@ + opt_u64_le(o),
{
    match o {
        Some(v) => {
            put_u8(out, 1);
            put_u64(out, v);
        },
        None => {
            put_u8(out, 0);
        },
    }
    assert(out@ =~= old(out)@ + opt_u64_le(o));
}

/// Appends 32 bytes.
pub fn put_bytes32(out: &mut Vec<u8>, a: &[u8; 32])
    ensures
        final(out)@ == old(out)@ + a@,
{
    let ghost start = out@;
    let mut i: usize = 0;
    while i < 32
        invariant
            0 <= i <= 32,
            a@.len() == 32,
            out@ == start + a@.subrange(0, i as int),
        decreases 32 - i,
    {
        out.push(a[i]);
        assert(out@ =~= start + a@.subrange(0, i + 1));
        i = i + 1;
    }
    assert(a@.subrange(0, 32) =~= a@);
}

/// The `u32` stored little-endian at `at`.
pub fn read_u32(data: &[u8], at: usize) -> (r: u32)
    requires
        at + 4 <= data@.len(),
    ensures
        r == u32_from(data@.subrange(at as int, at + 4)),
{
    (data[at] as u32) | ((data[at + 1] as u32) << 8u32) | ((data[at + 2] as u32) << 16u32) | ((data[at + 3] as u32) << 24u32)
}

/// The `u64` stored little-endian at `at`.
pub fn read_u64(data: &[u8], at: usize) -> (r: u64)
    requires
        at + 8 <= data@.len(),
    ensures
        r == u64_from(data@.subrange(at as int, at + 8)),
{
    (data[at] as u64) | ((data[at + 1] as u64) << 8u64) | ((data[at + 2] as u64) << 16u64) | ((data[at + 3] as u64) << 24u64)
        | ((data[at + 4] as u64) << 32u64) | ((data[at + 5] as u64) << 40u64) | ((data[at + 6] as u64) << 48u64)
        | ((data[at + 7] as u64) << 56u64)
}

/// The flag stored at `at`, if the byte is a flag.
pub fn read_bool(data: &[u8], at: usize) -> (r: Option<bool>)
    requires
        at < data@.len(),
    ensures
        r == bool_from(data@[at as int]),
{
    if data[at] == 0 {
        Some(false)
    } else if data[at] == 1 {
        Some(true)
    } else {
        None
    }
}

/// The optional `u32` stored at `at`, if its flag is valid.
pub fn read_opt_u32(data: &[u8], at: usize) -> (r: Option<Option<u32>>)
    requires
        at + 5 <= data@.len(),
    ensures
        r == opt_u32_from(data@.subrange(at as int, at + 5)),
{
    let s = Ghost(data@.subrange(at as int, at + 5));
    assert(s@.subrange(1, 5) =~= data@.subrange(at + 1, at + 5));
    if data[at] == 0 {
        Some(None)
    } else if data[at] == 1 {
        Some(Some(read_u32(data, at + 1)))
    } else {
        None
    }
}

/// The optional `u64` stored at `at`, if its flag is valid.
pub fn read_opt_u64(data: &[u8], at: usize) -> (r: Option<Option<u64>>)
    requires
        at + 9 <= data@.len(),
    ensures
        r == opt_u64_from(data@.subrange(at as int, at + 9)),
{
    let s = Ghost(data@.subrange(at as int, at + 9));
    assert(s@.subrange(1, 9) =~= data@.subrange(at + 1, at + 9));
    if data[at] == 0 {
        Some(None)
    } else if data[at] == 1 {
        Some(Some(read_u64(data, at + 1)))
    } else {
        None
    }
}

/// The 32 bytes stored at `at`.
pub fn read_bytes32(data: &[u8], at: usize) -> (r: [u8; 32])
    requires
        at + 32 <= data@.len(),
    ensures
        r == bytes32_from(data@.subrange(at as int, at + 32)),
        r@ == data@.subrange(at as int, at + 32),
{
    let n: usize = data.len();
    let mut a: [u8; 32] = [0u8; 32];
    let mut i: usize = 0;
    while i < 32
        invariant
            0 <= i <= 32,
            at + 32 <= data@.len(),
            n == data@.len(),
            a@.len() == 32,
            forall|j: int| 0 <= j < i ==> a@[j] == data@[at + j],
        decreases 32 - i,
    {
        a[i] = data[at + i];
        i = i + 1;
    }
    assert(a@ =~= data@.subrange(at as int, at + 32));
    proof {
        lemma_bytes32_round_trip(a);
    }
    a
}

} // verus!
