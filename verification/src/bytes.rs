use vstd::prelude::*;

verus! {

/// The big-endian halfword stored at `offset`.
pub open spec fn spec_be_u16(bytes: Seq<u8>, offset: int) -> u16 {
    (bytes[offset] as int * 0x100 + bytes[offset + 1] as int) as u16
}

/// The big-endian word stored at `offset`.
pub open spec fn spec_be_u32(bytes: Seq<u8>, offset: int) -> u32 {
    (bytes[offset] as int * 0x100_0000 + bytes[offset + 1] as int * 0x1_0000 + bytes[offset + 2]
        as int * 0x100 + bytes[offset + 3] as int) as u32
}

/// The big-endian doubleword stored at `offset`.
pub open spec fn spec_be_u64(bytes: Seq<u8>, offset: int) -> u64 {
    (spec_be_u32(bytes, offset) as int * 0x1_0000_0000 + spec_be_u32(bytes, offset + 4) as int) as u64
}

/// The bytes of a halfword, most significant first.
pub open spec fn spec_u16_be_bytes(v: u16) -> Seq<u8> {
    seq![(v as int / 0x100) as u8, (v as int % 0x100) as u8]
}

/// The bytes of a word, most significant first.
pub open spec fn spec_u32_be_bytes(v: u32) -> Seq<u8> {
    seq![
        (v as int / 0x100_0000) as u8,
        (v as int / 0x1_0000 % 0x100) as u8,
        (v as int / 0x100 % 0x100) as u8,
        (v as int % 0x100) as u8,
    ]
}

/// The bytes of a doubleword, most significant first.
pub open spec fn spec_u64_be_bytes(v: u64) -> Seq<u8> {
    spec_u32_be_bytes((v as int / 0x1_0000_0000) as u32) + spec_u32_be_bytes(
        (v as int % 0x1_0000_0000) as u32,
    )
}

/// `data` with the bytes of `patch` written from `offset` on.
pub open spec fn spec_patch(data: Seq<u8>, offset: int, patch: Seq<u8>) -> Seq<u8> {
    Seq::new(
        data.len(),
        |i: int|
            if offset <= i < offset + patch.len() {
                patch[i - offset]
            } else {
                data[i]
            },
    )
}

/// Shifting four bytes into place and or-ing them gives their big-endian value.
pub proof fn lemma_be_u32_bits(b0: u8, b1: u8, b2: u8, b3: u8)
    ensures
        ((b0 as u32) << 24u32) | ((b1 as u32) << 16u32) | ((b2 as u32) << 8u32) | (b3 as u32)
            == (b0 as int * 0x100_0000 + b1 as int * 0x1_0000 + b2 as int * 0x100 + b3 as int),
{
    assert(((b0 as u32) << 24u32) | ((b1 as u32) << 16u32) | ((b2 as u32) << 8u32) | (b3 as u32)
        == b0 as u32 * 0x100_0000u32 + b1 as u32 * 0x1_0000u32 + b2 as u32 * 0x100u32
        + b3 as u32) by (bit_vector);
}

pub fn read_be_u16(bytes: &[u8], offset: usize) -> (r: u16)
    requires
        offset + 2 <= bytes@.len(),
    ensures
        r == spec_be_u16(bytes@, offset as int),
{
    let b0 = bytes[offset];
    let b1 = bytes[offset + 1];
    assert(((b0 as u16) << 8u16) | (b1 as u16) == b0 as u16 * 0x100u16 + b1 as u16)
        by (bit_vector);
    ((b0 as u16) << 8) | (b1 as u16)
}

pub fn read_be_u32(bytes: &[u8], offset: usize) -> (r: u32)
    requires
        offset + 4 <= bytes@.len(),
    ensures
        r == spec_be_u32(bytes@, offset as int),
{
    let b0 = bytes[offset];
    let b1 = bytes[offset + 1];
    let b2 = bytes[offset + 2];
    let b3 = bytes[offset + 3];
    proof {
        lemma_be_u32_bits(b0, b1, b2, b3);
    }
    ((b0 as u32) << 24) | ((b1 as u32) << 16) | ((b2 as u32) << 8) | (b3 as u32)
}

pub fn read_be_u64(bytes: &[u8], offset: usize) -> (r: u64)
    requires
        offset + 8 <= bytes@.len(),
    ensures
        r == spec_be_u64(bytes@, offset as int),
{
    let _len = bytes.len();
    let high = read_be_u32(bytes, offset);
    let low = read_be_u32(bytes, offset + 4);
    assert(((high as u64) << 32u64) | (low as u64) == high as u64 * 0x1_0000_0000u64 + low as u64)
        by (bit_vector);
    ((high as u64) << 32) | (low as u64)
}

/// Byte extraction from a word by shifts agrees with division and remainder, and the four
/// bytes recompose the word.
pub proof fn lemma_u32_byte_split(v: u32)
    ensures
        (v >> 24u32) as u8 == (v / 0x100_0000u32) as u8,
        (v >> 16u32) as u8 == ((v / 0x1_0000u32) % 0x100u32) as u8,
        (v >> 8u32) as u8 == ((v / 0x100u32) % 0x100u32) as u8,
        v as u8 == (v % 0x100u32) as u8,
        (v / 0x100_0000u32) as u8 as u32 * 0x100_0000u32 + ((v / 0x1_0000u32) % 0x100u32) as u8
            as u32 * 0x1_0000u32 + ((v / 0x100u32) % 0x100u32) as u8 as u32 * 0x100u32 + (v
            % 0x100u32) as u8 as u32 == v,
{
    lemma_u32_byte_extract(v);
    lemma_u32_byte_compose(v);
}

proof fn lemma_u32_byte_extract(v: u32)
    ensures
        (v >> 24u32) as u8 == (v / 0x100_0000u32) as u8,
        (v >> 16u32) as u8 == ((v / 0x1_0000u32) % 0x100u32) as u8,
        (v >> 8u32) as u8 == ((v / 0x100u32) % 0x100u32) as u8,
        v as u8 == (v % 0x100u32) as u8,
{
    assert((v >> 24u32) as u8 == (v / 0x100_0000u32) as u8 && (v >> 16u32) as u8 == ((v
        / 0x1_0000u32) % 0x100u32) as u8 && (v >> 8u32) as u8 == ((v / 0x100u32) % 0x100u32) as u8
        && v as u8 == (v % 0x100u32) as u8) by (bit_vector);
}

proof fn lemma_u32_byte_compose(v: u32)
    by (bit_vector)
    ensures
        (v / 0x100_0000u32) as u8 as u32 * 0x100_0000u32 + ((v / 0x1_0000u32) % 0x100u32) as u8
            as u32 * 0x1_0000u32 + ((v / 0x100u32) % 0x100u32) as u8 as u32 * 0x100u32 + (v
            % 0x100u32) as u8 as u32 == v,
{
}

/// Byte extraction from a halfword by shifts agrees with division and remainder, and the
/// two bytes recompose the halfword.
pub proof fn lemma_u16_byte_split(v: u16)
    ensures
        (v >> 8u16) as u8 == (v / 0x100u16) as u8,
        v as u8 == (v % 0x100u16) as u8,
        (v / 0x100u16) as u8 as u16 * 0x100u16 + (v % 0x100u16) as u8 as u16 == v,
{
    lemma_u16_byte_extract(v);
    lemma_u16_byte_compose(v);
}

proof fn lemma_u16_byte_extract(v: u16)
    by (bit_vector)
    ensures
        (v >> 8u16) as u8 == (v / 0x100u16) as u8,
        v as u8 == (v % 0x100u16) as u8,
{
}

proof fn lemma_u16_byte_compose(v: u16)
    by (bit_vector)
    ensures
        (v / 0x100u16) as u8 as u16 * 0x100u16 + (v % 0x100u16) as u8 as u16 == v,
{
}

/// The halves of a doubleword by shift and truncation agree with division and remainder.
pub proof fn lemma_u64_word_split(v: u64)
    by (bit_vector)
    ensures
        (v >> 32u64) as u32 == (v / 0x1_0000_0000u64) as u32,
        v as u32 == (v % 0x1_0000_0000u64) as u32,
{
}

/// Writing the bytes of a word and reading the word back gives the same word.
pub proof fn lemma_u32_round_trip(data: Seq<u8>, offset: int, v: u32)
    requires
        0 <= offset,
        offset + 4 <= data.len(),
    ensures
        spec_be_u32(spec_patch(data, offset, spec_u32_be_bytes(v)), offset) == v,
{
    let p = spec_patch(data, offset, spec_u32_be_bytes(v));
    assert(p[offset] == (v as int / 0x100_0000) as u8);
    assert(p[offset + 1] == (v as int / 0x1_0000 % 0x100) as u8);
    assert(p[offset + 2] == (v as int / 0x100 % 0x100) as u8);
    assert(p[offset + 3] == (v as int % 0x100) as u8);
    lemma_u32_byte_split(v);
}

/// Writing the bytes of a halfword and reading it back gives the same halfword.
pub proof fn lemma_u16_round_trip(data: Seq<u8>, offset: int, v: u16)
    requires
        0 <= offset,
        offset + 2 <= data.len(),
    ensures
        spec_be_u16(spec_patch(data, offset, spec_u16_be_bytes(v)), offset) == v,
{
    let p = spec_patch(data, offset, spec_u16_be_bytes(v));
    assert(p[offset] == (v as int / 0x100) as u8);
    assert(p[offset + 1] == (v as int % 0x100) as u8);
    lemma_u16_byte_split(v);
}

/// Writing the bytes of a doubleword and reading it back gives the same doubleword.
pub proof fn lemma_u64_round_trip(data: Seq<u8>, offset: int, v: u64)
    requires
        0 <= offset,
        offset + 8 <= data.len(),
    ensures
        spec_be_u64(spec_patch(data, offset, spec_u64_be_bytes(v)), offset) == v,
{
    let high = (v as int / 0x1_0000_0000) as u32;
    let low = (v as int % 0x1_0000_0000) as u32;
    let p = spec_patch(data, offset, spec_u64_be_bytes(v));
    let ph = spec_patch(data, offset, spec_u32_be_bytes(high));
    let pl = spec_patch(data, offset + 4, spec_u32_be_bytes(low));
    lemma_u32_round_trip(data, offset, high);
    lemma_u32_round_trip(data, offset + 4, low);
    assert(spec_be_u32(p, offset) == spec_be_u32(ph, offset));
    assert(spec_be_u32(p, offset + 4) == spec_be_u32(pl, offset + 4));
    assert(v as int == high as int * 0x1_0000_0000 + low as int);
}

/// Bytes outside the written span are unchanged.
pub proof fn lemma_patch_frame(data: Seq<u8>, offset: int, patch: Seq<u8>, i: int)
    requires
        0 <= i < data.len(),
        i < offset || offset + patch.len() <= i,
    ensures
        spec_patch(data, offset, patch)[i] == data[i],
{
}

pub fn patch_be_u16<const N: usize>(data: &mut [u8; N], offset: usize, v: u16)
    requires
        offset + 2 <= N,
    ensures
        final(data)@ == spec_patch(old(data)@, offset as int, spec_u16_be_bytes(v)),
{
    proof {
        lemma_u16_byte_split(v);
    }
    data[offset] = (v >> 8) as u8;
    data[offset + 1] = v as u8;
    assert(data@ =~= spec_patch(old(data)@, offset as int, spec_u16_be_bytes(v)));
}

pub fn patch_be_u32<const N: usize>(data: &mut [u8; N], offset: usize, v: u32)
    requires
        offset + 4 <= N,
    ensures
        final(data)@ == spec_patch(old(data)@, offset as int, spec_u32_be_bytes(v)),
{
    proof {
        lemma_u32_byte_split(v);
    }
    data[offset] = (v >> 24) as u8;
    data[offset + 1] = (v >> 16) as u8;
    data[offset + 2] = (v >> 8) as u8;
    data[offset + 3] = v as u8;
    assert(data@ =~= spec_patch(old(data)@, offset as int, spec_u32_be_bytes(v)));
}

pub fn patch_be_u64<const N: usize>(data: &mut [u8; N], offset: usize, v: u64)
    requires
        offset + 8 <= N,
    ensures
        final(data)@ == spec_patch(old(data)@, offset as int, spec_u64_be_bytes(v)),
{
    let ghost d0 = data@;
    let high = (v >> 32) as u32;
    let low = v as u32;
    proof {
        lemma_u64_word_split(v);
    }
    patch_be_u32(data, offset, high);
    patch_be_u32(data, offset + 4, low);
    assert(data@ =~= spec_patch(d0, offset as int, spec_u64_be_bytes(v)));
}

} // verus!
