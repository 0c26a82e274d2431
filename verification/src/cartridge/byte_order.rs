use super::CartridgeLoadError;
use vstd::prelude::*;

verus! {

#[derive(Clone, Copy, Debug, Eq, PartialEq, Structural)]
pub enum RomSourceLayout {
    BigEndian,
    ByteSwapped16,
    LittleEndian32,
}

pub open spec fn spec_rom_source_layout_name(layout: RomSourceLayout) -> Seq<char> {
    match layout {
        RomSourceLayout::BigEndian => "big-endian cartridge order (.z64)"@,
        RomSourceLayout::ByteSwapped16 => "16-bit byte-swapped (.v64)"@,
        RomSourceLayout::LittleEndian32 => "32-bit little-endian word order (.n64)"@,
    }
}

pub fn rom_source_layout_name(layout: RomSourceLayout) -> (r: &'static str)
    ensures
        r@ == spec_rom_source_layout_name(layout),
{
    match layout {
        RomSourceLayout::BigEndian => "big-endian cartridge order (.z64)",
        RomSourceLayout::ByteSwapped16 => "16-bit byte-swapped (.v64)",
        RomSourceLayout::LittleEndian32 => "32-bit little-endian word order (.n64)",
    }
}

/// The layout named by the first four bytes of a ROM image: the header magic
/// `80 37 12 40` as stored in big-endian, 16-bit swapped or 32-bit little-endian order.
pub open spec fn spec_detect_layout(raw: Seq<u8>) -> Result<RomSourceLayout, CartridgeLoadError>
    recommends
        raw.len() >= 4,
{
    if raw[0] == 0x80 && raw[1] == 0x37 && raw[2] == 0x12 && raw[3] == 0x40 {
        Ok(RomSourceLayout::BigEndian)
    } else if raw[0] == 0x37 && raw[1] == 0x80 && raw[2] == 0x40 && raw[3] == 0x12 {
        Ok(RomSourceLayout::ByteSwapped16)
    } else if raw[0] == 0x40 && raw[1] == 0x12 && raw[2] == 0x37 && raw[3] == 0x80 {
        Ok(RomSourceLayout::LittleEndian32)
    } else {
        Err(CartridgeLoadError::UnsupportedHeaderByteLayout)
    }
}

pub fn detect_rom_source_layout(raw_bytes: &[u8]) -> (r: Result<RomSourceLayout, CartridgeLoadError>)
    requires
        raw_bytes@.len() >= 4,
    ensures
        r == spec_detect_layout(raw_bytes@),
{
    let b0 = raw_bytes[0];
    let b1 = raw_bytes[1];
    let b2 = raw_bytes[2];
    let b3 = raw_bytes[3];
    if b0 == 0x80 && b1 == 0x37 && b2 == 0x12 && b3 == 0x40 {
        Ok(RomSourceLayout::BigEndian)
    } else if b0 == 0x37 && b1 == 0x80 && b2 == 0x40 && b3 == 0x12 {
        Ok(RomSourceLayout::ByteSwapped16)
    } else if b0 == 0x40 && b1 == 0x12 && b2 == 0x37 && b3 == 0x80 {
        Ok(RomSourceLayout::LittleEndian32)
    } else {
        Err(CartridgeLoadError::UnsupportedHeaderByteLayout)
    }
}

/// The source index that supplies normalized byte `i` of a `len`-byte image under a
/// layout: whole 2-byte (16-bit swapped) or 4-byte (32-bit little-endian) chunks are
/// reversed, and bytes after the last whole chunk stay where they are.
pub open spec fn spec_source_index(layout: RomSourceLayout, len: int, i: int) -> int {
    match layout {
        RomSourceLayout::BigEndian => i,
        RomSourceLayout::ByteSwapped16 => if i < len - len % 2 {
            i - i % 2 + (1 - i % 2)
        } else {
            i
        },
        RomSourceLayout::LittleEndian32 => if i < len - len % 4 {
            i - i % 4 + (3 - i % 4)
        } else {
            i
        },
    }
}

/// The big-endian image: byte `i` is the source byte that the layout placed at `i`.
pub open spec fn spec_normalize_bytes(raw: Seq<u8>, layout: RomSourceLayout) -> Seq<u8> {
    Seq::new(raw.len(), |i: int| raw[spec_source_index(layout, raw.len() as int, i)])
}

pub fn normalize_rom_bytes(raw_bytes: Vec<u8>, layout: RomSourceLayout) -> (r: Vec<u8>)
    ensures
        r@ == spec_normalize_bytes(raw_bytes@, layout),
{
    let mut bytes = raw_bytes;
    let ghost raw = bytes@;
    let len = bytes.len();
    match layout {
        RomSourceLayout::BigEndian => {
            assert(bytes@ =~= spec_normalize_bytes(raw, layout));
            bytes
        },
        RomSourceLayout::ByteSwapped16 => {
            let whole: usize = len - len % 2;
            let mut i: usize = 0;
            while i < whole
                invariant
                    len == raw.len(),
                    whole == len - len % 2,
                    i % 2 == 0,
                    i <= whole,
                    bytes@.len() == len,
                    forall|k: int|
                        0 <= k < i ==> bytes@[k] == raw[spec_source_index(layout, len as int, k)],
                    forall|k: int| i <= k < len ==> bytes@[k] == raw[k],
                    layout == RomSourceLayout::ByteSwapped16,
                decreases whole - i,
            {
                let first = bytes[i];
                let second = bytes[i + 1];
                bytes[i] = second;
                bytes[i + 1] = first;
                i = i + 2;
            }
            assert(bytes@ =~= spec_normalize_bytes(raw, layout));
            bytes
        },
        RomSourceLayout::LittleEndian32 => {
            let whole: usize = len - len % 4;
            let mut i: usize = 0;
            while i < whole
                invariant
                    len == raw.len(),
                    whole == len - len % 4,
                    i % 4 == 0,
                    i <= whole,
                    bytes@.len() == len,
                    forall|k: int|
                        0 <= k < i ==> bytes@[k] == raw[spec_source_index(layout, len as int, k)],
                    forall|k: int| i <= k < len ==> bytes@[k] == raw[k],
                    layout == RomSourceLayout::LittleEndian32,
                decreases whole - i,
            {
                let b0 = bytes[i];
                let b1 = bytes[i + 1];
                let b2 = bytes[i + 2];
                let b3 = bytes[i + 3];
                bytes[i] = b3;
                bytes[i + 1] = b2;
                bytes[i + 2] = b1;
                bytes[i + 3] = b0;
                i = i + 4;
            }
            assert(bytes@ =~= spec_normalize_bytes(raw, layout));
            bytes
        },
    }
}

/// Normalizing twice under the same layout gives back the input: each layout's byte
/// order is its own inverse. So the encoding of a big-endian image in a layout is its
/// normalization under that layout.
pub proof fn lemma_normalize_is_involution(raw: Seq<u8>, layout: RomSourceLayout)
    ensures
        spec_normalize_bytes(spec_normalize_bytes(raw, layout), layout) == raw,
{
    let once = spec_normalize_bytes(raw, layout);
    let len = raw.len() as int;
    assert forall|i: int| 0 <= i < len implies #[trigger] spec_normalize_bytes(once, layout)[i]
        == raw[i] by {
        let j = spec_source_index(layout, len, i);
        assert(0 <= j < len);
        assert(spec_source_index(layout, len, j) == i);
    }
    assert(spec_normalize_bytes(once, layout) =~= raw);
}

/// Normalizing is a byte permutation that keeps the length and puts the header magic
/// first: a detected layout always normalizes to the big-endian magic.
pub proof fn lemma_detected_layout_normalizes_magic(raw: Seq<u8>)
    requires
        raw.len() >= 4,
        raw.len() % 4 == 0,
        spec_detect_layout(raw) is Ok,
    ensures
        ({
            let bytes = spec_normalize_bytes(raw, spec_detect_layout(raw)->Ok_0);
            &&& bytes.len() == raw.len()
            &&& bytes[0] == 0x80 && bytes[1] == 0x37 && bytes[2] == 0x12 && bytes[3] == 0x40
        }),
{
}

} // verus!
