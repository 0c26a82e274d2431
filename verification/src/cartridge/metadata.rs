use super::CartridgeLoadError;
use crate::bytes::{read_be_u32, spec_be_u32};
use crate::text::push_char;
use vstd::prelude::*;

verus! {

pub const ROM_HEADER_SIZE: usize = 0x40;

pub const EXPECTED_HEADER_MAGIC: u32 = 0x8037_1240;

/// PI domain 1 timing, as packed into the first header word.
#[derive(Clone, Copy, Debug, Default, Eq, PartialEq, Structural)]
pub struct CartridgePiDomain1Timing {
    pub latency: u8,
    pub pulse_width: u8,
    pub page_size: u8,
    pub release_duration: u8,
}

/// Latency is bits 31..24, pulse width bits 15..8, page size bits 19..16 and release
/// duration bits 1..0 of the header configuration word.
pub open spec fn spec_pi_domain1_timing(word: u32) -> CartridgePiDomain1Timing {
    CartridgePiDomain1Timing {
        latency: (word as int / 0x100_0000) as u8,
        pulse_width: (word as int / 0x100 % 0x100) as u8,
        page_size: (word as int / 0x1_0000 % 0x10) as u8,
        release_duration: (word as int % 4) as u8,
    }
}

proof fn lemma_configuration_word_fields(w: u32)
    by (bit_vector)
    ensures
        (w >> 24u32) as u8 == w / 0x100_0000u32,
        (w >> 8u32) as u8 == (w / 0x100u32) % 0x100u32,
        (w >> 16u32) & 0x0fu32 == (w / 0x1_0000u32) % 0x10u32,
        w & 0x03u32 == w % 4u32,
{
}

impl CartridgePiDomain1Timing {
    pub fn from_header_configuration_word(header_configuration_word: u32) -> (r: Self)
        ensures
            r == spec_pi_domain1_timing(header_configuration_word),
    {
        let w = header_configuration_word;
        proof {
            lemma_configuration_word_fields(w);
        }
        Self {
            latency: (w >> 24) as u8,
            pulse_width: (w >> 8) as u8,
            page_size: ((w >> 16) & 0x0f) as u8,
            release_duration: (w & 0x03) as u8,
        }
    }

    pub fn latency(self) -> (r: u8)
        ensures
            r == self.latency,
    {
        self.latency
    }

    pub fn pulse_width(self) -> (r: u8)
        ensures
            r == self.pulse_width,
    {
        self.pulse_width
    }

    pub fn page_size(self) -> (r: u8)
        ensures
            r == self.page_size,
    {
        self.page_size
    }

    pub fn release_duration(self) -> (r: u8)
        ensures
            r == self.release_duration,
    {
        self.release_duration
    }
}

#[derive(Clone, Debug, Default, Eq, PartialEq)]
pub struct RomMetadata {
    pub header_magic: u32,
    pub pi_domain_one_timing: CartridgePiDomain1Timing,
    pub clock_rate: u32,
    pub entry_point: u32,
    pub release_address: u32,
    pub crc1: u32,
    pub crc2: u32,
    pub image_name: String,
    pub cartridge_id: String,
    pub country_code: u8,
    pub revision: u8,
}

impl RomMetadata {
    /// The metadata of an empty cartridge: every number zero and both text fields empty.
    pub open spec fn spec_is_default(self) -> bool {
        &&& self.header_magic == 0
        &&& self.pi_domain_one_timing == (CartridgePiDomain1Timing {
            latency: 0,
            pulse_width: 0,
            page_size: 0,
            release_duration: 0,
        })
        &&& self.clock_rate == 0
        &&& self.entry_point == 0
        &&& self.release_address == 0
        &&& self.crc1 == 0
        &&& self.crc2 == 0
        &&& self.image_name@ == Seq::<char>::empty()
        &&& self.cartridge_id@ == Seq::<char>::empty()
        &&& self.country_code == 0
        &&& self.revision == 0
    }
}

/// Index of the first NUL byte at or after `i` (the sequence length when there is none).
pub open spec fn spec_nul_index_from(bytes: Seq<u8>, i: int) -> int
    decreases bytes.len() - i,
{
    if i >= bytes.len() {
        bytes.len() as int
    } else if bytes[i] == 0 {
        i
    } else {
        spec_nul_index_from(bytes, i + 1)
    }
}

/// The length left after dropping trailing space bytes from the first `n` bytes.
pub open spec fn spec_trimmed_len(bytes: Seq<u8>, n: int) -> int
    decreases n,
{
    if n > 0 && bytes[n - 1] == 0x20 {
        spec_trimmed_len(bytes, n - 1)
    } else {
        n
    }
}

/// Printable ASCII and space are kept; any other byte reads as `?`.
pub open spec fn spec_ascii_char(b: u8) -> char {
    if 0x20 <= b <= 0x7e {
        b as char
    } else {
        '?'
    }
}

/// A fixed-width header text field: the bytes before the first NUL, trailing spaces
/// dropped, each byte shown as ASCII or `?`.
pub open spec fn spec_ascii_field(bytes: Seq<u8>, offset: int, length: int) -> Seq<char> {
    let field = bytes.subrange(offset, offset + length);
    let n = spec_trimmed_len(field, spec_nul_index_from(field, 0));
    Seq::new(n as nat, |i: int| spec_ascii_char(field[i]))
}

/// The metadata fields read from a normalized ROM header.
pub open spec fn metadata_matches(m: RomMetadata, bytes: Seq<u8>) -> bool {
    &&& m.header_magic == spec_be_u32(bytes, 0x00)
    &&& m.pi_domain_one_timing == spec_pi_domain1_timing(spec_be_u32(bytes, 0x00))
    &&& m.clock_rate == spec_be_u32(bytes, 0x04)
    &&& m.entry_point == spec_be_u32(bytes, 0x08)
    &&& m.release_address == spec_be_u32(bytes, 0x0c)
    &&& m.crc1 == spec_be_u32(bytes, 0x10)
    &&& m.crc2 == spec_be_u32(bytes, 0x14)
    &&& m.image_name@ == spec_ascii_field(bytes, 0x20, 20)
    &&& m.cartridge_id@ == spec_ascii_field(bytes, 0x3c, 2)
    &&& m.country_code == bytes[0x3e]
    &&& m.revision == bytes[0x3f]
}

/// Why a normalized image has no metadata: it is shorter than the header, or its first
/// word is not the expected magic.
pub open spec fn spec_metadata_error(bytes: Seq<u8>) -> Option<CartridgeLoadError> {
    if bytes.len() < ROM_HEADER_SIZE {
        Some(CartridgeLoadError::NormalizedHeaderTooSmall)
    } else if spec_be_u32(bytes, 0) != EXPECTED_HEADER_MAGIC {
        Some(CartridgeLoadError::NormalizedHeaderMagicMismatch)
    } else {
        None
    }
}

pub fn parse_rom_metadata(normalized_bytes: &[u8]) -> (r: Result<RomMetadata, CartridgeLoadError>)
    ensures
        match r {
            Ok(m) => spec_metadata_error(normalized_bytes@) is None && metadata_matches(
                m,
                normalized_bytes@,
            ),
            Err(e) => spec_metadata_error(normalized_bytes@) == Some(e),
        },
{
    if normalized_bytes.len() < ROM_HEADER_SIZE {
        return Err(CartridgeLoadError::NormalizedHeaderTooSmall);
    }
    let header_magic = read_be_u32(normalized_bytes, 0x00);
    if header_magic != EXPECTED_HEADER_MAGIC {
        return Err(CartridgeLoadError::NormalizedHeaderMagicMismatch);
    }
    Ok(
        RomMetadata {
            header_magic,
            pi_domain_one_timing: CartridgePiDomain1Timing::from_header_configuration_word(
                header_magic,
            ),
            clock_rate: read_be_u32(normalized_bytes, 0x04),
            entry_point: read_be_u32(normalized_bytes, 0x08),
            release_address: read_be_u32(normalized_bytes, 0x0c),
            crc1: read_be_u32(normalized_bytes, 0x10),
            crc2: read_be_u32(normalized_bytes, 0x14),
            image_name: read_ascii_field(normalized_bytes, 0x20, 20),
            cartridge_id: read_ascii_field(normalized_bytes, 0x3c, 2),
            country_code: normalized_bytes[0x3e],
            revision: normalized_bytes[0x3f],
        },
    )
}

pub fn read_ascii_field(bytes: &[u8], offset: usize, length: usize) -> (r: String)
    requires
        offset + length <= bytes@.len(),
    ensures
        r@ == spec_ascii_field(bytes@, offset as int, length as int),
{
    let ghost field = bytes@.subrange(offset as int, offset + length);
    let total = bytes.len();
    let mut end: usize = 0;
    while end < length && bytes[offset + end] != 0
        invariant
            end <= length,
            offset + length <= bytes@.len(),
            total == bytes@.len(),
            field == bytes@.subrange(offset as int, offset + length),
            spec_nul_index_from(field, 0) == spec_nul_index_from(field, end as int),
        decreases length - end,
    {
        end = end + 1;
    }
    assert(spec_nul_index_from(field, end as int) == end);
    let mut trimmed: usize = end;
    while trimmed > 0 && bytes[offset + trimmed - 1] == 0x20
        invariant
            trimmed <= end <= length,
            offset + length <= bytes@.len(),
            total == bytes@.len(),
            field == bytes@.subrange(offset as int, offset + length),
            spec_trimmed_len(field, end as int) == spec_trimmed_len(field, trimmed as int),
        decreases trimmed,
    {
        trimmed = trimmed - 1;
    }
    let mut value = String::new();
    let mut i: usize = 0;
    while i < trimmed
        invariant
            i <= trimmed <= length,
            offset + length <= bytes@.len(),
            total == bytes@.len(),
            field == bytes@.subrange(offset as int, offset + length),
            value@ == Seq::new(i as nat, |k: int| spec_ascii_char(field[k])),
        decreases trimmed - i,
    {
        let ch = bytes[offset + i];
        let c = if 0x20 <= ch && ch <= 0x7e {
            ch as char
        } else {
            '?'
        };
        push_char(&mut value, c);
        i = i + 1;
        assert(value@ =~= Seq::new(i as nat, |k: int| spec_ascii_char(field[k])));
    }
    value
}

/// The PI domain 1 timing of a header is read straight from its first four bytes, as
/// they stand in the big-endian image: latency is byte 0, the page size is the low nibble
/// of byte 1, the pulse width is byte 2 and the release duration the low two bits of
/// byte 3. Each field depends on its own byte alone.
pub proof fn lemma_pi_timing_is_header_bytes(bytes: Seq<u8>)
    requires
        bytes.len() >= 4,
    ensures
        spec_pi_domain1_timing(spec_be_u32(bytes, 0)) == (CartridgePiDomain1Timing {
            latency: bytes[0],
            pulse_width: bytes[2],
            page_size: bytes[1] % 16,
            release_duration: bytes[3] % 4,
        }),
{
    let b0 = bytes[0] as int;
    let b1 = bytes[1] as int;
    let b2 = bytes[2] as int;
    let b3 = bytes[3] as int;
    let v = b0 * 0x100_0000 + b1 * 0x1_0000 + b2 * 0x100 + b3;
    assert(v / 0x100_0000 == b0 && v / 0x100 % 0x100 == b2 && v / 0x1_0000 % 0x10 == b1 % 16
        && v % 4 == b3 % 4) by (nonlinear_arith)
        requires
            0 <= b0 < 256,
            0 <= b1 < 256,
            0 <= b2 < 256,
            0 <= b3 < 256,
            v == b0 * 0x100_0000 + b1 * 0x1_0000 + b2 * 0x100 + b3,
    ;
    assert(spec_be_u32(bytes, 0) as int == v);
}

/// Metadata parsed from a header carries the timing bytes of that header: in particular
/// its pulse width is the third header byte.
pub proof fn lemma_parsed_timing_follows_header_bytes(m: RomMetadata, bytes: Seq<u8>)
    requires
        bytes.len() >= ROM_HEADER_SIZE,
        metadata_matches(m, bytes),
    ensures
        m.pi_domain_one_timing.latency == bytes[0],
        m.pi_domain_one_timing.page_size == bytes[1] % 16,
        m.pi_domain_one_timing.pulse_width == bytes[2],
        m.pi_domain_one_timing.release_duration == bytes[3] % 4,
{
    lemma_pi_timing_is_header_bytes(bytes);
}

} // verus!
