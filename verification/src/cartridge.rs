use crate::bytes::spec_be_u32;
use crate::text::{push_decimal, push_hex_digits, push_str, spec_decimal, spec_hex_digits};
use vstd::prelude::*;

pub mod byte_order;
pub mod metadata;

use byte_order::{
    detect_rom_source_layout, normalize_rom_bytes, spec_detect_layout, spec_normalize_bytes,
    spec_source_index,
    RomSourceLayout,
};
use metadata::{
    metadata_matches, parse_rom_metadata, spec_metadata_error, RomMetadata, ROM_HEADER_SIZE,
};

verus! {

pub const CARTRIDGE_HEADER_ENTRY_WORD_OFFSET: u32 = 0x0000_0008;

pub const CARTRIDGE_CANDIDATE_IPL3_START_OFFSET: u32 = 0x0000_0040;

pub const CARTRIDGE_CANDIDATE_IPL3_END_OFFSET_EXCLUSIVE: u32 = 0x0000_1000;

pub const CARTRIDGE_CANDIDATE_IPL3_BYTE_COUNT: u32 = CARTRIDGE_CANDIDATE_IPL3_END_OFFSET_EXCLUSIVE
    - CARTRIDGE_CANDIDATE_IPL3_START_OFFSET;

#[derive(Clone, Debug, Eq, PartialEq)]
pub struct NormalizedRomImage {
    pub source_layout: RomSourceLayout,
    pub bytes: Vec<u8>,
    pub metadata: RomMetadata,
}

#[derive(Clone, Debug, Eq, PartialEq, Structural)]
pub enum CartridgeLoadError {
    HeaderTooSmall,
    SizeNotMultipleOf4,
    UnsupportedHeaderByteLayout,
    NormalizedHeaderTooSmall,
    NormalizedHeaderMagicMismatch,
}

#[derive(Clone, Debug, Eq, PartialEq, Structural)]
pub enum CartridgeReadError {
    OutOfRange { addr: u32, width: usize, size: usize },
}

impl CartridgeReadError {
    /// The error message, as a sequence of characters.
    pub open spec fn spec_message(self) -> Seq<char> {
        "cartridge read out of range: addr=0x"@ + spec_hex_digits(self->addr as nat, 8)
            + " width="@ + spec_decimal(self->width as nat) + " size="@ + spec_decimal(
            self->size as nat,
        )
    }

    /// The error message.
    pub fn to_string(&self) -> (r: String)
        ensures
            r@ == self.spec_message(),
    {
        let mut s = String::new();
        match self {
            CartridgeReadError::OutOfRange { addr, width, size } => {
                push_str(&mut s, "cartridge read out of range: addr=0x");
                push_hex_digits(&mut s, *addr as u64, 8);
                push_str(&mut s, " width=");
                push_decimal(&mut s, *width as u64);
                push_str(&mut s, " size=");
                push_decimal(&mut s, *size as u64);
            },
        }
        s
    }
}

impl CartridgeLoadError {
    /// The error message.
    pub fn to_string(&self) -> (r: String)
        ensures
            r@ == (match self {
                CartridgeLoadError::HeaderTooSmall => "ROM image is too small to contain a complete 0x40-byte N64 ROM header"@,
                CartridgeLoadError::SizeNotMultipleOf4 => "ROM image size is not a multiple of 4 bytes"@,
                CartridgeLoadError::UnsupportedHeaderByteLayout => "unsupported ROM header byte layout; expected one of 80 37 12 40, 37 80 40 12, or 40 12 37 80"@,
                CartridgeLoadError::NormalizedHeaderTooSmall => "normalized ROM is smaller than the 0x40-byte N64 header"@,
                CartridgeLoadError::NormalizedHeaderMagicMismatch => "normalized ROM header magic mismatch; expected 0x80371240"@,
            }),
    {
        let message = match self {
            CartridgeLoadError::HeaderTooSmall => "ROM image is too small to contain a complete 0x40-byte N64 ROM header",
            CartridgeLoadError::SizeNotMultipleOf4 => "ROM image size is not a multiple of 4 bytes",
            CartridgeLoadError::UnsupportedHeaderByteLayout => "unsupported ROM header byte layout; expected one of 80 37 12 40, 37 80 40 12, or 40 12 37 80",
            CartridgeLoadError::NormalizedHeaderTooSmall => "normalized ROM is smaller than the 0x40-byte N64 header",
            CartridgeLoadError::NormalizedHeaderMagicMismatch => "normalized ROM header magic mismatch; expected 0x80371240",
        };
        let mut s = String::new();
        push_str(&mut s, message);
        s
    }
}

#[derive(Clone, Debug, Eq, PartialEq, Structural)]
pub struct CartridgeEntryInspection {
    pub header_entry_word_available: bool,
    pub header_entry_word: u32,
    pub candidate_ipl3_span_available: bool,
    pub candidate_ipl3_start_offset: u32,
    pub candidate_ipl3_end_offset_exclusive: u32,
    pub candidate_ipl3_byte_count: u32,
    pub ipl3_first_word_available: bool,
    pub ipl3_first_word: u32,
}

impl CartridgeEntryInspection {
    pub open spec fn spec_default() -> Self {
        CartridgeEntryInspection {
            header_entry_word_available: false,
            header_entry_word: 0,
            candidate_ipl3_span_available: false,
            candidate_ipl3_start_offset: CARTRIDGE_CANDIDATE_IPL3_START_OFFSET,
            candidate_ipl3_end_offset_exclusive: CARTRIDGE_CANDIDATE_IPL3_END_OFFSET_EXCLUSIVE,
            candidate_ipl3_byte_count: CARTRIDGE_CANDIDATE_IPL3_BYTE_COUNT,
            ipl3_first_word_available: false,
            ipl3_first_word: 0,
        }
    }
}

impl Default for CartridgeEntryInspection {
    fn default() -> (r: Self)
        ensures
            r == Self::spec_default(),
    {
        Self {
            header_entry_word_available: false,
            header_entry_word: 0,
            candidate_ipl3_span_available: false,
            candidate_ipl3_start_offset: CARTRIDGE_CANDIDATE_IPL3_START_OFFSET,
            candidate_ipl3_end_offset_exclusive: CARTRIDGE_CANDIDATE_IPL3_END_OFFSET_EXCLUSIVE,
            candidate_ipl3_byte_count: CARTRIDGE_CANDIDATE_IPL3_BYTE_COUNT,
            ipl3_first_word_available: false,
            ipl3_first_word: 0,
        }
    }
}

/// A loaded cartridge: its normalized big-endian image and the metadata read from it.
#[derive(Clone, Debug, Eq, PartialEq)]
pub struct Cartridge {
    source_layout: RomSourceLayout,
    image: Vec<u8>,
    metadata: RomMetadata,
}

impl Cartridge {
    pub closed spec fn spec_source_layout(&self) -> RomSourceLayout {
        self.source_layout
    }

    pub closed spec fn spec_image(&self) -> Seq<u8> {
        self.image@
    }

    pub closed spec fn spec_metadata(&self) -> RomMetadata {
        self.metadata
    }

    pub fn source_layout(&self) -> (r: RomSourceLayout)
        ensures
            r == self.spec_source_layout(),
    {
        self.source_layout
    }

    pub fn metadata(&self) -> (r: &RomMetadata)
        ensures
            *r == self.spec_metadata(),
    {
        &self.metadata
    }

    pub fn size_bytes(&self) -> (r: usize)
        ensures
            r == self.spec_image().len(),
    {
        self.image.len()
    }

    pub fn read_u8(&self, cart_addr: u32) -> (r: Result<u8, CartridgeReadError>)
        ensures
            cart_addr < self.spec_image().len() ==> r == Ok::<u8, CartridgeReadError>(
                self.spec_image()[cart_addr as int],
            ),
            cart_addr >= self.spec_image().len() ==> r == Err::<u8, CartridgeReadError>(
                CartridgeReadError::OutOfRange {
                    addr: cart_addr,
                    width: 1,
                    size: self.spec_image().len() as usize,
                },
            ),
    {
        let offset = cart_addr as usize;
        if offset >= self.image.len() {
            return Err(
                CartridgeReadError::OutOfRange { addr: cart_addr, width: 1, size: self.image.len() },
            );
        }
        Ok(self.image[offset])
    }

    pub fn read_u32_be(&self, cart_addr: u32) -> (r: Result<u32, CartridgeReadError>)
        ensures
            cart_addr + 4 <= self.spec_image().len() && cart_addr <= u32::MAX - 3 ==> r == Ok::<
                u32,
                CartridgeReadError,
            >(spec_be_u32(self.spec_image(), cart_addr as int)),
            cart_addr + 4 > self.spec_image().len() || cart_addr > u32::MAX - 3 ==> r == Err::<
                u32,
                CartridgeReadError,
            >(
                CartridgeReadError::OutOfRange {
                    addr: cart_addr,
                    width: 4,
                    size: self.spec_image().len() as usize,
                },
            ),
    {
        let final_addr = match cart_addr.checked_add(3) {
            Some(final_addr) => final_addr,
            None => {
                return Err(
                    CartridgeReadError::OutOfRange {
                        addr: cart_addr,
                        width: 4,
                        size: self.image.len(),
                    },
                );
            },
        };
        if final_addr as usize >= self.image.len() {
            return Err(
                CartridgeReadError::OutOfRange { addr: cart_addr, width: 4, size: self.image.len() },
            );
        }
        Ok(crate::bytes::read_be_u32(self.image.as_slice(), cart_addr as usize))
    }
}

impl Default for Cartridge {
    fn default() -> (r: Self)
        ensures
            r.spec_source_layout() == RomSourceLayout::BigEndian,
            r.spec_image().len() == 0,
            r.spec_metadata().spec_is_default(),
    {
        Self {
            source_layout: RomSourceLayout::BigEndian,
            image: Vec::new(),
            metadata: RomMetadata {
                header_magic: 0,
                pi_domain_one_timing: metadata::CartridgePiDomain1Timing {
                    latency: 0,
                    pulse_width: 0,
                    page_size: 0,
                    release_duration: 0,
                },
                clock_rate: 0,
                entry_point: 0,
                release_address: 0,
                crc1: 0,
                crc2: 0,
                image_name: String::new(),
                cartridge_id: String::new(),
                country_code: 0,
                revision: 0,
            },
        }
    }
}

/// Why a raw ROM image is rejected, checked in this order: shorter than the header, a
/// size that is not a whole number of words, an unknown header byte layout.
pub open spec fn spec_raw_image_error(raw: Seq<u8>) -> Option<CartridgeLoadError> {
    if raw.len() < ROM_HEADER_SIZE {
        Some(CartridgeLoadError::HeaderTooSmall)
    } else if raw.len() % 4 != 0 {
        Some(CartridgeLoadError::SizeNotMultipleOf4)
    } else if spec_detect_layout(raw) is Err {
        Some(spec_detect_layout(raw)->Err_0)
    } else {
        spec_metadata_error(spec_normalize_bytes(raw, spec_detect_layout(raw)->Ok_0))
    }
}

pub fn load_cartridge(raw_bytes: Vec<u8>) -> (r: Result<Cartridge, CartridgeLoadError>)
    ensures
        match r {
            Ok(c) => {
                &&& spec_raw_image_error(raw_bytes@) is None
                &&& c.spec_source_layout() == spec_detect_layout(raw_bytes@)->Ok_0
                &&& c.spec_image() == spec_normalize_bytes(raw_bytes@, c.spec_source_layout())
                &&& metadata_matches(c.spec_metadata(), c.spec_image())
            },
            Err(e) => spec_raw_image_error(raw_bytes@) == Some(e),
        },
{
    let image = normalize_rom_image(raw_bytes)?;
    Ok(Cartridge { source_layout: image.source_layout, image: image.bytes, metadata: image.metadata })
}

pub fn normalize_rom_image(raw_bytes: Vec<u8>) -> (r: Result<NormalizedRomImage, CartridgeLoadError>)
    ensures
        match r {
            Ok(image) => {
                &&& spec_raw_image_error(raw_bytes@) is None
                &&& image.source_layout == spec_detect_layout(raw_bytes@)->Ok_0
                &&& image.bytes@ == spec_normalize_bytes(raw_bytes@, image.source_layout)
                &&& metadata_matches(image.metadata, image.bytes@)
            },
            Err(e) => spec_raw_image_error(raw_bytes@) == Some(e),
        },
{
    if raw_bytes.len() < ROM_HEADER_SIZE {
        return Err(CartridgeLoadError::HeaderTooSmall);
    }
    if raw_bytes.len() % 4 != 0 {
        return Err(CartridgeLoadError::SizeNotMultipleOf4);
    }
    let source_layout = detect_rom_source_layout(raw_bytes.as_slice())?;
    let bytes = normalize_rom_bytes(raw_bytes, source_layout);
    let metadata = parse_rom_metadata(bytes.as_slice())?;
    Ok(NormalizedRomImage { source_layout, bytes, metadata })
}

/// A span of `byte_count` bytes at `offset` lies inside an image of `size` bytes.
pub open spec fn spec_span_available(size: int, offset: int, byte_count: int) -> bool {
    offset + byte_count <= size
}

/// The header entry word and the first IPL3 word are reported when their bytes exist.
pub open spec fn spec_inspect_entry(image: Seq<u8>) -> CartridgeEntryInspection {
    let size = image.len() as int;
    let header = spec_span_available(size, CARTRIDGE_HEADER_ENTRY_WORD_OFFSET as int, 4);
    let ipl3_span = spec_span_available(
        size,
        CARTRIDGE_CANDIDATE_IPL3_START_OFFSET as int,
        CARTRIDGE_CANDIDATE_IPL3_BYTE_COUNT as int,
    );
    let ipl3_word = spec_span_available(size, CARTRIDGE_CANDIDATE_IPL3_START_OFFSET as int, 4);
    CartridgeEntryInspection {
        header_entry_word_available: header,
        header_entry_word: if header {
            spec_be_u32(image, CARTRIDGE_HEADER_ENTRY_WORD_OFFSET as int)
        } else {
            0
        },
        candidate_ipl3_span_available: ipl3_span,
        ipl3_first_word_available: ipl3_word,
        ipl3_first_word: if ipl3_word {
            spec_be_u32(image, CARTRIDGE_CANDIDATE_IPL3_START_OFFSET as int)
        } else {
            0
        },
        ..CartridgeEntryInspection::spec_default()
    }
}

pub fn inspect_cartridge_entry(cartridge: &Cartridge) -> (r: CartridgeEntryInspection)
    ensures
        r == spec_inspect_entry(cartridge.spec_image()),
{
    let mut inspection = CartridgeEntryInspection::default();
    let size = cartridge.size_bytes();
    if span_available(size, CARTRIDGE_HEADER_ENTRY_WORD_OFFSET, 4) {
        inspection.header_entry_word_available = true;
        inspection.header_entry_word = match read_cartridge_u32_be(
            cartridge,
            CARTRIDGE_HEADER_ENTRY_WORD_OFFSET,
        ) {
            Ok(word) => word,
            Err(_) => 0,
        };
    }
    if span_available(size, CARTRIDGE_CANDIDATE_IPL3_START_OFFSET, CARTRIDGE_CANDIDATE_IPL3_BYTE_COUNT) {
        inspection.candidate_ipl3_span_available = true;
    }
    if span_available(size, CARTRIDGE_CANDIDATE_IPL3_START_OFFSET, 4) {
        inspection.ipl3_first_word_available = true;
        inspection.ipl3_first_word = match read_cartridge_u32_be(
            cartridge,
            CARTRIDGE_CANDIDATE_IPL3_START_OFFSET,
        ) {
            Ok(word) => word,
            Err(_) => 0,
        };
    }
    inspection
}

fn span_available(size: usize, offset: u32, byte_count: u32) -> (r: bool)
    ensures
        r == spec_span_available(size as int, offset as int, byte_count as int),
{
    let span_offset = offset as usize;
    let span_byte_count = byte_count as usize;
    span_offset <= size && span_byte_count <= size - span_offset
}

fn read_cartridge_u32_be(cartridge: &Cartridge, offset: u32) -> (r: Result<u32, CartridgeReadError>)
    ensures
        offset + 4 <= cartridge.spec_image().len() && offset <= u32::MAX - 3 ==> r == Ok::<
            u32,
            CartridgeReadError,
        >(
            spec_be_u32(cartridge.spec_image(), offset as int),
        ),
{
    cartridge.read_u32_be(offset)
}

/// A cartridge that loads always holds the big-endian header magic in its first word,
/// and its image has the length of the raw input.
pub proof fn lemma_loaded_image_starts_with_magic(raw: Seq<u8>)
    requires
        spec_raw_image_error(raw) is None,
    ensures
        spec_be_u32(spec_normalize_bytes(raw, spec_detect_layout(raw)->Ok_0), 0) == 0x8037_1240,
        spec_normalize_bytes(raw, spec_detect_layout(raw)->Ok_0).len() == raw.len(),
{
}

/// Loading an image written in a layout gives back the big-endian image: a big-endian
/// image with the header magic, a whole number of words and a header that parses,
/// encoded in `layout`, is accepted, is detected as `layout`, and normalizes to exactly
/// the big-endian image.
pub proof fn lemma_load_round_trip(normalized: Seq<u8>, layout: RomSourceLayout)
    requires
        normalized.len() >= ROM_HEADER_SIZE,
        normalized.len() % 4 == 0,
        normalized[0] == 0x80 && normalized[1] == 0x37 && normalized[2] == 0x12 && normalized[3]
            == 0x40,
        spec_metadata_error(normalized) is None,
    ensures
        ({
            let raw = spec_normalize_bytes(normalized, layout);
            &&& raw.len() == normalized.len()
            &&& spec_detect_layout(raw) == Ok::<RomSourceLayout, CartridgeLoadError>(layout)
            &&& spec_normalize_bytes(raw, layout) == normalized
            &&& spec_raw_image_error(raw) is None
        }),
{
    crate::cartridge::byte_order::lemma_normalize_is_involution(normalized, layout);
    let raw = spec_normalize_bytes(normalized, layout);
    assert(raw[0] == normalized[spec_source_index(layout, normalized.len() as int, 0)]);
    assert(raw[1] == normalized[spec_source_index(layout, normalized.len() as int, 1)]);
    assert(raw[2] == normalized[spec_source_index(layout, normalized.len() as int, 2)]);
    assert(raw[3] == normalized[spec_source_index(layout, normalized.len() as int, 3)]);
}

} // verus!
