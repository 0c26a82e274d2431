use crate::rdram::RDRAM_SIZE_BYTES;
use crate::text::{push_decimal, push_str, spec_decimal};
use vstd::prelude::*;

verus! {

pub const DIRECT_SEGMENT_MASK: u32 = 0xe000_0000;

pub const DIRECT_SEGMENT_OFFSET_MASK: u32 = 0x1fff_ffff;

pub const KSEG0_RDRAM_BASE: u32 = 0x8000_0000;

pub const KSEG1_RDRAM_BASE: u32 = 0xa000_0000;

/// Size of one direct-mapped CPU segment (KSEG0 or KSEG1).
pub open spec fn direct_segment_size() -> int {
    0x2000_0000
}

/// A 32-bit CPU virtual address.
#[derive(Debug, Clone, Copy, PartialEq, Eq, Structural)]
pub struct CpuAddress(pub u32);

impl View for CpuAddress {
    type V = u32;

    open spec fn view(&self) -> u32 {
        self.0
    }
}

impl CpuAddress {
    pub fn new(value: u32) -> (r: Self)
        ensures
            r@ == value,
    {
        Self(value)
    }

    pub fn value(self) -> (r: u32)
        ensures
            r == self@,
    {
        self.0
    }
}

/// A byte offset into RDRAM.
#[derive(Debug, Clone, Copy, PartialEq, Eq, Structural)]
pub struct RdramOffset(pub u32);

impl View for RdramOffset {
    type V = u32;

    open spec fn view(&self) -> u32 {
        self.0
    }
}

impl RdramOffset {
    pub fn new(value: u32) -> (r: Self)
        ensures
            r@ == value,
    {
        Self(value)
    }

    pub fn value(self) -> (r: u32)
        ensures
            r == self@,
    {
        self.0
    }

    pub fn as_usize(self) -> (r: usize)
        ensures
            r == self@,
    {
        self.0 as usize
    }
}

#[derive(Debug, Clone, Copy, PartialEq, Eq, Structural)]
pub enum CpuAddressTarget {
    DirectRdram(RdramOffset),
    Unsupported,
}

#[derive(Debug, Clone, Copy, PartialEq, Eq, Structural)]
pub enum CpuDataAccessKind {
    Read,
    Write,
}

impl CpuDataAccessKind {
    pub fn name(self) -> (r: &'static str)
        ensures
            r@ == self.spec_name(),
    {
        match self {
            CpuDataAccessKind::Read => {
                let s = "Read";
                proof {
                    reveal_strlit("Read");
                }
                s
            },
            CpuDataAccessKind::Write => {
                let s = "Write";
                proof {
                    reveal_strlit("Write");
                }
                s
            },
        }
    }

    /// The variant name, as written in diagnostic messages.
    pub open spec fn spec_name(self) -> Seq<char> {
        match self {
            CpuDataAccessKind::Read => seq!['R', 'e', 'a', 'd'],
            CpuDataAccessKind::Write => seq!['W', 'r', 'i', 't', 'e'],
        }
    }
}

#[derive(Debug, Clone, Copy, PartialEq, Eq, Structural)]
pub enum CpuAddressErrorKind {
    AddressErrorLoad,
    AddressErrorStore,
}

impl CpuAddressErrorKind {
    pub open spec fn spec_cause_exception_code(self) -> u8 {
        match self {
            CpuAddressErrorKind::AddressErrorLoad => 4,
            CpuAddressErrorKind::AddressErrorStore => 5,
        }
    }

    pub open spec fn spec_short_name(self) -> Seq<char> {
        match self {
            CpuAddressErrorKind::AddressErrorLoad => seq!['A', 'd', 'E', 'L'],
            CpuAddressErrorKind::AddressErrorStore => seq!['A', 'd', 'E', 'S'],
        }
    }

    pub fn cause_exception_code(self) -> (r: u8)
        ensures
            r == self.spec_cause_exception_code(),
    {
        match self {
            CpuAddressErrorKind::AddressErrorLoad => 4,
            CpuAddressErrorKind::AddressErrorStore => 5,
        }
    }

    pub fn short_name(self) -> (r: &'static str)
        ensures
            r@ == self.spec_short_name(),
    {
        match self {
            CpuAddressErrorKind::AddressErrorLoad => {
                let s = "AdEL";
                proof {
                    reveal_strlit("AdEL");
                }
                s
            },
            CpuAddressErrorKind::AddressErrorStore => {
                let s = "AdES";
                proof {
                    reveal_strlit("AdES");
                }
                s
            },
        }
    }
}

#[derive(Debug, Clone, Copy, PartialEq, Eq, Structural)]
pub enum CpuDataWidth {
    Byte,
    Halfword,
    Word,
    Doubleword,
}

impl CpuDataWidth {
    pub open spec fn spec_bytes(self) -> usize {
        match self {
            CpuDataWidth::Byte => 1,
            CpuDataWidth::Halfword => 2,
            CpuDataWidth::Word => 4,
            CpuDataWidth::Doubleword => 8,
        }
    }

    pub fn bytes(self) -> (r: usize)
        ensures
            r == self.spec_bytes(),
    {
        match self {
            CpuDataWidth::Byte => 1,
            CpuDataWidth::Halfword => 2,
            CpuDataWidth::Word => 4,
            CpuDataWidth::Doubleword => 8,
        }
    }

    fn alignment_mask(self) -> (r: u32)
        ensures
            r + 1 == self.spec_bytes(),
    {
        match self {
            CpuDataWidth::Byte => 0,
            CpuDataWidth::Halfword => 0x1,
            CpuDataWidth::Word => 0x3,
            CpuDataWidth::Doubleword => 0x7,
        }
    }
}

/// A CPU data access whose address is not a multiple of the access width.
#[derive(Debug, Clone, Copy, PartialEq, Eq, Structural)]
pub struct CpuDataAlignmentError {
    pub access_kind: CpuDataAccessKind,
    pub address: CpuAddress,
    pub width: CpuDataWidth,
}

impl CpuDataAlignmentError {
    /// The error message.
    pub fn to_string(&self) -> (r: String)
        ensures
            r@ == "CPU data "@ + self.access_kind.spec_name() + " requires naturally aligned "@
                + spec_decimal(self.width.spec_bytes() as nat) + "-byte address: "@ + spec_decimal(
                self.address@ as nat,
            ),
    {
        let mut s = String::new();
        push_str(&mut s, "CPU data ");
        push_str(&mut s, self.access_kind.name());
        push_str(&mut s, " requires naturally aligned ");
        push_decimal(&mut s, self.width.bytes() as u64);
        push_str(&mut s, "-byte address: ");
        push_decimal(&mut s, self.address.value() as u64);
        s
    }

    pub fn access_kind(self) -> (r: CpuDataAccessKind)
        ensures
            r == self.access_kind,
    {
        self.access_kind
    }

    pub fn address(self) -> (r: CpuAddress)
        ensures
            r == self.address,
    {
        self.address
    }

    pub fn width(self) -> (r: CpuDataWidth)
        ensures
            r == self.width,
    {
        self.width
    }
}

/// The address-error exception selected for a misaligned CPU data access.
#[derive(Debug, Clone, Copy, PartialEq, Eq, Structural)]
pub struct CpuDataAddressError {
    pub address: CpuAddress,
    pub width: CpuDataWidth,
    pub access_kind: CpuDataAccessKind,
    pub exception_kind: CpuAddressErrorKind,
}

impl CpuDataAddressError {
    /// The error message.
    pub fn to_string(&self) -> (r: String)
        ensures
            r@ == "CPU data "@ + self.access_kind.spec_name() + " selected "@
                + self.exception_kind.spec_short_name() + " for "@ + spec_decimal(
                self.width.spec_bytes() as nat,
            ) + "-byte address error at "@ + spec_decimal(self.address@ as nat),
    {
        let mut s = String::new();
        push_str(&mut s, "CPU data ");
        push_str(&mut s, self.access_kind.name());
        push_str(&mut s, " selected ");
        push_str(&mut s, self.exception_kind.short_name());
        push_str(&mut s, " for ");
        push_decimal(&mut s, self.width.bytes() as u64);
        push_str(&mut s, "-byte address error at ");
        push_decimal(&mut s, self.address.value() as u64);
        s
    }

    pub fn address(self) -> (r: CpuAddress)
        ensures
            r == self.address,
    {
        self.address
    }

    pub fn bad_vaddr(self) -> (r: CpuAddress)
        ensures
            r == self.address,
    {
        self.address
    }

    pub fn width(self) -> (r: CpuDataWidth)
        ensures
            r == self.width,
    {
        self.width
    }

    pub fn access_kind(self) -> (r: CpuDataAccessKind)
        ensures
            r == self.access_kind,
    {
        self.access_kind
    }

    pub fn exception_kind(self) -> (r: CpuAddressErrorKind)
        ensures
            r == self.exception_kind,
    {
        self.exception_kind
    }

    pub fn cause_exception_code(self) -> (r: u8)
        ensures
            r == self.exception_kind.spec_cause_exception_code(),
    {
        self.exception_kind.cause_exception_code()
    }
}

impl From<CpuDataAlignmentError> for CpuDataAddressError {
    fn from(error: CpuDataAlignmentError) -> (r: Self) {
        select_cpu_data_address_error(error)
    }
}

impl vstd::std_specs::convert::FromSpecImpl<CpuDataAlignmentError> for CpuDataAddressError {
    open spec fn obeys_from_spec() -> bool {
        true
    }

    open spec fn from_spec(error: CpuDataAlignmentError) -> Self {
        spec_address_error_for_access(error.access_kind, error.address, error.width)
    }
}

/// An exception entry that could not be taken; records the CPU control flow and status.
#[derive(Debug, Clone, Copy, PartialEq, Eq, Structural)]
pub struct CpuAddressErrorExceptionEntryError {
    pub pc: CpuAddress,
    pub next_pc: CpuAddress,
    pub status: u32,
}

impl CpuAddressErrorExceptionEntryError {
    /// The error message.
    pub fn to_string(&self) -> (r: String)
        ensures
            r@ == "CPU data address-error exception entry blocked: pc="@ + spec_decimal(
                self.pc@ as nat,
            ) + " next_pc="@ + spec_decimal(self.next_pc@ as nat) + " status="@ + spec_decimal(
                self.status as nat,
            ),
    {
        let mut s = String::new();
        push_str(&mut s, "CPU data address-error exception entry blocked: pc=");
        push_decimal(&mut s, self.pc.value() as u64);
        push_str(&mut s, " next_pc=");
        push_decimal(&mut s, self.next_pc.value() as u64);
        push_str(&mut s, " status=");
        push_decimal(&mut s, self.status as u64);
        s
    }

    pub fn new(pc: CpuAddress, next_pc: CpuAddress, status: u32) -> (r: Self)
        ensures
            r.pc == pc,
            r.next_pc == next_pc,
            r.status == status,
    {
        Self { pc, next_pc, status }
    }

    pub fn pc(self) -> (r: CpuAddress)
        ensures
            r == self.pc,
    {
        self.pc
    }

    pub fn next_pc(self) -> (r: CpuAddress)
        ensures
            r == self.next_pc,
    {
        self.next_pc
    }

    pub fn status(self) -> (r: u32)
        ensures
            r == self.status,
    {
        self.status
    }
}

/// An access of `width` bytes at `address` is naturally aligned.
pub open spec fn is_naturally_aligned(address: u32, width: CpuDataWidth) -> bool {
    address as int % width.spec_bytes() as int == 0
}

pub fn check_cpu_data_alignment(
    access_kind: CpuDataAccessKind,
    address: CpuAddress,
    width: CpuDataWidth,
) -> (r: Result<(), CpuDataAlignmentError>)
    ensures
        r is Ok <==> is_naturally_aligned(address@, width),
        r is Err ==> r->Err_0 == (CpuDataAlignmentError { access_kind, address, width }),
{
    let mask = width.alignment_mask();
    let value = address.value();
    proof {
        lemma_low_mask_is_remainder(value, mask);
    }
    if (value & mask) != 0 {
        return Err(CpuDataAlignmentError { access_kind, address, width });
    }
    Ok(())
}

proof fn lemma_low_mask_is_remainder(value: u32, mask: u32)
    requires
        mask == 0 || mask == 1 || mask == 3 || mask == 7,
    ensures
        (value & mask) as int == value as int % (mask as int + 1),
{
    lemma_low_masks(value);
}

proof fn lemma_low_masks(value: u32)
    by (bit_vector)
    ensures
        value & 0 == 0,
        value & 1 == value % 2,
        value & 3 == value % 4,
        value & 7 == value % 8,
{
}

proof fn lemma_segment_bits(value: u32)
    by (bit_vector)
    ensures
        (value & 0xe000_0000u32 == 0x8000_0000u32) == (value / 0x2000_0000u32 == 4u32),
        (value & 0xe000_0000u32 == 0xa000_0000u32) == (value / 0x2000_0000u32 == 5u32),
        value & 0x1fff_ffffu32 == value % 0x2000_0000u32,
{
}

/// The address error selected for an access: loads raise AdEL, stores raise AdES.
pub open spec fn spec_address_error_for_access(
    access_kind: CpuDataAccessKind,
    address: CpuAddress,
    width: CpuDataWidth,
) -> CpuDataAddressError {
    CpuDataAddressError {
        address,
        width,
        access_kind,
        exception_kind: match access_kind {
            CpuDataAccessKind::Read => CpuAddressErrorKind::AddressErrorLoad,
            CpuDataAccessKind::Write => CpuAddressErrorKind::AddressErrorStore,
        },
    }
}

pub fn select_cpu_data_address_error(error: CpuDataAlignmentError) -> (r: CpuDataAddressError)
    ensures
        r == spec_address_error_for_access(error.access_kind, error.address, error.width),
{
    select_cpu_data_address_error_for_access(error.access_kind(), error.address(), error.width())
}

pub fn select_cpu_data_address_error_for_access(
    access_kind: CpuDataAccessKind,
    address: CpuAddress,
    width: CpuDataWidth,
) -> (r: CpuDataAddressError)
    ensures
        r == spec_address_error_for_access(access_kind, address, width),
{
    let exception_kind = match access_kind {
        CpuDataAccessKind::Read => CpuAddressErrorKind::AddressErrorLoad,
        CpuDataAccessKind::Write => CpuAddressErrorKind::AddressErrorStore,
    };
    CpuDataAddressError { address, width, access_kind, exception_kind }
}

/// The physical address reached through KSEG0 or KSEG1, which map the low 512 MiB directly.
pub open spec fn spec_direct_physical_address(address: u32) -> Option<u32> {
    let segment = address as int / direct_segment_size();
    if segment == 4 || segment == 5 {
        Some((address as int % direct_segment_size()) as u32)
    } else {
        None
    }
}

/// Where an access of `width` bytes at a CPU address lands when only direct RDRAM is routed.
pub open spec fn spec_classify_direct_rdram(address: u32, width: usize) -> CpuAddressTarget {
    match spec_direct_physical_address(address) {
        Some(physical) => if 1 <= width <= RDRAM_SIZE_BYTES && physical + width
            <= RDRAM_SIZE_BYTES {
            CpuAddressTarget::DirectRdram(RdramOffset(physical))
        } else {
            CpuAddressTarget::Unsupported
        },
        None => CpuAddressTarget::Unsupported,
    }
}

pub fn classify_direct_rdram_address(cpu_address: CpuAddress, width: usize) -> (r:
    CpuAddressTarget)
    ensures
        r == spec_classify_direct_rdram(cpu_address@, width),
{
    let physical_address = match translate_direct_cpu_physical_address(cpu_address) {
        Some(physical_address) => physical_address,
        None => return CpuAddressTarget::Unsupported,
    };
    match translate_cpu_physical_rdram_address(physical_address, width) {
        Some(rdram_offset) => CpuAddressTarget::DirectRdram(rdram_offset),
        None => CpuAddressTarget::Unsupported,
    }
}

pub fn translate_direct_cpu_physical_address(cpu_address: CpuAddress) -> (r: Option<u32>)
    ensures
        r == spec_direct_physical_address(cpu_address@),
{
    let value = cpu_address.value();
    let direct_segment = value & DIRECT_SEGMENT_MASK;
    proof {
        lemma_segment_bits(value);
    }
    if direct_segment != KSEG0_RDRAM_BASE && direct_segment != KSEG1_RDRAM_BASE {
        return None;
    }
    Some(value & DIRECT_SEGMENT_OFFSET_MASK)
}

fn translate_cpu_physical_rdram_address(physical_address: u32, width: usize) -> (r: Option<
    RdramOffset,
>)
    ensures
        r == (if 1 <= width <= RDRAM_SIZE_BYTES && physical_address + width <= RDRAM_SIZE_BYTES {
            Some(RdramOffset(physical_address))
        } else {
            None
        }),
{
    if width == 0 || width > RDRAM_SIZE_BYTES {
        return None;
    }
    let offset = physical_address as usize;
    let last_offset = RDRAM_SIZE_BYTES - width;
    if offset > last_offset {
        return None;
    }
    Some(RdramOffset::new(physical_address))
}

/// A direct-RDRAM classification always names a span that lies entirely inside RDRAM.
pub proof fn lemma_direct_rdram_span_in_range(address: u32, width: usize)
    requires
        spec_classify_direct_rdram(address, width) is DirectRdram,
    ensures
        ({
            let offset = spec_classify_direct_rdram(address, width)->DirectRdram_0;
            &&& width >= 1
            &&& offset@ + width <= RDRAM_SIZE_BYTES
            &&& offset@ == address as int % direct_segment_size()
        }),
{
}

/// KSEG0 and KSEG1 alias the same physical RDRAM: an address and its twin in the
/// other segment classify to the same target.
pub proof fn lemma_kseg0_kseg1_alias(offset: u32, width: usize)
    requires
        offset < direct_segment_size(),
    ensures
        spec_classify_direct_rdram((0x8000_0000 + offset) as u32, width)
            == spec_classify_direct_rdram((0xa000_0000 + offset) as u32, width),
{
}

/// Selecting the address error never changes the faulting address, width or access kind,
/// and the cause code is 4 for loads and 5 for stores.
pub proof fn lemma_address_error_preserves_fault(
    access_kind: CpuDataAccessKind,
    address: CpuAddress,
    width: CpuDataWidth,
)
    ensures
        ({
            let e = spec_address_error_for_access(access_kind, address, width);
            &&& e.address == address
            &&& e.width == width
            &&& e.access_kind == access_kind
            &&& e.exception_kind.spec_cause_exception_code() == (match access_kind {
                CpuDataAccessKind::Read => 4u8,
                CpuDataAccessKind::Write => 5u8,
            })
        }),
{
}

/// Byte accesses are aligned at every address, so they never raise an address error.
pub proof fn lemma_byte_access_always_aligned(address: u32)
    ensures
        is_naturally_aligned(address, CpuDataWidth::Byte),
{
}

} // verus!
