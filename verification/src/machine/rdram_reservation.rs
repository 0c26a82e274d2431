use vstd::prelude::*;

verus! {

/// The RDRAM range an LL left reserved for a later SC. A cleared reservation is invalid
/// with offset and width zero.
#[derive(Debug, Clone, Copy, PartialEq, Eq, Structural)]
pub struct CpuRdramReservation {
    pub valid: bool,
    pub rdram_offset: u32,
    pub width: usize,
}

/// The cleared reservation.
pub open spec fn spec_cleared_reservation() -> CpuRdramReservation {
    CpuRdramReservation { valid: false, rdram_offset: 0, width: 0 }
}

/// The end of a range, computed as a wrapping 64-bit addition.
pub open spec fn spec_range_end(begin: u32, width: usize) -> int {
    (begin as int + width as int) % 0x1_0000_0000_0000_0000
}

/// Whether the half-open ranges `[a, a + a_width)` and `[b, b + b_width)` overlap.
pub open spec fn spec_ranges_overlap(a: u32, a_width: usize, b: u32, b_width: usize) -> bool {
    a < spec_range_end(b, b_width) && b < spec_range_end(a, a_width)
}

/// The reservation after an RDRAM write of `width` bytes at `rdram_offset`: a valid
/// reservation that the write overlaps is cleared; anything else is kept.
pub open spec fn spec_after_rdram_write(
    r: CpuRdramReservation,
    rdram_offset: u32,
    width: usize,
) -> CpuRdramReservation {
    if r.valid && width != 0 && spec_ranges_overlap(rdram_offset, width, r.rdram_offset, r.width) {
        spec_cleared_reservation()
    } else {
        r
    }
}

impl CpuRdramReservation {
    pub fn new() -> (r: Self)
        ensures
            r == spec_cleared_reservation(),
    {
        Self { valid: false, rdram_offset: 0, width: 0 }
    }

    /// Reserves `width` bytes at `rdram_offset`, replacing any earlier reservation.
    pub fn stage(&mut self, rdram_offset: u32, width: usize)
        ensures
            *final(self) == (CpuRdramReservation { valid: true, rdram_offset, width }),
    {
        self.valid = true;
        self.rdram_offset = rdram_offset;
        self.width = width;
    }

    fn clear(&mut self)
        ensures
            *final(self) == spec_cleared_reservation(),
    {
        *self = Self::new();
    }

    pub fn invalidate_for_rdram_write(&mut self, rdram_offset: u32, width: usize)
        ensures
            *final(self) == spec_after_rdram_write(*old(self), rdram_offset, width),
    {
        if !self.valid || width == 0 {
            return;
        }
        if self.overlaps_rdram_range(rdram_offset, width) {
            self.clear();
        }
    }

    fn overlaps_rdram_range(&self, rdram_offset: u32, width: usize) -> (r: bool)
        ensures
            r == spec_ranges_overlap(rdram_offset, width, self.rdram_offset, self.width),
    {
        let write_begin = rdram_offset as u64;
        let write_end = write_begin.wrapping_add(width as u64);
        let reservation_begin = self.rdram_offset as u64;
        let reservation_end = reservation_begin.wrapping_add(self.width as u64);
        write_begin < reservation_end && reservation_begin < write_end
    }

    pub fn is_valid(&self) -> (r: bool)
        ensures
            r == self.valid,
    {
        self.valid
    }

    pub fn rdram_offset(&self) -> (r: u32)
        ensures
            r == self.rdram_offset,
    {
        self.rdram_offset
    }

    pub fn width(&self) -> (r: usize)
        ensures
            r == self.width,
    {
        self.width
    }
}

/// Overlap of two ranges does not depend on which one is the write.
pub proof fn lemma_overlap_is_symmetric(a: u32, a_width: usize, b: u32, b_width: usize)
    ensures
        spec_ranges_overlap(a, a_width, b, b_width) == spec_ranges_overlap(b, b_width, a, a_width),
{
}

/// An invalid reservation stays invalid through any write, and a write never makes a
/// reservation valid or moves it: the result is either the reservation or the cleared one.
pub proof fn lemma_write_only_clears(r: CpuRdramReservation, rdram_offset: u32, width: usize)
    ensures
        !r.valid ==> spec_after_rdram_write(r, rdram_offset, width) == r,
        spec_after_rdram_write(r, rdram_offset, width) == r || spec_after_rdram_write(
            r,
            rdram_offset,
            width,
        ) == spec_cleared_reservation(),
{
}

/// A write to the reserved bytes themselves always clears a nonempty reservation whose
/// range does not wrap.
pub proof fn lemma_write_to_reserved_range_clears(r: CpuRdramReservation)
    requires
        r.valid,
        r.width != 0,
        r.rdram_offset as int + r.width as int <= 0xffff_ffff_ffff_ffff,
    ensures
        spec_after_rdram_write(r, r.rdram_offset, r.width) == spec_cleared_reservation(),
{
}

} // verus!
