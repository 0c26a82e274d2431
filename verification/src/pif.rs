use vstd::prelude::*;

verus! {

/// The pinned regional PIF IPL2 layouts that boot handoff can name.
#[derive(Debug, Clone, Copy, PartialEq, Eq, Structural)]
pub enum PifIpl2Profile {
    NtscPinned,
    PalPinned,
    MpalPinned,
}

} // verus!
