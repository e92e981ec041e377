use vstd::prelude::*;

verus! {

/// `x + 1`, held at `u16::MAX`.
pub open spec fn saturating_inc_u16(x: u16) -> u16 {
    if x == u16::MAX {
        x
    } else {
        (x + 1) as u16
    }
}

/// `x + 1`, held at `u32::MAX`.
pub open spec fn saturating_inc_u32(x: u32) -> u32 {
    if x == u32::MAX {
        x
    } else {
        (x + 1) as u32
    }
}

/// `x + y`, held at `u32::MAX`.
pub open spec fn saturating_add_u32(x: u32, y: u32) -> u32 {
    if x + y > u32::MAX {
        u32::MAX
    } else {
        (x + y) as u32
    }
}

/// `x + y`, held at `u64::MAX`.
pub open spec fn saturating_add_u64(x: u64, y: u64) -> u64 {
    if x + y > u64::MAX {
        u64::MAX
    } else {
        (x + y) as u64
    }
}

} // verus!
