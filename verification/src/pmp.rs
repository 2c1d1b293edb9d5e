//! Physical memory protection. [`set_pmp`] computes the four-region
//! top-of-range table that walls the supervisor off from the firmware:
//! everything below the peripherals denied, peripherals and low memory
//! read/write, the firmware window denied, the rest of RAM
//! read/write/execute, and a read/write tail for everything above. The
//! shell writes the table into the `pmpcfg`/`pmpaddr` registers verbatim;
//! [`pmp_grants`] is the matching model of what the hardware then permits.

use crate::region::Region;
use vstd::prelude::*;

verus! {

/// Configuration bit: read permission.
pub const PMP_R: u8 = 0x1;

/// Configuration bit: write permission.
pub const PMP_W: u8 = 0x2;

/// Configuration bit: execute permission.
pub const PMP_X: u8 = 0x4;

/// Address-matching field: entry disabled.
pub const PMP_A_OFF: u8 = 0x0;

/// Address-matching field: top-of-range.
pub const PMP_A_TOR: u8 = 0x8;

/// Address-matching field: naturally aligned four-byte range.
pub const PMP_A_NA4: u8 = 0x10;

/// Address-matching field: naturally aligned power-of-two range.
pub const PMP_A_NAPOT: u8 = 0x18;

/// Mask of the address-matching field inside a configuration byte.
pub const PMP_A_MASK: u8 = 0x18;

/// One protection entry: the configuration byte and the address register,
/// which holds the bound shifted right by two.
#[derive(Clone, Copy, Debug, PartialEq, Eq, Structural)]
pub struct PmpEntry {
    /// Permission and address-matching bits.
    pub cfg: u8,
    /// Contents of the address register: a byte address divided by four.
    pub addr: usize,
}

/// The address-register value below a top-of-range entry: the previous
/// entry's register, or zero for the first entry.
pub open spec fn pmp_prev_addr(t: Seq<PmpEntry>, i: int) -> usize {
    if i == 0 {
        0
    } else {
        t[i - 1].addr
    }
}

/// The lowest-numbered top-of-range entry at or above `i` that matches the
/// byte address `a`, or -1 when none does. An entry matches when `a / 4`
/// lies between the previous address register and its own.
pub open spec fn pmp_first_match(t: Seq<PmpEntry>, a: usize, i: int) -> int
    decreases t.len() - i when 0 <= i <= t.len()
{
    if i >= t.len() {
        -1
    } else if t[i].cfg & PMP_A_MASK == PMP_A_TOR && pmp_prev_addr(t, i) <= a / 4 && a / 4
        < t[i].addr {
        i
    } else {
        pmp_first_match(t, a, i + 1)
    }
}

/// The permission bits a supervisor access to byte address `a` is granted
/// under a table of top-of-range entries: those of the first matching
/// entry, or none at all when no entry matches.
pub open spec fn pmp_grants_spec(t: Seq<PmpEntry>, a: usize) -> u8 {
    let i = pmp_first_match(t, a, 0);
    if i >= 0 {
        t[i].cfg & (PMP_R | PMP_W | PMP_X)
    } else {
        0
    }
}

/// The table [`set_pmp`] programs, as a function of the memory range and
/// the supervisor start address.
pub open spec fn set_pmp_spec(mem: Region, kernel: usize) -> Seq<PmpEntry> {
    seq![
        PmpEntry { cfg: PMP_A_OFF, addr: 0 },
        PmpEntry { cfg: PMP_A_TOR | PMP_R | PMP_W, addr: mem.start / 4 },
        PmpEntry { cfg: PMP_A_TOR, addr: kernel / 4 },
        PmpEntry { cfg: PMP_A_TOR | PMP_R | PMP_W | PMP_X, addr: mem.end / 4 },
        PmpEntry { cfg: PMP_A_TOR | PMP_R | PMP_W, addr: (usize::MAX / 2 + 1) as usize },
    ]
}

/// Compute the protection table: peripherals and low memory read/write up
/// to the start of RAM, the firmware window from there to the supervisor
/// start denied, the rest of RAM read/write/execute up to the memory
/// ceiling, and a read/write tail. A memory bound out of order is
/// undefined at the hardware level, so the boot sequence owes the ordering
/// precondition.
pub fn set_pmp(mem: Region, kernel: usize) -> (r: [PmpEntry; 5])
    requires
        mem.start <= kernel,
        kernel <= mem.end,
    ensures
        r@ == set_pmp_spec(mem, kernel),
{
    let r = [
        PmpEntry { cfg: PMP_A_OFF, addr: 0 },
        PmpEntry { cfg: PMP_A_TOR | PMP_R | PMP_W, addr: mem.start / 4 },
        PmpEntry { cfg: PMP_A_TOR, addr: kernel / 4 },
        PmpEntry { cfg: PMP_A_TOR | PMP_R | PMP_W | PMP_X, addr: mem.end / 4 },
        PmpEntry { cfg: PMP_A_TOR | PMP_R | PMP_W, addr: usize::MAX / 2 + 1 },
    ];
    proof {
        assert(r@ =~= set_pmp_spec(mem, kernel));
    }
    r
}

/// The permission bits granted to a supervisor access at byte address
/// `addr`: the executable counterpart of [`pmp_grants_spec`].
pub fn pmp_grants(t: &[PmpEntry; 5], addr: usize) -> (p: u8)
    ensures
        p == pmp_grants_spec(t@, addr),
{
    let mut i: usize = 0;
    let mut prev: usize = 0;
    while i < 5
        invariant
            i <= 5,
            prev == pmp_prev_addr(t@, i as int),
            pmp_first_match(t@, addr, 0) == pmp_first_match(t@, addr, i as int),
        decreases 5 - i,
    {
        let e = t[i];
        if e.cfg & PMP_A_MASK == PMP_A_TOR && prev <= addr / 4 && addr / 4 < e.addr {
            return e.cfg & (PMP_R | PMP_W | PMP_X);
        }
        prev = e.addr;
        i = i + 1;
    }
    0
}

} // verus!
