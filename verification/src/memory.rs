//! The physical memory map and the in-RAM boot metadata block. The block
//! is written by the earlier boot stage at a fixed address; an offset of
//! all ones means the payload is not present.

use vstd::prelude::*;

verus! {

/// Start of the on-chip SRAM.
pub const SRAM: usize = 0x0002_0000;

/// Start of the DRAM.
pub const DRAM: usize = 0x4000_0000;

/// Default supervisor load address.
pub const KERNEL: usize = 0x4020_0000;

/// Physical address of the boot metadata block.
pub const META: usize = 0x0002_0068;

/// Sentinel offset: the payload is not present.
pub const NONE_OFFSET: u32 = 0xFFFF_FFFF;

/// Page size the device-tree staging offset is aligned to: two mebibytes.
pub const DTB_PAGE: u32 = 0x20_0000;

/// Where in DRAM the device-tree blob is staged: the last whole
/// two-mebibyte page below the memory size, capped at one gibibyte —
/// the largest multiple of the page size that is at most `mem_size - page`.
pub fn dtb_offset(mem_size: usize) -> (r: u32)
    requires
        mem_size as u32 >= DTB_PAGE,
    ensures
        ({
            let capped: int = if mem_size as u32 <= 0x4000_0000u32 {
                mem_size as u32 as int
            } else {
                0x4000_0000
            };
            r == ((capped - DTB_PAGE) / (DTB_PAGE as int)) * (DTB_PAGE as int)
        }),
{
    let size = #[verifier::truncate] (mem_size as u32);
    let capped = if size < 0x4000_0000 {
        size
    } else {
        0x4000_0000
    };
    ((capped - DTB_PAGE) / DTB_PAGE) * DTB_PAGE
}

/// The boot metadata block: which payloads the earlier stage staged in
/// DRAM, each as an offset from the start of DRAM, and whether they came
/// from flash.
#[derive(Clone, Copy, Debug, PartialEq, Eq, Structural)]
pub struct Meta {
    /// Whether the payloads were loaded from flash rather than pre-staged.
    pub from_flash: bool,
    /// Offset of this runtime's own image.
    pub see: u32,
    /// Offset of the supervisor kernel.
    pub kernel: u32,
    /// Offset of the device-tree blob.
    pub dtb: u32,
}

impl Default for Meta {
    /// The block before any stage wrote it: nothing present.
    fn default() -> (r: Meta)
        ensures
            r == (Meta { from_flash: false, see: NONE_OFFSET, kernel: NONE_OFFSET, dtb: NONE_OFFSET }),
    {
        Meta { from_flash: false, see: NONE_OFFSET, kernel: NONE_OFFSET, dtb: NONE_OFFSET }
    }
}

impl Meta {
    /// The absolute address of this runtime's own image, if present.
    pub fn see(&self) -> (r: Option<usize>)
        requires
            DRAM + self.see <= usize::MAX,
        ensures
            r == if self.see == NONE_OFFSET {
                Option::<usize>::None
            } else {
                Some((DRAM + self.see) as usize)
            },
    {
        if self.see == NONE_OFFSET {
            None
        } else {
            Some(DRAM + self.see as usize)
        }
    }

    /// The absolute address of the supervisor kernel, if present.
    pub fn kernel(&self) -> (r: Option<usize>)
        requires
            DRAM + self.kernel <= usize::MAX,
        ensures
            r == if self.kernel == NONE_OFFSET {
                Option::<usize>::None
            } else {
                Some((DRAM + self.kernel) as usize)
            },
    {
        if self.kernel == NONE_OFFSET {
            None
        } else {
            Some(DRAM + self.kernel as usize)
        }
    }

    /// The absolute address of the device-tree blob, if present.
    pub fn dtb(&self) -> (r: Option<usize>)
        requires
            DRAM + self.dtb <= usize::MAX,
        ensures
            r == if self.dtb == NONE_OFFSET {
                Option::<usize>::None
            } else {
                Some((DRAM + self.dtb) as usize)
            },
    {
        if self.dtb == NONE_OFFSET {
            None
        } else {
            Some(DRAM + self.dtb as usize)
        }
    }

    /// Record the offset of this runtime's own image.
    pub fn set_see(&mut self, val: u32)
        ensures
            *final(self) == (Meta { see: val, ..*old(self) }),
    {
        self.see = val;
    }

    /// Record the offset of the supervisor kernel.
    pub fn set_kernel(&mut self, val: u32)
        ensures
            *final(self) == (Meta { kernel: val, ..*old(self) }),
    {
        self.kernel = val;
    }

    /// Record the offset of the device-tree blob.
    pub fn set_dtb(&mut self, val: u32)
        ensures
            *final(self) == (Meta { dtb: val, ..*old(self) }),
    {
        self.dtb = val;
    }
}

} // verus!
