//! The flash metadata record: where each payload sits in flash and how
//! long it is. A size of all ones marks an absent payload.

use vstd::prelude::*;

verus! {

/// Flash position and size of one payload.
#[derive(Clone, Copy, Debug, PartialEq, Eq, Structural)]
pub struct MetaEntry {
    /// Byte offset of the payload in flash.
    pub offset: u32,
    /// Byte size of the payload; all ones when absent.
    pub size: u32,
}

/// Sentinel size: the payload is not present.
pub const NONE_SIZE: u32 = 0xFFFF_FFFF;

/// The flash metadata record: this runtime's own image, the supervisor
/// kernel and the device-tree blob.
#[derive(Clone, Copy, Debug, PartialEq, Eq, Structural)]
pub struct Meta {
    see: MetaEntry,
    kernel: MetaEntry,
    dtb: MetaEntry,
}

impl Default for Meta {
    /// The record before anything was written: every payload absent.
    fn default() -> (r: Meta)
        ensures
            r.see_spec() == (MetaEntry { offset: NONE_SIZE, size: NONE_SIZE }),
            r.kernel_spec() == (MetaEntry { offset: NONE_SIZE, size: NONE_SIZE }),
            r.dtb_spec() == (MetaEntry { offset: NONE_SIZE, size: NONE_SIZE }),
    {
        Meta {
            see: MetaEntry { offset: NONE_SIZE, size: NONE_SIZE },
            kernel: MetaEntry { offset: NONE_SIZE, size: NONE_SIZE },
            dtb: MetaEntry { offset: NONE_SIZE, size: NONE_SIZE },
        }
    }
}

impl Meta {
    /// The entry of this runtime's own image.
    pub closed spec fn see_spec(&self) -> MetaEntry {
        self.see
    }

    /// The entry of the supervisor kernel.
    pub closed spec fn kernel_spec(&self) -> MetaEntry {
        self.kernel
    }

    /// The entry of the device-tree blob.
    pub closed spec fn dtb_spec(&self) -> MetaEntry {
        self.dtb
    }

    /// Flash position and size of this runtime's own image, if present.
    pub fn see(&self) -> (r: Option<(u32, usize)>)
        ensures
            r == if self.see_spec().size == NONE_SIZE {
                Option::<(u32, usize)>::None
            } else {
                Some((self.see_spec().offset, self.see_spec().size as usize))
            },
    {
        if self.see.size == NONE_SIZE {
            None
        } else {
            Some((self.see.offset, self.see.size as usize))
        }
    }

    /// Flash position and size of the supervisor kernel, if present.
    pub fn kernel(&self) -> (r: Option<(u32, usize)>)
        ensures
            r == if self.kernel_spec().size == NONE_SIZE {
                Option::<(u32, usize)>::None
            } else {
                Some((self.kernel_spec().offset, self.kernel_spec().size as usize))
            },
    {
        if self.kernel.size == NONE_SIZE {
            None
        } else {
            Some((self.kernel.offset, self.kernel.size as usize))
        }
    }

    /// Flash position and size of the device-tree blob, if present.
    pub fn dtb(&self) -> (r: Option<(u32, usize)>)
        ensures
            r == if self.dtb_spec().size == NONE_SIZE {
                Option::<(u32, usize)>::None
            } else {
                Some((self.dtb_spec().offset, self.dtb_spec().size as usize))
            },
    {
        if self.dtb.size == NONE_SIZE {
            None
        } else {
            Some((self.dtb.offset, self.dtb.size as usize))
        }
    }

    /// Record where this runtime's own image sits in flash.
    pub fn set_see(&mut self, base: u32, size: u32)
        ensures
            final(self).see_spec() == (MetaEntry { offset: base, size }),
            final(self).kernel_spec() == old(self).kernel_spec(),
            final(self).dtb_spec() == old(self).dtb_spec(),
    {
        self.see = MetaEntry { offset: base, size };
    }

    /// Record where the supervisor kernel sits in flash.
    pub fn set_kernel(&mut self, base: u32, size: u32)
        ensures
            final(self).kernel_spec() == (MetaEntry { offset: base, size }),
            final(self).see_spec() == old(self).see_spec(),
            final(self).dtb_spec() == old(self).dtb_spec(),
    {
        self.kernel = MetaEntry { offset: base, size };
    }

    /// Record where the device-tree blob sits in flash.
    pub fn set_dtb(&mut self, base: u32, size: u32)
        ensures
            final(self).dtb_spec() == (MetaEntry { offset: base, size }),
            final(self).see_spec() == old(self).see_spec(),
            final(self).kernel_spec() == old(self).kernel_spec(),
    {
        self.dtb = MetaEntry { offset: base, size };
    }
}

} // verus!
