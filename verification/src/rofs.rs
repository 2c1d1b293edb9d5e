//! The payload directory of the read-only boot flash: eight fixed slots,
//! each naming where a payload is to be copied and how long it is.

use vstd::prelude::*;

verus! {

/// One payload slot: its target offset in DRAM and its size. A size of
/// zero marks an empty slot.
#[derive(Clone, Copy, Debug, PartialEq, Eq, Structural)]
pub struct PayloadEntry {
    /// Offset in DRAM the payload is copied to.
    pub target_offset: u32,
    /// Byte size of the payload.
    pub size: u32,
}

impl Default for PayloadEntry {
    /// An empty slot.
    fn default() -> (r: PayloadEntry)
        ensures
            r == (PayloadEntry { target_offset: 0, size: 0 }),
    {
        PayloadEntry { target_offset: 0, size: 0 }
    }
}

/// The eight payload slots at the head of the flash image.
#[derive(Clone, Copy, Debug)]
pub struct PayloadMeta(pub [PayloadEntry; 8]);

impl Default for PayloadMeta {
    /// A directory of empty slots.
    fn default() -> (r: PayloadMeta)
        ensures
            r.0@ == Seq::new(8, |i: int| PayloadEntry { target_offset: 0, size: 0 }),
    {
        let r = PayloadMeta([PayloadEntry { target_offset: 0, size: 0 }; 8]);
        proof {
            assert(r.0@ =~= Seq::new(8, |i: int| PayloadEntry { target_offset: 0, size: 0 }));
        }
        r
    }
}

/// Whether a slot holds a payload: its size is neither zero nor all ones.
pub open spec fn occupied_spec(e: PayloadEntry) -> bool {
    0 < e.size < 0xFFFF_FFFFu32
}

impl PayloadMeta {
    /// How many slots hold a payload.
    pub fn count_payloads(&self) -> (r: usize)
        ensures
            r == self.0@.filter(|e: PayloadEntry| occupied_spec(e)).len(),
    {
        let mut count: usize = 0;
        let mut i: usize = 0;
        while i < 8
            invariant
                i <= 8,
                self.0@.len() == 8,
                count == self.0@.take(i as int).filter(|e: PayloadEntry| occupied_spec(e)).len(),
            decreases 8 - i,
        {
            let e = self.0[i];
            proof {
                assert(self.0@.take(i + 1).drop_last() =~= self.0@.take(i as int));
                reveal_with_fuel(Seq::filter, 2);
                assert(self.0@.take(i + 1).filter(|e: PayloadEntry| occupied_spec(e))
                    == if occupied_spec(self.0@[i as int]) {
                    self.0@.take(i as int).filter(|e: PayloadEntry| occupied_spec(e)).push(
                        self.0@[i as int],
                    )
                } else {
                    self.0@.take(i as int).filter(|e: PayloadEntry| occupied_spec(e))
                });
            }
            if 0 < e.size && e.size < 0xFFFF_FFFF {
                count = count + 1;
            }
            i = i + 1;
        }
        proof {
            assert(self.0@.take(8) =~= self.0@);
        }
        count
    }
}

} // verus!
