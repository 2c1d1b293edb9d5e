//! The busy-indicator animation: an arrow that walks back and forth
//! between two bars, redrawn in place with backspaces. Each call renders
//! the bytes of one frame; the caller forwards them to the byte sink and
//! paces the loop.

use crate::logging::Out;
use vstd::prelude::*;
use vstd::string::StringSliceAdditionalSpecFns;

verus! {

/// The backspace byte the animation repositions the cursor with.
pub const BS: u8 = 8;

/// The animation state: the length of the track between the bars, the
/// arrow's position on it, and its direction (`true` is rightward).
#[derive(Clone, Copy, Debug, PartialEq, Eq, Structural)]
pub struct Arrow {
    /// Length of the track the arrow walks on.
    pub len: usize,
    /// Position of the arrow on the track.
    pub pos: usize,
    /// Direction of travel; `true` walks right.
    pub dir: bool,
}

/// A run of `n` backspaces.
pub open spec fn bs_spec(n: nat) -> Seq<u8> {
    Seq::new(n, |i: int| 8u8)
}

/// A run of `n` spaces.
pub open spec fn spaces_spec(n: nat) -> Seq<u8> {
    Seq::new(n, |i: int| 32u8)
}

/// The animation state is sound: the arrow sits on the track.
pub open spec fn arrow_wf_spec(a: Arrow) -> bool {
    a.pos <= a.len && a.len < usize::MAX
}

/// The frame drawn by [`Arrow::init`]: the left bar, a blank track of
/// `len - 4` cells, and the arrow resting at the right bar.
pub open spec fn init_frame_spec(len: usize) -> Seq<u8> {
    "|".spec_bytes() + spaces_spec((len - 4) as nat) + "<<|".spec_bytes()
}

/// The next animation state: at the end of the track the arrow turns
/// around, otherwise it takes one step in its direction.
pub open spec fn arrow_step_spec(a: Arrow) -> Arrow {
    if a.pos == (if a.dir {
        a.len
    } else {
        0
    }) {
        Arrow { dir: !a.dir, ..a }
    } else if a.dir {
        Arrow { pos: (a.pos + 1) as usize, ..a }
    } else {
        Arrow { pos: (a.pos - 1) as usize, ..a }
    }
}

/// The bytes of one redrawn frame: backspaces to the arrow's old place,
/// the cursor adjustment of the move (or of the turn), the arrow in its
/// new direction, the blank rest of the track, and the right bar.
pub open spec fn arrow_frame_spec(a: Arrow) -> Seq<u8> {
    let s = arrow_step_spec(a);
    bs_spec((a.len - a.pos + 1) as nat) + (if a.pos == (if a.dir {
        a.len
    } else {
        0
    }) {
        seq![8u8, 8u8]
    } else if a.dir {
        seq![8u8, 8u8, 32u8]
    } else {
        seq![8u8, 32u8, 8u8, 8u8, 8u8]
    }) + (if s.dir {
        ">>".spec_bytes()
    } else {
        "<<".spec_bytes()
    }) + spaces_spec((s.len - s.pos) as nat) + "|".spec_bytes()
}

impl Arrow {
    /// Start the animation on a display `len` columns wide and render the
    /// initial frame: the arrow rests at the right bar, about to walk
    /// left... or rather, pointing left while the state walks rightward
    /// from the left end, exactly as the redraw sequence expects.
    pub fn init(len: usize) -> (r: (Arrow, Vec<u8>))
        requires
            4 <= len < usize::MAX,
        ensures
            r.0 == (Arrow { len: (len - 4) as usize, pos: 0, dir: true }),
            arrow_wf_spec(r.0),
            r.1@ == init_frame_spec(len),
    {
        let mut out = Out::new();
        out.put_bytes("|".as_bytes());
        let mut i: usize = 1;
        while i < len - 3
            invariant
                len >= 4,
                1 <= i <= len - 3,
                out.0@ == "|".spec_bytes() + spaces_spec((i - 1) as nat),
            decreases len - 3 - i,
        {
            out.put_byte(32);
            i = i + 1;
            proof {
                assert(out.0@ =~= "|".spec_bytes() + spaces_spec((i - 1) as nat));
            }
        }
        out.put_bytes("<<|".as_bytes());
        proof {
            assert(out.0@ =~= init_frame_spec(len));
        }
        (Arrow { len: len - 4, pos: 0, dir: true }, out.0)
    }

    /// Advance the animation by one state and render the frame that
    /// redraws it in place.
    pub fn next(&mut self) -> (r: Vec<u8>)
        requires
            arrow_wf_spec(*old(self)),
        ensures
            *final(self) == arrow_step_spec(*old(self)),
            arrow_wf_spec(*final(self)),
            r@ == arrow_frame_spec(*old(self)),
    {
        let mut out = Out::new();
        // Move the cursor back to the right bar.
        let back = self.len - self.pos;
        let mut i: usize = 0;
        while i <= back
            invariant
                back < usize::MAX,
                i <= back + 1,
                out.0@ == bs_spec(i as nat),
            decreases back + 1 - i,
        {
            out.put_byte(8);
            i = i + 1;
            proof {
                assert(out.0@ =~= bs_spec(i as nat));
            }
        }
        // Take the step, emitting the cursor adjustment of the move.
        if self.pos == (if self.dir {
            self.len
        } else {
            0
        }) {
            self.dir = !self.dir;
            out.put_byte(8);
            out.put_byte(8);
        } else if self.dir {
            self.pos = self.pos + 1;
            out.put_byte(8);
            out.put_byte(8);
            out.put_byte(32);
        } else {
            self.pos = self.pos - 1;
            out.put_byte(8);
            out.put_byte(32);
            out.put_byte(8);
            out.put_byte(8);
            out.put_byte(8);
        }
        // Draw the arrow in its new direction.
        if self.dir {
            out.put_bytes(">>".as_bytes());
        } else {
            out.put_bytes("<<".as_bytes());
        }
        // Blank the rest of the track and close with the right bar.
        let rest = self.len - self.pos;
        let ghost mid = out.0@;
        let mut j: usize = 0;
        while j < rest
            invariant
                j <= rest,
                out.0@ == mid + spaces_spec(j as nat),
            decreases rest - j,
        {
            out.put_byte(32);
            j = j + 1;
            proof {
                assert(out.0@ =~= mid + spaces_spec(j as nat));
            }
        }
        out.put_bytes("|".as_bytes());
        proof {
            assert(out.0@ =~= arrow_frame_spec(*old(self)));
        }
        out.0
    }
}

} // verus!
