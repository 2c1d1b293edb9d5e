//! Board-info acquisition and the one-time boot decisions. The device
//! tree itself is read by an outside walker in the shell; what arrives
//! here is the plain stream of properties it found, and
//! [`parse_board_info`] condenses that stream — exactly as the boot
//! sequence does — into the memory range, the platform model string and
//! the blob's own location. [`boot_plan`] then decides, from the boot
//! metadata, whether a supervisor is started at all, under which
//! protection table, and what the startup banner says.

use crate::execute::Supervisor;
use crate::logging::Hex;
use crate::logging::Out;
use crate::pmp::set_pmp;
use crate::pmp::set_pmp_spec;
use crate::pmp::PmpEntry;
use crate::region::Region;
use vstd::prelude::*;
use vstd::string::StringSliceAdditionalSpecFns;

verus! {

/// A fixed-capacity string kept inline on the stack; text that does not
/// fit is truncated.
#[derive(Clone, Copy)]
pub struct StringInline<const N: usize>(pub usize, pub [u8; N]);

/// `s` cut down to at most `n` bytes.
pub open spec fn trunc_spec(s: Seq<u8>, n: int) -> Seq<u8> {
    if s.len() <= n {
        s
    } else {
        s.take(n)
    }
}

impl<const N: usize> StringInline<N> {
    /// The bytes this string currently holds.
    pub open spec fn bytes_spec(&self) -> Seq<u8> {
        self.1@.take(self.0 as int)
    }

    /// The length field never exceeds the capacity.
    pub open spec fn wf(&self) -> bool {
        self.0 <= N
    }

    /// An empty string.
    pub fn empty() -> (r: StringInline<N>)
        ensures
            r.wf(),
            r.bytes_spec() == Seq::<u8>::empty(),
    {
        let r = StringInline(0, [0; N]);
        proof {
            assert(r.bytes_spec() =~= Seq::<u8>::empty());
        }
        r
    }

    /// Replace the contents with `s`, truncated to the capacity.
    pub fn set(&mut self, s: &[u8])
        ensures
            final(self).wf(),
            final(self).bytes_spec() == trunc_spec(s@, N as int),
    {
        let k = if s.len() < N {
            s.len()
        } else {
            N
        };
        let mut i: usize = 0;
        while i < k
            invariant
                k <= s@.len(),
                k <= N,
                i <= k,
                self.1@.len() == N,
                self.1@.take(i as int) == s@.take(i as int),
            decreases k - i,
        {
            self.1[i] = s[i];
            i = i + 1;
            proof {
                assert(self.1@.take(i as int) =~= self.1@.take(i - 1).push(self.1@[i - 1]));
                assert(s@.take(i as int) =~= s@.take(i - 1).push(s@[i - 1]));
            }
        }
        self.0 = k;
        proof {
            assert(self.bytes_spec() =~= trunc_spec(s@, N as int));
        }
    }

    /// Copy the contents out.
    pub fn bytes(&self) -> (r: Vec<u8>)
        requires
            self.wf(),
        ensures
            r@ == self.bytes_spec(),
    {
        let mut r: Vec<u8> = Vec::new();
        let mut i: usize = 0;
        while i < self.0
            invariant
                self.0 <= N,
                i <= self.0,
                self.1@.len() == N,
                r@ == self.1@.take(i as int),
            decreases self.0 - i,
        {
            r.push(self.1[i]);
            i = i + 1;
            proof {
                assert(self.1@.take(i as int) =~= self.1@.take(i - 1).push(self.1@[i - 1]));
            }
        }
        r
    }
}

/// One property the device-tree walk reported: the `model` property of
/// some node, or one address range of a `reg` property. `level` is the
/// depth of the node that carries the property; the root is level 0.
#[derive(Clone, Debug)]
pub enum DtbEvent {
    /// A `model` property.
    Model {
        /// Depth of the carrying node.
        level: usize,
        /// The property text.
        text: Vec<u8>,
    },
    /// The first address range of a `reg` property.
    Reg {
        /// Depth of the carrying node.
        level: usize,
        /// Name of the carrying node.
        node: Vec<u8>,
        /// First address of the range.
        start: usize,
        /// First address past the range.
        end: usize,
    },
}

/// The text of the first `model` property of the root node at or after
/// position `i`, if any.
pub open spec fn first_root_model_from(evs: Seq<DtbEvent>, i: int) -> Option<Seq<u8>>
    decreases evs.len() - i when 0 <= i <= evs.len()
{
    if i >= evs.len() {
        None
    } else {
        match evs[i] {
            DtbEvent::Model { level, text } => if level == 0 {
                Some(text@)
            } else {
                first_root_model_from(evs, i + 1)
            },
            _ => first_root_model_from(evs, i + 1),
        }
    }
}

/// The first address range reported by a root-child node whose name
/// starts with "memory", at or after position `i`, if any.
pub open spec fn first_memory_reg_from(evs: Seq<DtbEvent>, i: int) -> Option<(usize, usize)>
    decreases evs.len() - i when 0 <= i <= evs.len()
{
    if i >= evs.len() {
        None
    } else {
        match evs[i] {
            DtbEvent::Reg { level, node, start, end } => if level == 1
                && "memory".spec_bytes().is_prefix_of(node@) {
                Some((start, end))
            } else {
                first_memory_reg_from(evs, i + 1)
            },
            _ => first_memory_reg_from(evs, i + 1),
        }
    }
}

/// The platform model of an event stream: the root's first `model` text.
pub open spec fn first_root_model_spec(evs: Seq<DtbEvent>) -> Option<Seq<u8>> {
    first_root_model_from(evs, 0)
}

/// The memory range of an event stream: the first range of the first
/// "memory" node.
pub open spec fn first_memory_reg_spec(evs: Seq<DtbEvent>) -> Option<(usize, usize)> {
    first_memory_reg_from(evs, 0)
}

/// Whether `pat` is a prefix of `s`.
pub fn slice_starts_with(s: &[u8], pat: &[u8]) -> (r: bool)
    ensures
        r == pat@.is_prefix_of(s@),
{
    if pat.len() > s.len() {
        proof {
            assert(!pat@.is_prefix_of(s@));
        }
        return false;
    }
    let mut i: usize = 0;
    while i < pat.len()
        invariant
            pat@.len() <= s@.len(),
            i <= pat@.len(),
            forall|j: int| 0 <= j < i ==> pat@[j] == s@[j],
        decreases pat@.len() - i,
    {
        if pat[i] != s[i] {
            proof {
                assert(!pat@.is_prefix_of(s@));
            }
            return false;
        }
        i = i + 1;
    }
    proof {
        assert(pat@ =~= s@.take(pat@.len() as int));
    }
    true
}

/// The size of the first memory range the walked device tree reports, or
/// zero when it reports none. The earlier boot stage uses it to place the
/// staged device tree below the top of memory.
pub fn parse_memory_size(events: &Vec<DtbEvent>) -> (r: usize)
    ensures
        r == match first_memory_reg_spec(events@) {
            Some(p) => if p.1 >= p.0 {
                (p.1 - p.0) as usize
            } else {
                0
            },
            None => 0,
        },
{
    let info = parse_board_info(0, 0, events);
    if info.mem.end >= info.mem.start {
        info.mem.end - info.mem.start
    } else {
        0
    }
}

/// The non-owning summary taken from the device tree: where the blob
/// itself lies, the platform model name, and the first memory range.
#[derive(Clone, Copy)]
pub struct BoardInfo {
    /// Location of the device-tree blob.
    pub dtb: Region,
    /// Platform model name, truncated to its capacity.
    pub model: StringInline<128>,
    /// Base and size of the first "memory" node.
    pub mem: Region,
}

/// Condense the walked device tree into a [`BoardInfo`]: the blob spans
/// `total_size` bytes from `addr`, the model is the root's first `model`
/// property (truncated to 128 bytes, empty when absent), and the memory
/// range is the first range of the first "memory" node (empty when
/// absent).
pub fn parse_board_info(addr: usize, total_size: usize, events: &Vec<DtbEvent>) -> (r: BoardInfo)
    requires
        addr + total_size <= usize::MAX,
    ensures
        r.dtb == (Region { start: addr, end: (addr + total_size) as usize }),
        r.model.wf(),
        match first_root_model_spec(events@) {
            Some(t) => r.model.bytes_spec() == trunc_spec(t, 128),
            None => r.model.bytes_spec() == Seq::<u8>::empty(),
        },
        match first_memory_reg_spec(events@) {
            Some(p) => r.mem == (Region { start: p.0, end: p.1 }),
            None => r.mem == (Region { start: 0, end: 0 }),
        },
{
    let mut info = BoardInfo {
        dtb: Region { start: addr, end: addr + total_size },
        model: StringInline::empty(),
        mem: Region { start: 0, end: 0 },
    };
    let mut has_model = false;
    let mut has_mem = false;
    let ghost mut found_model: Seq<u8> = Seq::empty();
    let mut i: usize = 0;
    while i < events.len()
        invariant
            i <= events@.len(),
            info.dtb == (Region { start: addr, end: (addr + total_size) as usize }),
            addr + total_size <= usize::MAX,
            info.model.wf(),
            has_model ==> first_root_model_from(events@, 0) == Some(found_model)
                && info.model.bytes_spec() == trunc_spec(found_model, 128),
            !has_model ==> first_root_model_from(events@, 0) == first_root_model_from(
                events@,
                i as int,
            ) && info.model.bytes_spec() == Seq::<u8>::empty(),
            has_mem ==> first_memory_reg_from(events@, 0) == Some(
                (info.mem.start, info.mem.end),
            ),
            !has_mem ==> first_memory_reg_from(events@, 0) == first_memory_reg_from(
                events@,
                i as int,
            ) && info.mem == (Region { start: 0, end: 0 }),
        decreases events@.len() - i,
    {
        match &events[i] {
            DtbEvent::Model { level, text } => {
                if *level == 0 && !has_model {
                    info.model.set(text.as_slice());
                    has_model = true;
                    proof {
                        found_model = text@;
                    }
                }
            },
            DtbEvent::Reg { level, node, start, end } => {
                let memory_node = slice_starts_with(node.as_slice(), "memory".as_bytes());
                if *level == 1 && memory_node && !has_mem {
                    info.mem = Region { start: *start, end: *end };
                    has_mem = true;
                }
            },
        }
        i = i + 1;
    }
    info
}

/// The hexadecimal rendering of `n` behind a `0x` prefix, as
/// [`Out::put_hex`] emits it for [`Hex::Fmt`].
pub open spec fn hex_fmt_spec(n: usize) -> Seq<u8> {
    seq![48u8, 120u8] + crate::logging::hex_spec(n as nat)
}

/// The startup banner: implementation, extension set, platform model,
/// memory range, device-tree location, firmware and supervisor addresses.
pub open spec fn banner_spec(
    model: Seq<u8>,
    mem: Region,
    dtb: Region,
    firmware: usize,
    kernel: usize,
) -> Seq<u8> {
    "[see] SEE: supervisor execution environment, SBI v1.0.0\n".spec_bytes()
        + "[see] Extensions         : [legacy console, timer, reset, ipi]\n".spec_bytes()
        + "[see] Platform Name      : ".spec_bytes() + model
        + "\n[see] Platform SMP       : 1\n".spec_bytes() + "[see] Platform Memory    : ".spec_bytes()
        + hex_fmt_spec(mem.start) + "..".spec_bytes() + hex_fmt_spec(mem.end)
        + "\n[see] Boot HART          : 0\n".spec_bytes()
        + "[see] Device Tree Region : ".spec_bytes() + hex_fmt_spec(dtb.start) + "..".spec_bytes()
        + hex_fmt_spec(dtb.end) + "\n[see] Firmware Address   : ".spec_bytes() + hex_fmt_spec(
        firmware,
    ) + "\n[see] Supervisor Address : ".spec_bytes() + hex_fmt_spec(kernel) + "\n".spec_bytes()
}

/// Render the startup banner.
pub fn banner(model: &[u8], mem: Region, dtb: Region, firmware: usize, kernel: usize) -> (r: Vec<
    u8,
>)
    ensures
        r@ == banner_spec(model@, mem, dtb, firmware, kernel),
{
    let mut out = Out::new();
    out.put_bytes("[see] SEE: supervisor execution environment, SBI v1.0.0\n".as_bytes());
    out.put_bytes("[see] Extensions         : [legacy console, timer, reset, ipi]\n".as_bytes());
    out.put_bytes("[see] Platform Name      : ".as_bytes());
    out.put_bytes(model);
    out.put_bytes("\n[see] Platform SMP       : 1\n".as_bytes());
    out.put_bytes("[see] Platform Memory    : ".as_bytes());
    out.put_hex(Hex::Fmt(mem.start));
    out.put_bytes("..".as_bytes());
    out.put_hex(Hex::Fmt(mem.end));
    out.put_bytes("\n[see] Boot HART          : 0\n".as_bytes());
    out.put_bytes("[see] Device Tree Region : ".as_bytes());
    out.put_hex(Hex::Fmt(dtb.start));
    out.put_bytes("..".as_bytes());
    out.put_hex(Hex::Fmt(dtb.end));
    out.put_bytes("\n[see] Firmware Address   : ".as_bytes());
    out.put_hex(Hex::Fmt(firmware));
    out.put_bytes("\n[see] Supervisor Address : ".as_bytes());
    out.put_hex(Hex::Fmt(kernel));
    out.put_bytes("\n".as_bytes());
    proof {
        assert(out.0@ =~= banner_spec(model@, mem, dtb, firmware, kernel));
    }
    out.0
}

/// Memory range assumed when the device tree gave none: half a gibibyte
/// of DRAM.
pub open spec fn default_mem_spec() -> Region {
    Region { start: crate::memory::DRAM, end: 0x6000_0000 }
}

/// The memory range protection is configured for: the board's, or the
/// default assumption.
pub open spec fn chosen_mem_spec(board: Option<BoardInfo>) -> Region {
    match board {
        Some(b) => b.mem,
        None => default_mem_spec(),
    }
}

/// What the boot sequence is to do after the banner: animate forever for
/// want of a payload, or wall the firmware off and enter the supervisor.
pub enum BootAction {
    /// No supervisor was staged; show the busy indicator forever.
    ArrowWalk,
    /// Start the supervisor.
    Boot {
        /// The protection table to program.
        pmp: [PmpEntry; 5],
        /// The payload to enter and the device-tree address it receives.
        supervisor: Supervisor,
    },
}

/// The one-time boot decisions: the banner text and what to do next.
pub struct BootPlan {
    /// The startup banner to emit.
    pub banner: Vec<u8>,
    /// What the boot sequence does after the banner.
    pub action: BootAction,
}

/// Decide the boot: render the banner from the board summary, and — when
/// a supervisor kernel was staged — compute the protection table over the
/// board's memory range (or the default assumption) and the supervisor
/// descriptor, handing it the device-tree address. Without a kernel the
/// plan is the busy indicator. A kernel outside the memory range is
/// undefined at the hardware level; the boot sequence owes that
/// precondition.
pub fn boot_plan(kernel: usize, board: &Option<BoardInfo>, firmware: usize) -> (r: BootPlan)
    requires
        board matches Some(b) ==> b.model.wf(),
        kernel != 0 ==> chosen_mem_spec(*board).start <= kernel <= chosen_mem_spec(*board).end,
    ensures
        ({
            let model = match *board {
                Some(b) => b.model.bytes_spec(),
                None => "unknown".spec_bytes(),
            };
            let mem = match *board {
                Some(b) => b.mem,
                None => Region { start: 0, end: 0 },
            };
            let dtb = match *board {
                Some(b) => b.dtb,
                None => Region { start: 0, end: 0 },
            };
            r.banner@ == banner_spec(model, mem, dtb, firmware, kernel)
        }),
        kernel == 0 ==> r.action is ArrowWalk,
        kernel != 0 ==> ({
            let dtb_start = match *board {
                Some(b) => b.dtb.start,
                None => 0,
            };
            &&& r.action matches BootAction::Boot { pmp, supervisor }
            &&& pmp@ == set_pmp_spec(chosen_mem_spec(*board), kernel)
            &&& supervisor == (Supervisor { start_addr: kernel, opaque: dtb_start })
        }),
{
    let banner_text = match board {
        Some(b) => {
            let model = b.model.bytes();
            banner(model.as_slice(), b.mem, b.dtb, firmware, kernel)
        },
        None => banner(
            "unknown".as_bytes(),
            Region { start: 0, end: 0 },
            Region { start: 0, end: 0 },
            firmware,
            kernel,
        ),
    };
    if kernel == 0 {
        BootPlan { banner: banner_text, action: BootAction::ArrowWalk }
    } else {
        let mem = match board {
            Some(b) => b.mem,
            None => Region { start: crate::memory::DRAM, end: 0x6000_0000 },
        };
        let dtb_start = match board {
            Some(b) => b.dtb.start,
            None => 0,
        };
        let pmp = set_pmp(mem, kernel);
        BootPlan {
            banner: banner_text,
            action: BootAction::Boot {
                pmp,
                supervisor: Supervisor { start_addr: kernel, opaque: dtb_start },
            },
        }
    }
}

} // verus!
