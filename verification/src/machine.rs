//! Model of the machine-mode hardware this runtime drives: the
//! control-and-status registers it reads or writes, the CLINT, the free
//! running time counter, and the diagnostic byte sink. Every handler is a
//! function of this state, so the whole trap-dispatch machine can be
//! reasoned about — and run — without the hardware.

use crate::clint::ClintState;
use vstd::prelude::*;

verus! {

/// `mstatus`: previous-privilege-mode field (both bits).
pub const MSTATUS_MPP: usize = 0x1800;

/// `mstatus`: previous-privilege-mode value for supervisor mode.
pub const MSTATUS_MPP_SUPERVISOR: usize = 0x800;

/// `mstatus`: previous interrupt-enable bit.
pub const MSTATUS_MPIE: usize = 0x80;

/// `mstatus`: machine-mode interrupt-enable bit.
pub const MSTATUS_MIE: usize = 0x8;

/// `mie`: machine-software-interrupt enable.
pub const MIE_MSIE: usize = 0x8;

/// `mie`: machine-timer-interrupt enable.
pub const MIE_MTIE: usize = 0x80;

/// `mie`: machine-external-interrupt enable.
pub const MIE_MEIE: usize = 0x800;

/// `mip`: supervisor-software-interrupt pending.
pub const MIP_SSIP: usize = 0x2;

/// `mip`: machine-software-interrupt pending.
pub const MIP_MSIP: usize = 0x8;

/// `mip`: supervisor-timer-interrupt pending.
pub const MIP_STIP: usize = 0x20;

/// `mip`: machine-timer-interrupt pending.
pub const MIP_MTIP: usize = 0x80;

/// `medeleg`: delegate environment calls from user mode.
pub const MEDELEG_USER_ENV_CALL: usize = 0x100;

/// `medeleg`: delegate load page faults.
pub const MEDELEG_LOAD_PAGE_FAULT: usize = 0x2000;

/// `medeleg`: delegate store page faults.
pub const MEDELEG_STORE_PAGE_FAULT: usize = 0x8000;

/// Ghost image of a [`MachineState`]: the same registers with the emitted
/// bytes as a sequence.
#[verifier::ext_equal]
pub ghost struct MachineV {
    /// `mstatus` register.
    pub mstatus: usize,
    /// `mie` register.
    pub mie: usize,
    /// `mip` register.
    pub mip: usize,
    /// `mideleg` register.
    pub mideleg: usize,
    /// `medeleg` register.
    pub medeleg: usize,
    /// `mvendorid` register.
    pub mvendorid: usize,
    /// `marchid` register.
    pub marchid: usize,
    /// `mimpid` register.
    pub mimpid: usize,
    /// Hardware time counter.
    pub time: usize,
    /// CLINT registers.
    pub clint: ClintState,
    /// Bytes emitted to the diagnostic sink so far.
    pub uart: Seq<u8>,
}

/// The hardware state visible to the runtime. The CSRs, the CLINT and the
/// time counter mirror the registers of the hart; `uart` records every byte
/// handed to the diagnostic sink.
pub struct MachineState {
    /// `mstatus` register.
    pub mstatus: usize,
    /// `mie` register.
    pub mie: usize,
    /// `mip` register.
    pub mip: usize,
    /// `mideleg` register.
    pub mideleg: usize,
    /// `medeleg` register.
    pub medeleg: usize,
    /// `mvendorid` register (read-only).
    pub mvendorid: usize,
    /// `marchid` register (read-only).
    pub marchid: usize,
    /// `mimpid` register (read-only).
    pub mimpid: usize,
    /// Hardware time counter (read-only; advances on its own).
    pub time: usize,
    /// CLINT registers.
    pub clint: ClintState,
    /// Bytes emitted to the diagnostic sink so far.
    pub uart: Vec<u8>,
}

impl View for MachineState {
    type V = MachineV;

    open spec fn view(&self) -> MachineV {
        MachineV {
            mstatus: self.mstatus,
            mie: self.mie,
            mip: self.mip,
            mideleg: self.mideleg,
            medeleg: self.medeleg,
            mvendorid: self.mvendorid,
            marchid: self.marchid,
            mimpid: self.mimpid,
            time: self.time,
            clint: self.clint,
            uart: self.uart@,
        }
    }
}

/// The machine state after one byte went out on the diagnostic sink.
pub open spec fn put_char_spec(m: MachineV, c: u8) -> MachineV {
    MachineV { uart: m.uart.push(c), ..m }
}

impl MachineState {
    /// A machine at reset: every writable register zero, nothing emitted.
    /// The read-only identifiers and the time counter are the caller's to
    /// report.
    pub fn reset(mvendorid: usize, marchid: usize, mimpid: usize, time: usize) -> (m: MachineState)
        ensures
            m@ == (MachineV {
                mstatus: 0,
                mie: 0,
                mip: 0,
                mideleg: 0,
                medeleg: 0,
                mvendorid,
                marchid,
                mimpid,
                time,
                clint: ClintState { msip: false, ssip: false, mtimecmp: 0 },
                uart: Seq::<u8>::empty(),
            }),
    {
        MachineState {
            mstatus: 0,
            mie: 0,
            mip: 0,
            mideleg: 0,
            medeleg: 0,
            mvendorid,
            marchid,
            mimpid,
            time,
            clint: ClintState { msip: false, ssip: false, mtimecmp: 0 },
            uart: Vec::new(),
        }
    }

    /// Emit one byte on the diagnostic sink.
    pub fn put_char(&mut self, c: u8)
        ensures
            final(self)@ == put_char_spec(old(self)@, c),
    {
        self.uart.push(c);
    }

    /// Emit a run of bytes on the diagnostic sink.
    pub fn put_bytes(&mut self, s: &[u8])
        ensures
            final(self)@ == (MachineV { uart: old(self)@.uart + s@, ..old(self)@ }),
    {
        let ghost start = self.uart@;
        let mut i: usize = 0;
        while i < s.len()
            invariant
                i <= s@.len(),
                self.uart@ == start + s@.take(i as int),
                self.mstatus == old(self).mstatus,
                self.mie == old(self).mie,
                self.mip == old(self).mip,
                self.mideleg == old(self).mideleg,
                self.medeleg == old(self).medeleg,
                self.mvendorid == old(self).mvendorid,
                self.marchid == old(self).marchid,
                self.mimpid == old(self).mimpid,
                self.time == old(self).time,
                self.clint == old(self).clint,
            decreases s@.len() - i,
        {
            self.uart.push(s[i]);
            i = i + 1;
            proof {
                assert(s@.take(i as int) == s@.take(i - 1).push(s@[i - 1]));
            }
        }
        proof {
            assert(s@.take(s@.len() as int) == s@);
        }
    }
}

} // verus!
