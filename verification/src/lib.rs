//! Supervisor execution environment for a single-hart RISC-V SoC.
//!
//! The crate models the machine-mode side of the RISC-V Supervisor Binary
//! Interface: the saved supervisor context, the SBI extension dispatcher,
//! timer/software-interrupt handling, `rdtime` emulation, physical memory
//! protection, and the privilege bootstrap that hands control to a
//! supervisor payload. Hardware itself (CSR writes, memory-mapped devices,
//! the UART) stays outside: the library computes every decision over an
//! explicit machine model and hands plain values to the thin shell that
//! touches registers.

pub mod arrow;
pub mod binary;
pub mod boot;
pub mod clint;
pub mod execute;
pub mod extensions;
pub mod flash;
pub mod hart_csr_utils;
pub mod image;
pub mod laws;
pub mod logging;
pub mod machine;
pub mod memory;
pub mod pmp;
pub mod region;
pub mod rofs;
pub mod trap_vec;
