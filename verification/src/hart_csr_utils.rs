//! Rendering of the hart's protection setup: decode the sixteen
//! `pmpcfg`/`pmpaddr` entries the shell read from the registers and render
//! one line per active entry — its byte range and its permissions. On this
//! 64-bit hart the sixteen configuration bytes live in the two registers
//! `pmpcfg0` and `pmpcfg2`.

use crate::logging::hex_spec;
use crate::logging::Out;
use vstd::prelude::*;
use vstd::std_specs::bits::axiom_u64_trailing_ones;
use vstd::std_specs::bits::u64_trailing_ones;
use vstd::string::StringSliceAdditionalSpecFns;

verus! {

/// Address registers hold at most 54 significant bits on this hart.
pub const PMP_ADDR_LIMIT: u64 = 0x0040_0000_0000_0000;

/// The configuration byte of protection entry `i`, out of the two packed
/// configuration registers.
pub open spec fn pmp_cfg_byte_spec(cfg0: u64, cfg2: u64, i: int) -> u8 {
    if i < 8 {
        ((cfg0 >> ((8 * i) as u64)) & 0xFF) as u8
    } else {
        ((cfg2 >> ((8 * (i - 8)) as u64)) & 0xFF) as u8
    }
}

/// The byte range an entry covers, by its address-matching mode: nothing
/// when off, the window from the previous address register under
/// top-of-range, four bytes under NA4, and the aligned power-of-two block
/// whose size the trailing ones of the address register encode under
/// NAPOT.
pub open spec fn pmp_range_spec(cfg: u8, prev: u64, addr: u64) -> Option<(u64, u64)> {
    let a = (cfg >> 3) & 3;
    if a == 1 {
        Some((prev << 2, addr << 2))
    } else if a == 2 {
        Some((addr << 2, ((addr + 1) as u64) << 2))
    } else if a == 3 {
        let len = 1u64 << ((u64_trailing_ones(addr) + 2) as u64);
        let s = (addr & !((len - 1) as u64)) << 2;
        Some((s, (s + len) as u64))
    } else {
        None
    }
}

/// The two-digit decimal rendering of an entry number.
pub open spec fn dec2_spec(i: int) -> Seq<u8> {
    seq![(48 + i / 10) as u8, (48 + i % 10) as u8]
}

/// One rendered line: the entry number, its byte range, and its
/// permissions as `x`/`w`/`r` or a dash each.
pub open spec fn pmp_line_spec(i: int, s: u64, e: u64, cfg: u8) -> Seq<u8> {
    "[see] pmp".spec_bytes() + dec2_spec(i) + ": ".spec_bytes() + seq![48u8, 120u8] + hex_spec(
        s as nat,
    ) + "..".spec_bytes() + seq![48u8, 120u8] + hex_spec(e as nat) + " (".spec_bytes() + seq![
        if cfg & 4 != 0 {
            120u8
        } else {
            45u8
        },
        if cfg & 2 != 0 {
            119u8
        } else {
            45u8
        },
        if cfg & 1 != 0 {
            114u8
        } else {
            45u8
        },
    ] + ")\n".spec_bytes()
}

/// The address register below entry `i`: the previous entry's register,
/// or zero for the first.
pub open spec fn pmp_prev_spec(addrs: Seq<u64>, i: int) -> u64 {
    if i == 0 {
        0
    } else {
        addrs[i - 1]
    }
}

/// The rendered dump of the first `n` entries: one line per active entry,
/// in order.
pub open spec fn pmp_dump_spec(cfg0: u64, cfg2: u64, addrs: Seq<u64>, n: int) -> Seq<u8>
    decreases n,
{
    if n <= 0 {
        Seq::empty()
    } else {
        let cfg = pmp_cfg_byte_spec(cfg0, cfg2, n - 1);
        pmp_dump_spec(cfg0, cfg2, addrs, n - 1) + match pmp_range_spec(
            cfg,
            pmp_prev_spec(addrs, n - 1),
            addrs[n - 1],
        ) {
            Some(r) => pmp_line_spec(n - 1, r.0, r.1, cfg),
            None => Seq::empty(),
        }
    }
}

/// Render one protection entry.
#[verifier::rlimit(50)]
fn dump_pmp(out: &mut Out, i: usize, s: u64, e: u64, cfg: u8)
    requires
        i < 16,
    ensures
        final(out).0@ == old(out).0@ + pmp_line_spec(i as int, s, e, cfg),
{
    out.put_bytes("[see] pmp".as_bytes());
    out.put_byte(48 + (i / 10) as u8);
    out.put_byte(48 + (i % 10) as u8);
    out.put_bytes(": ".as_bytes());
    out.put_hex_u64(s);
    out.put_bytes("..".as_bytes());
    out.put_hex_u64(e);
    out.put_bytes(" (".as_bytes());
    out.put_byte(
        if cfg & 4 != 0 {
            120
        } else {
            45
        },
    );
    out.put_byte(
        if cfg & 2 != 0 {
            119
        } else {
            45
        },
    );
    out.put_byte(
        if cfg & 1 != 0 {
            114
        } else {
            45
        },
    );
    out.put_bytes(")\n".as_bytes());
    proof {
        assert(out.0@ =~= old(out).0@ + pmp_line_spec(i as int, s, e, cfg));
    }
}

/// Decode and render every active protection entry out of the register
/// values the shell read. Address registers beyond the hart's 54
/// significant bits do not occur; the bound keeps the power-of-two
/// arithmetic of the NAPOT decode in range.
pub fn print_pmps(cfg0: u64, cfg2: u64, addrs: &[u64; 16]) -> (r: Vec<u8>)
    requires
        forall|i: int| 0 <= i < 16 ==> addrs@[i] < PMP_ADDR_LIMIT,
    ensures
        r@ == pmp_dump_spec(cfg0, cfg2, addrs@, 16),
{
    let mut out = Out::new();
    let mut i: usize = 0;
    while i < 16
        invariant
            i <= 16,
            forall|j: int| 0 <= j < 16 ==> addrs@[j] < PMP_ADDR_LIMIT,
            out.0@ == pmp_dump_spec(cfg0, cfg2, addrs@, i as int),
        decreases 16 - i,
    {
        let cfg: u8 = if i < 8 {
            #[verifier::truncate]
            ((cfg0 >> ((8 * i) as u64)) as u8)
        } else {
            #[verifier::truncate]
            ((cfg2 >> ((8 * (i - 8)) as u64)) as u8)
        };
        proof {
            let sh = if i < 8 {
                (8 * i) as u64
            } else {
                (8 * (i - 8)) as u64
            };
            let w = if i < 8 {
                cfg0
            } else {
                cfg2
            };
            assert((w >> sh) as u8 == ((w >> sh) & 0xFF) as u8) by (bit_vector);
        }
        let prev: u64 = if i == 0 {
            0
        } else {
            addrs[i - 1]
        };
        let addr: u64 = addrs[i];
        let a = (cfg >> 3) & 3;
        if a == 1 {
            dump_pmp(&mut out, i, prev << 2, addr << 2, cfg);
        } else if a == 2 {
            dump_pmp(&mut out, i, addr << 2, (addr + 1) << 2, cfg);
        } else if a == 3 {
            let ones = addr.trailing_ones();
            proof {
                axiom_u64_trailing_ones(addr);
                if u64_trailing_ones(addr) >= 55 {
                    assert((addr >> 54u64) & 1u64 == 1u64);
                    assert(addr < 0x0040_0000_0000_0000u64 ==> (addr >> 54u64) & 1u64 == 0u64)
                        by (bit_vector);
                }
            }
            let sh: u32 = ones + 2;
            let len = 1u64 << sh;
            proof {
                assert(1u64 <= (1u64 << sh) <= 0x0100_0000_0000_0000u64) by (bit_vector)
                    requires
                        sh <= 56u32,
                ;
            }
            let mask = !(len - 1);
            let base = addr & mask;
            proof {
                let m = mask;
                assert((addr & m) <= addr) by (bit_vector);
                let b = base;
                assert(b < 0x0040_0000_0000_0000u64 ==> (b << 2u64) <= 0x0100_0000_0000_0000u64)
                    by (bit_vector);
            }
            let s = base << 2;
            dump_pmp(&mut out, i, s, s + len, cfg);
        }
        i = i + 1;
        proof {
            assert(out.0@ =~= pmp_dump_spec(cfg0, cfg2, addrs@, i as int));
        }
    }
    out.0
}

} // verus!
