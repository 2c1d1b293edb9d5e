//! Diagnostic text rendering. On the board the sink is a blocking UART;
//! `Out` renders into a byte buffer whose exact contents are specified, and
//! the shell forwards the bytes to the serial port. `Hex` selects between a
//! bare and a `0x`-prefixed hexadecimal rendering, `Endl` stands for the
//! carriage-return/line-feed pair.

use vstd::prelude::*;

verus! {

/// Line terminator marker: a carriage return followed by a line feed.
pub struct Endl;

/// A number to render in hexadecimal: `Raw` without decoration, `Fmt` with
/// a `0x` prefix.
pub enum Hex {
    /// Bare hexadecimal digits.
    Raw(usize),
    /// Hexadecimal digits behind a `0x` prefix.
    Fmt(usize),
}

/// The decimal rendering of `n`: most significant digit first, no sign, no
/// leading zero except for zero itself.
pub open spec fn dec_spec(n: nat) -> Seq<u8>
    decreases n,
{
    if n < 10 {
        seq![(n + 48) as u8]
    } else {
        dec_spec(n / 10).push(((n % 10) + 48) as u8)
    }
}

/// The value of a hexadecimal digit as a lower-case ASCII byte.
pub open spec fn hex_digit_spec(d: nat) -> u8
    recommends
        d < 16,
{
    if d < 10 {
        (d + 48) as u8
    } else {
        (d + 87) as u8
    }
}

/// The hexadecimal rendering of `n` without leading zeros, most significant
/// digit first; zero renders as a single digit.
pub open spec fn hex_spec(n: nat) -> Seq<u8>
    decreases n,
{
    if n < 16 {
        seq![hex_digit_spec(n)]
    } else {
        hex_spec(n / 16).push(hex_digit_spec(n % 16))
    }
}

/// The hexadecimal rendering of the low `width` digits of `n`, zero-padded
/// to exactly `width` digits.
pub open spec fn hex_pad_spec(n: nat, width: nat) -> Seq<u8>
    decreases width,
{
    if width <= 1 {
        seq![hex_digit_spec(n % 16)]
    } else {
        hex_pad_spec(n / 16, (width - 1) as nat).push(hex_digit_spec(n % 16))
    }
}

/// An output buffer: every byte handed to it, in order. The shell drains it
/// to the UART.
pub struct Out(pub Vec<u8>);

impl Out {
    /// An empty buffer.
    pub fn new() -> (r: Out)
        ensures
            r.0@ == Seq::<u8>::empty(),
    {
        Out(Vec::new())
    }

    /// Append one byte.
    pub fn put_byte(&mut self, b: u8)
        ensures
            final(self).0@ == old(self).0@.push(b),
    {
        self.0.push(b);
    }

    /// Append a run of bytes.
    pub fn put_bytes(&mut self, s: &[u8])
        ensures
            final(self).0@ == old(self).0@ + s@,
    {
        let ghost start = self.0@;
        let mut i: usize = 0;
        while i < s.len()
            invariant
                i <= s@.len(),
                self.0@ == start + s@.take(i as int),
            decreases s@.len() - i,
        {
            self.0.push(s[i]);
            i = i + 1;
            proof {
                assert(s@.take(i as int) == s@.take(i - 1).push(s@[i - 1]));
            }
        }
        proof {
            assert(s@.take(s@.len() as int) == s@);
        }
    }

    /// Append the decimal rendering of `n`.
    pub fn put_dec(&mut self, n: usize)
        ensures
            final(self).0@ == old(self).0@ + dec_spec(n as nat),
        decreases n,
    {
        if n >= 10 {
            self.put_dec(n / 10);
        }
        self.0.push((n % 10) as u8 + 48);
    }

    /// Append the hexadecimal rendering of `n` without leading zeros,
    /// with a `0x` prefix when `Hex::Fmt` asks for one.
    pub fn put_hex(&mut self, h: Hex)
        ensures
            final(self).0@ == match h {
                Hex::Raw(n) => old(self).0@ + hex_spec(n as nat),
                Hex::Fmt(n) => old(self).0@ + seq![48u8, 120u8] + hex_spec(n as nat),
            },
    {
        match h {
            Hex::Raw(n) => self.put_hex_digits(n),
            Hex::Fmt(n) => {
                self.0.push(48);
                self.0.push(120);
                self.put_hex_digits(n);
            },
        }
    }

    /// Append the hexadecimal digits of `n` without leading zeros.
    fn put_hex_digits(&mut self, n: usize)
        ensures
            final(self).0@ == old(self).0@ + hex_spec(n as nat),
        decreases n,
    {
        if n >= 16 {
            self.put_hex_digits(n / 16);
        }
        let d = (n % 16) as u8;
        if d < 10 {
            self.0.push(d + 48);
        } else {
            self.0.push(d + 87);
        }
    }

    /// Append the hexadecimal rendering of a 64-bit value behind a `0x`
    /// prefix, without leading zeros.
    pub fn put_hex_u64(&mut self, n: u64)
        ensures
            final(self).0@ == old(self).0@ + seq![48u8, 120u8] + hex_spec(n as nat),
    {
        self.0.push(48);
        self.0.push(120);
        self.put_hex_u64_digits(n);
    }

    /// Append the hexadecimal digits of a 64-bit value without leading
    /// zeros.
    fn put_hex_u64_digits(&mut self, n: u64)
        ensures
            final(self).0@ == old(self).0@ + hex_spec(n as nat),
        decreases n,
    {
        if n >= 16 {
            self.put_hex_u64_digits(n / 16);
        }
        let d = (n % 16) as u8;
        if d < 10 {
            self.0.push(d + 48);
        } else {
            self.0.push(d + 87);
        }
    }

    /// Append the low `width` hexadecimal digits of `n`, zero-padded.
    pub fn put_hex_pad(&mut self, n: usize, width: usize)
        requires
            width >= 1,
        ensures
            final(self).0@ == old(self).0@ + hex_pad_spec(n as nat, width as nat),
        decreases width,
    {
        if width > 1 {
            self.put_hex_pad(n / 16, width - 1);
        }
        let d = (n % 16) as u8;
        if d < 10 {
            self.0.push(d + 48);
        } else {
            self.0.push(d + 87);
        }
    }

    /// Append the line terminator.
    pub fn put_endl(&mut self, e: Endl)
        ensures
            final(self).0@ == old(self).0@ + seq![13u8, 10u8],
    {
        let Endl = e;
        self.0.push(13);
        self.0.push(10);
    }
}

} // verus!
