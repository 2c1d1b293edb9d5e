//! Boot-image structures shared by the boot stages: the eGON header the
//! mask ROM expects, the payload metadata appended to the image, and the
//! [`AsBinary`] mapping of each onto its exact little-endian byte layout.

use vstd::prelude::*;
use vstd::string::StringSliceAdditionalSpecFns;

verus! {

/// The little-endian byte layout of a 32-bit word.
pub open spec fn le32_spec(x: u32) -> Seq<u8> {
    seq![
        (x & 0xFF) as u8,
        ((x >> 8) & 0xFF) as u8,
        ((x >> 16) & 0xFF) as u8,
        ((x >> 24) & 0xFF) as u8,
    ]
}

/// A type with a defined byte image, so that it can be written into a boot
/// image or read back from one.
pub trait AsBinary: Sized {
    /// The exact byte image of the value.
    spec fn bytes_spec(&self) -> Seq<u8>;

    /// Serialize the value into its byte image.
    fn as_bytes(&self) -> (r: Vec<u8>)
        ensures
            r@ == self.bytes_spec(),
    ;
}

/// Append the little-endian bytes of a 32-bit word.
fn push_le32(out: &mut Vec<u8>, x: u32)
    ensures
        final(out)@ == old(out)@ + le32_spec(x),
{
    out.push(#[verifier::truncate] ((x & 0xFF) as u8));
    out.push(#[verifier::truncate] (((x >> 8) & 0xFF) as u8));
    out.push(#[verifier::truncate] (((x >> 16) & 0xFF) as u8));
    out.push(#[verifier::truncate] (((x >> 24) & 0xFF) as u8));
    proof {
        assert(out@ =~= old(out)@ + le32_spec(x));
    }
}

/// Checksum stamp the mask ROM expects before the real checksum is filled
/// in by the image generator.
pub const STAMP_CHECKSUM: u32 = 0x5F0A6C39;

/// The eGON header at the start of the first boot stage: the mask ROM
/// reads it to find and check the stage. The real checksum and length are
/// filled in by the image generator.
#[derive(Clone, Copy, Debug)]
pub struct EgonHead {
    /// Magic bytes "eGON.BT0".
    pub magic: [u8; 8],
    /// Checksum over the whole stage.
    pub checksum: u32,
    /// Length of the whole stage.
    pub length: u32,
    /// Header size field, unused here.
    pub head_size: u32,
    /// Boot-ROM script address, unused here.
    pub fel_script_address: u32,
    /// Boot-ROM environment length, unused here.
    pub fel_uenv_length: u32,
    /// Offset of the device-tree name, unused here.
    pub dt_name_offset: u32,
    /// DRAM size field, unused here.
    pub dram_size: u32,
    /// Boot media field, unused here.
    pub boot_media: u32,
    /// String pool, unused here.
    pub string_pool: [u32; 13],
}

impl Default for EgonHead {
    /// The header as the build writes it: magic and checksum stamp set,
    /// everything else zero.
    fn default() -> (r: EgonHead)
        ensures
            r.magic@ == "eGON.BT0".spec_bytes(),
            r.checksum == STAMP_CHECKSUM,
            r.length == 0,
            r.head_size == 0,
            r.fel_script_address == 0,
            r.fel_uenv_length == 0,
            r.dt_name_offset == 0,
            r.dram_size == 0,
            r.boot_media == 0,
            r.string_pool@ == Seq::new(13, |i: int| 0u32),
    {
        let magic_text = "eGON.BT0".as_bytes();
        let mut magic: [u8; 8] = [0; 8];
        proof {
            vstd::string::is_ascii_spec_bytes("eGON.BT0");
            reveal_strlit("eGON.BT0");
        }
        let mut i: usize = 0;
        while i < 8
            invariant
                i <= 8,
                magic_text@ == "eGON.BT0".spec_bytes(),
                magic_text@.len() == 8,
                forall|j: int| 0 <= j < i ==> magic@[j] == magic_text@[j],
            decreases 8 - i,
        {
            magic[i] = magic_text[i];
            i = i + 1;
        }
        proof {
            assert(magic@ =~= "eGON.BT0".spec_bytes());
        }
        let pool: [u32; 13] = [0; 13];
        proof {
            assert(pool@ =~= Seq::new(13, |i: int| 0u32));
        }
        EgonHead {
            magic,
            checksum: STAMP_CHECKSUM,
            length: 0,
            head_size: 0,
            fel_script_address: 0,
            fel_uenv_length: 0,
            dt_name_offset: 0,
            dram_size: 0,
            boot_media: 0,
            string_pool: pool,
        }
    }
}

/// The byte image of the string pool: thirteen little-endian words.
pub open spec fn string_pool_bytes_spec(pool: Seq<u32>, n: int) -> Seq<u8>
    decreases n,
{
    if n <= 0 {
        Seq::empty()
    } else {
        string_pool_bytes_spec(pool, n - 1) + le32_spec(pool[n - 1])
    }
}

impl AsBinary for EgonHead {
    open spec fn bytes_spec(&self) -> Seq<u8> {
        self.magic@ + le32_spec(self.checksum) + le32_spec(self.length) + le32_spec(self.head_size)
            + le32_spec(self.fel_script_address) + le32_spec(self.fel_uenv_length) + le32_spec(
            self.dt_name_offset,
        ) + le32_spec(self.dram_size) + le32_spec(self.boot_media) + string_pool_bytes_spec(
            self.string_pool@,
            13,
        )
    }

    fn as_bytes(&self) -> (r: Vec<u8>)
        ensures
            r@ == self.bytes_spec(),
    {
        let mut r: Vec<u8> = Vec::new();
        let mut i: usize = 0;
        while i < 8
            invariant
                i <= 8,
                r@ == self.magic@.take(i as int),
            decreases 8 - i,
        {
            r.push(self.magic[i]);
            i = i + 1;
            proof {
                assert(self.magic@.take(i as int) =~= self.magic@.take(i - 1).push(
                    self.magic@[i - 1],
                ));
            }
        }
        proof {
            assert(self.magic@.take(8) =~= self.magic@);
        }
        push_le32(&mut r, self.checksum);
        push_le32(&mut r, self.length);
        push_le32(&mut r, self.head_size);
        push_le32(&mut r, self.fel_script_address);
        push_le32(&mut r, self.fel_uenv_length);
        push_le32(&mut r, self.dt_name_offset);
        push_le32(&mut r, self.dram_size);
        push_le32(&mut r, self.boot_media);
        let ghost before_pool = r@;
        let mut j: usize = 0;
        while j < 13
            invariant
                j <= 13,
                self.string_pool@.len() == 13,
                r@ == before_pool + string_pool_bytes_spec(self.string_pool@, j as int),
            decreases 13 - j,
        {
            push_le32(&mut r, self.string_pool[j]);
            j = j + 1;
        }
        proof {
            assert(r@ =~= self.bytes_spec());
        }
        r
    }
}

/// Lower bound of a valid payload size.
pub const VALID_SIZE_MIN: u32 = 4;

/// Upper bound (exclusive) of a valid payload size: one gibibyte.
pub const VALID_SIZE_END: u32 = 0x4000_0000;

/// Sizes and staging offset of the payloads carried behind the boot
/// stages. A size outside the valid range counts as zero.
#[derive(Clone, Copy, Debug, PartialEq, Eq, Structural)]
pub struct PayloadMeta {
    /// Raw size of this runtime's own image.
    pub see: u32,
    /// Raw size of the supervisor kernel.
    pub kernel: u32,
    /// Raw size of the device-tree blob.
    pub dtb: u32,
    /// Offset in DRAM at which the device tree is staged.
    pub dtb_offset: u32,
}

impl PayloadMeta {
    /// Build the record from the three payload sizes and the staging
    /// offset.
    pub fn new(see: u32, kernel: u32, dtb: u32, dtb_offset: u32) -> (r: PayloadMeta)
        ensures
            r == (PayloadMeta { see, kernel, dtb, dtb_offset }),
    {
        PayloadMeta { see, kernel, dtb, dtb_offset }
    }

    /// A raw size clamped to zero unless it lies in the valid range.
    pub open spec fn len_spec(raw: u32) -> u32 {
        if VALID_SIZE_MIN <= raw < VALID_SIZE_END {
            raw
        } else {
            0
        }
    }

    /// The size of this runtime's own image, zero when invalid.
    pub fn len_see(&self) -> (r: u32)
        ensures
            r == Self::len_spec(self.see),
    {
        if VALID_SIZE_MIN <= self.see && self.see < VALID_SIZE_END {
            self.see
        } else {
            0
        }
    }

    /// The size of the supervisor kernel, zero when invalid.
    pub fn len_kernel(&self) -> (r: u32)
        ensures
            r == Self::len_spec(self.kernel),
    {
        if VALID_SIZE_MIN <= self.kernel && self.kernel < VALID_SIZE_END {
            self.kernel
        } else {
            0
        }
    }

    /// The size of the device-tree blob, zero when invalid.
    pub fn len_dtb(&self) -> (r: u32)
        ensures
            r == Self::len_spec(self.dtb),
    {
        if VALID_SIZE_MIN <= self.dtb && self.dtb < VALID_SIZE_END {
            self.dtb
        } else {
            0
        }
    }

    /// Where the staged device tree lies and how long it is: present only
    /// when both the size and the staging offset are nonzero. The shell
    /// turns the address into a slice.
    pub fn dtb(&self) -> (r: Option<(usize, usize)>)
        requires
            crate::memory::DRAM + self.dtb_offset <= usize::MAX,
        ensures
            r == if Self::len_spec(self.dtb) > 0 && self.dtb_offset > 0 {
                Some(
                    (
                        (crate::memory::DRAM + self.dtb_offset) as usize,
                        Self::len_spec(self.dtb) as usize,
                    ),
                )
            } else {
                Option::<(usize, usize)>::None
            },
    {
        let len = self.len_dtb();
        if len > 0 && self.dtb_offset > 0 {
            Some((crate::memory::DRAM + self.dtb_offset as usize, len as usize))
        } else {
            None
        }
    }
}

impl AsBinary for PayloadMeta {
    open spec fn bytes_spec(&self) -> Seq<u8> {
        le32_spec(self.see) + le32_spec(self.kernel) + le32_spec(self.dtb) + le32_spec(
            self.dtb_offset,
        )
    }

    fn as_bytes(&self) -> (r: Vec<u8>)
        ensures
            r@ == self.bytes_spec(),
    {
        let mut r: Vec<u8> = Vec::new();
        push_le32(&mut r, self.see);
        push_le32(&mut r, self.kernel);
        push_le32(&mut r, self.dtb);
        push_le32(&mut r, self.dtb_offset);
        proof {
            assert(r@ =~= self.bytes_spec());
        }
        r
    }
}

} // verus!
