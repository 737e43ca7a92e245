//! An in-library model of a target process's readable memory: a list of
//! byte regions at fixed base addresses. Pointer-path walks and leaf reads
//! are specified, and can be exercised, against this model; the same walk
//! code runs against a live process through the process adapter.
use vstd::arithmetic::div_mod::{lemma_mod_add_multiples_vanish, lemma_mod_mod, lemma_small_mod};
use vstd::prelude::*;
use vstd::slice::{slice_subrange, slice_to_vec};

verus! {

/// Pointer width of the target process: decides the width of pointer
/// arithmetic and of pointer dereferences during a path walk.
#[derive(Clone, Copy, PartialEq, Eq, Structural, Debug)]
pub enum Bitness {
    Bits32,
    Bits64,
}

/// Number of bytes of a target-process pointer.
pub open spec fn pointer_size(w: Bitness) -> nat {
    match w {
        Bitness::Bits32 => 4,
        Bitness::Bits64 => 8,
    }
}

/// Wrapping of an unbounded address computation into the target's pointer
/// width: the value modulo 2 to the width.
pub open spec fn truncate_to_width(x: int, w: Bitness) -> u64 {
    match w {
        Bitness::Bits32 => (x % 0x1_0000_0000) as u64,
        Bitness::Bits64 => (x % 0x1_0000_0000_0000_0000) as u64,
    }
}

/// Little-endian decoding of a pointer of width `w`, zero-extended to 64
/// bits.
pub open spec fn pointer_from_le(s: Seq<u8>, w: Bitness) -> u64 {
    match w {
        Bitness::Bits32 => vstd::bytes::spec_u32_from_le_bytes(s) as u64,
        Bitness::Bits64 => vstd::bytes::spec_u64_from_le_bytes(s),
    }
}

/// One contiguous readable region of target memory.
pub struct MemoryRegion {
    /// Address of the first byte.
    pub base: u64,
    /// The region's contents.
    pub bytes: Vec<u8>,
}

/// A set of readable regions standing for a target process's memory.
/// Where regions overlap, the earliest region wins, mirroring first-wins
/// map iteration order.
pub struct MemoryImage {
    /// The regions, in iteration order.
    pub regions: Vec<MemoryRegion>,
}

/// Whether the `n` bytes at `addr` lie inside the region.
pub open spec fn region_covers(base: u64, len: nat, addr: int, n: int) -> bool {
    base <= addr && addr + n <= base + len
}

/// The `n` bytes at `addr` drawn from the first region, at or after index
/// `i`, that covers the whole range; `None` when no region does.
pub open spec fn image_read_from(img: MemoryImage, i: int, addr: int, n: int) -> Option<Seq<u8>>
    decreases img.regions@.len() - i,
{
    if i < 0 || i >= img.regions@.len() {
        None
    } else if region_covers(img.regions@[i].base, img.regions@[i].bytes@.len(), addr, n) {
        Some(
            img.regions@[i].bytes@.subrange(
                addr - img.regions@[i].base,
                addr - img.regions@[i].base + n,
            ),
        )
    } else {
        image_read_from(img, i + 1, addr, n)
    }
}

/// The `n` bytes at `addr` in the image, first covering region wins.
pub open spec fn image_read(img: MemoryImage, addr: int, n: int) -> Option<Seq<u8>> {
    image_read_from(img, 0, addr, n)
}

impl MemoryImage {
    /// An image with no readable memory.
    pub fn new() -> (img: MemoryImage)
        ensures
            img.regions@.len() == 0,
    {
        MemoryImage { regions: Vec::new() }
    }

    /// Appends a region. Earlier regions keep priority where they overlap.
    pub fn add_region(&mut self, base: u64, bytes: Vec<u8>)
        requires
            base + bytes@.len() <= u64::MAX,
        ensures
            final(self).regions@.len() == old(self).regions@.len() + 1,
            final(self).regions@.last().base == base,
            final(self).regions@.last().bytes@ == bytes@,
            final(self).regions@ == old(self).regions@.push(MemoryRegion { base, bytes }),
    {
        self.regions.push(MemoryRegion { base, bytes });
    }

    /// Reads `n` bytes at `addr`: exactly the bytes `image_read` yields,
    /// `None` when no single region covers the whole range.
    pub fn read_bytes(&self, addr: u64, n: usize) -> (r: Option<Vec<u8>>)
        ensures
            match r {
                Some(v) => image_read(*self, addr as int, n as int) == Some(v@) && v@.len() == n,
                None => image_read(*self, addr as int, n as int) is None,
            },
    {
        let count = self.regions.len();
        let mut i: usize = 0;
        while i < count
            invariant
                count == self.regions@.len(),
                i <= count,
                image_read(*self, addr as int, n as int) == image_read_from(
                    *self,
                    i as int,
                    addr as int,
                    n as int,
                ),
            decreases count - i,
        {
            let region = &self.regions[i];
            let len = region.bytes.len();
            if region.base <= addr && n <= len {
                let off = addr - region.base;
                if off <= (len - n) as u64 {
                    let off_us = off as usize;
                    let sub = slice_subrange(region.bytes.as_slice(), off_us, off_us + n);
                    let out = slice_to_vec(sub);
                    proof {
                        assert(region_covers(
                            self.regions@[i as int].base,
                            self.regions@[i as int].bytes@.len(),
                            addr as int,
                            n as int,
                        ));
                    }
                    return Some(out);
                }
            }
            proof {
                assert(!region_covers(
                    self.regions@[i as int].base,
                    self.regions@[i as int].bytes@.len(),
                    addr as int,
                    n as int,
                ));
            }
            i = i + 1;
        }
        None
    }
}

/// One step of pointer arithmetic: the signed offset added to the address,
/// wrapping at the target's pointer width, the result zero-extended.
pub fn step_address(addr: u64, off: i64, w: Bitness) -> (r: u64)
    ensures
        r == truncate_to_width(addr + off, w),
        w is Bits32 ==> r < 0x1_0000_0000,
{
    let wide = addr.wrapping_add_signed(off);
    proof {
        let t = addr + off;
        let m64: int = 0x1_0000_0000_0000_0000;
        if t < 0 {
            lemma_mod_add_multiples_vanish(t, m64);
            lemma_small_mod((t + m64) as nat, m64 as nat);
        } else if t > u64::MAX {
            lemma_mod_add_multiples_vanish(t - m64, m64);
            lemma_small_mod((t - m64) as nat, m64 as nat);
        } else {
            lemma_small_mod(t as nat, m64 as nat);
        }
        assert(wide == t % m64);
    }
    match w {
        Bitness::Bits64 => wide,
        Bitness::Bits32 => {
            let r = wide & 0xFFFF_FFFF;
            proof {
                let t = addr + off;
                let m32: int = 0x1_0000_0000;
                assert(wide & 0xFFFF_FFFF == wide % 0x1_0000_0000) by (bit_vector);
                lemma_mod_mod(t, m32, m32);
                assert(m32 * m32 == 0x1_0000_0000_0000_0000);
            }
            r
        },
    }
}

/// Number of bytes of a target-process pointer.
pub fn pointer_size_exec(w: Bitness) -> (n: usize)
    ensures
        n == pointer_size(w),
{
    match w {
        Bitness::Bits32 => 4,
        Bitness::Bits64 => 8,
    }
}

/// Little-endian decoding of a pointer of width `w` from its raw bytes,
/// zero-extended to 64 bits.
pub fn pointer_from_bytes(bytes: &[u8], w: Bitness) -> (r: u64)
    requires
        bytes@.len() == pointer_size(w),
    ensures
        r == pointer_from_le(bytes@, w),
{
    match w {
        Bitness::Bits32 => vstd::bytes::u32_from_le_bytes(bytes) as u64,
        Bitness::Bits64 => vstd::bytes::u64_from_le_bytes(bytes),
    }
}

} // verus!
