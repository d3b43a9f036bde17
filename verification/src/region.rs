//! Memory region descriptors: the table, fixed at link time, that tells the
//! section initializer which bytes to zero and which to copy.

use vstd::prelude::*;

verus! {

/// A run of `len` bytes that begins at offset `start` of the memory image.
#[derive(Clone, Copy, Debug, PartialEq, Eq, Structural)]
pub struct ByteRange {
    pub start: usize,
    pub len: usize,
}

impl ByteRange {
    /// The offset one past the last byte of the range.
    pub open spec fn end(self) -> int {
        self.start + self.len
    }

    /// Whether the byte at offset `addr` belongs to the range.
    pub open spec fn contains(self, addr: int) -> bool {
        self.start <= addr < self.start + self.len
    }

    /// Whether the whole range lies inside a memory image of `mem_len` bytes.
    pub open spec fn fits(self, mem_len: nat) -> bool {
        self.start + self.len <= mem_len
    }

    /// Whether the two ranges have a byte in common. An empty range overlaps
    /// nothing, wherever it starts.
    pub open spec fn overlaps(self, other: ByteRange) -> bool {
        &&& self.len > 0
        &&& other.len > 0
        &&& self.start < other.start + other.len
        &&& other.start < self.start + self.len
    }

    pub fn new(start: usize, len: usize) -> (r: ByteRange)
        ensures
            r == (ByteRange { start, len }),
    {
        ByteRange { start, len }
    }

    /// Decides `fits` without overflowing on ranges that reach past the end
    /// of the address space.
    pub fn fits_in(&self, mem_len: usize) -> (b: bool)
        ensures
            b == self.fits(mem_len as nat),
    {
        self.len <= mem_len && self.start <= mem_len - self.len
    }

    /// Decides `overlaps`.
    pub fn intersects(&self, other: &ByteRange) -> (b: bool)
        ensures
            b == self.overlaps(*other),
    {
        if self.len == 0 || other.len == 0 {
            false
        } else if self.start <= other.start {
            other.start - self.start < self.len
        } else {
            self.start - other.start < other.len
        }
    }
}

/// What the section initializer does with a region's destination.
#[derive(Clone, Copy, Debug, PartialEq, Eq, Structural)]
pub enum RegionKind {
    /// Every destination byte is set to zero; the source range is ignored.
    Zero,
    /// The destination receives the source bytes, one for one.
    Copy,
}

/// One entry of the link-time table: a source range, a destination range and
/// whether the destination is filled or copied into.
#[derive(Clone, Copy, Debug, PartialEq, Eq, Structural)]
pub struct MemoryRegion {
    pub kind: RegionKind,
    pub source: ByteRange,
    pub dest: ByteRange,
}

impl MemoryRegion {
    /// A region can be processed on a memory image of `mem_len` bytes when
    /// its destination lies inside the image and, for a copy, so does its
    /// source, which has the destination's length.
    pub open spec fn valid_for(self, mem_len: nat) -> bool {
        &&& self.dest.fits(mem_len)
        &&& self.kind is Copy ==> self.source.fits(mem_len) && self.source.len == self.dest.len
    }

    /// The byte that the destination offset `addr` holds once the region has
    /// been processed on the image `mem`.
    pub open spec fn expected_byte(self, mem: Seq<u8>, addr: int) -> u8 {
        match self.kind {
            RegionKind::Zero => 0u8,
            RegionKind::Copy => mem[self.source.start + (addr - self.dest.start)],
        }
    }

    /// The memory image after the region has been processed on `mem`: the
    /// destination holds the expected bytes, read from `mem` as it was before
    /// any of them was written, and every other byte is as before.
    pub open spec fn apply(self, mem: Seq<u8>) -> Seq<u8> {
        Seq::new(
            mem.len(),
            |addr: int|
                if self.dest.contains(addr) {
                    self.expected_byte(mem, addr)
                } else {
                    mem[addr]
                },
        )
    }

    /// A region of `len` bytes at `dest_start` that is to be zeroed.
    pub fn zero(dest_start: usize, len: usize) -> (r: MemoryRegion)
        ensures
            r.kind is Zero,
            r.dest == (ByteRange { start: dest_start, len }),
            r.source == (ByteRange { start: 0, len: 0 }),
    {
        MemoryRegion {
            kind: RegionKind::Zero,
            source: ByteRange { start: 0, len: 0 },
            dest: ByteRange { start: dest_start, len },
        }
    }

    /// A region of `len` bytes at `dest_start` that is to receive the `len`
    /// bytes at `source_start`.
    pub fn copy(source_start: usize, dest_start: usize, len: usize) -> (r: MemoryRegion)
        ensures
            r.kind is Copy,
            r.source == (ByteRange { start: source_start, len }),
            r.dest == (ByteRange { start: dest_start, len }),
    {
        MemoryRegion {
            kind: RegionKind::Copy,
            source: ByteRange { start: source_start, len },
            dest: ByteRange { start: dest_start, len },
        }
    }

    /// Decides `valid_for`.
    pub fn is_valid_for(&self, mem_len: usize) -> (b: bool)
        ensures
            b == self.valid_for(mem_len as nat),
    {
        if !self.dest.fits_in(mem_len) {
            return false;
        }
        match self.kind {
            RegionKind::Zero => true,
            RegionKind::Copy => self.source.fits_in(mem_len) && self.source.len == self.dest.len,
        }
    }
}

/// Every region of the table can be processed on an image of `mem_len` bytes.
pub open spec fn table_fits(table: Seq<MemoryRegion>, mem_len: nat) -> bool {
    forall|k: int| 0 <= k < table.len() ==> (#[trigger] table[k]).valid_for(mem_len)
}

/// No region of the table disturbs another: destinations are pairwise
/// disjoint, and no region writes into the source of a copy that comes later
/// in the table. A copy may still overlap its own source.
pub open spec fn table_independent(table: Seq<MemoryRegion>) -> bool {
    forall|j: int, k: int|
        #![trigger table[j], table[k]]
        0 <= j < k < table.len() ==> {
            &&& !table[j].dest.overlaps(table[k].dest)
            &&& table[k].kind is Copy ==> !table[j].dest.overlaps(table[k].source)
        }
}

/// The memory image after the regions of the table have been processed on
/// `mem` one after another, first entry first.
pub open spec fn apply_table(table: Seq<MemoryRegion>, mem: Seq<u8>) -> Seq<u8>
    decreases table.len(),
{
    if table.len() == 0 {
        mem
    } else {
        table.last().apply(apply_table(table.drop_last(), mem))
    }
}

/// Decides `table_fits`.
pub fn table_fits_in(table: &[MemoryRegion], mem_len: usize) -> (b: bool)
    ensures
        b == table_fits(table@, mem_len as nat),
{
    let n: usize = table.len();
    let mut i: usize = 0;
    while i < n
        invariant
            i <= n,
            n == table@.len(),
            forall|k: int| 0 <= k < i ==> (#[trigger] table@[k]).valid_for(mem_len as nat),
        decreases n - i,
    {
        if !table[i].is_valid_for(mem_len) {
            return false;
        }
        i = i + 1;
    }
    true
}

/// Decides `table_independent`.
pub fn table_is_independent(table: &[MemoryRegion]) -> (b: bool)
    ensures
        b == table_independent(table@),
{
    let n: usize = table.len();
    let mut k: usize = 0;
    while k < n
        invariant
            k <= n,
            n == table@.len(),
            forall|j: int, m: int|
                #![trigger table@[j], table@[m]]
                0 <= j < m < k ==> {
                    &&& !table@[j].dest.overlaps(table@[m].dest)
                    &&& table@[m].kind is Copy ==> !table@[j].dest.overlaps(table@[m].source)
                },
        decreases n - k,
    {
        let later: MemoryRegion = table[k];
        let mut j: usize = 0;
        while j < k
            invariant
                j <= k,
                k < n,
                n == table@.len(),
                later == table@[k as int],
                forall|i: int|
                    #![trigger table@[i]]
                    0 <= i < j ==> {
                        &&& !table@[i].dest.overlaps(later.dest)
                        &&& later.kind is Copy ==> !table@[i].dest.overlaps(later.source)
                    },
            decreases k - j,
        {
            let earlier: MemoryRegion = table[j];
            if earlier.dest.intersects(&later.dest) {
                return false;
            }
            match later.kind {
                RegionKind::Zero => {},
                RegionKind::Copy => {
                    if earlier.dest.intersects(&later.source) {
                        return false;
                    }
                },
            }
            j = j + 1;
        }
        k = k + 1;
    }
    true
}

} // verus!
