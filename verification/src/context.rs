//! The first execution context: the stack region that the boot owns and the
//! register values with which the main routine is entered.

use vstd::prelude::*;
use crate::region::{ByteRange, MemoryRegion, RegionKind};

verus! {

/// The memory reserved for the boot stack. Nothing else may use it.
#[derive(Clone, Copy, Debug, PartialEq, Eq, Structural)]
pub struct StackRegion {
    /// Offset of the lowest byte, counted as the offsets of the region
    /// table are.
    pub base: usize,
    /// Number of bytes.
    pub size: usize,
}

impl StackRegion {
    /// A stack region has room for at least one byte and ends inside the
    /// address space.
    pub open spec fn wf(self) -> bool {
        self.size > 0 && self.base + self.size <= usize::MAX
    }

    /// The high end of the region, where an empty descending stack points.
    pub open spec fn top(self) -> int {
        self.base + self.size
    }

    /// Whether the byte at `addr` belongs to the stack.
    pub open spec fn owns(self, addr: int) -> bool {
        self.base <= addr < self.base + self.size
    }

    /// The bytes of the region, as a range.
    pub open spec fn range(self) -> ByteRange {
        ByteRange { start: self.base, len: self.size }
    }

    /// No region of the table touches the stack: neither its destination
    /// nor, for a copy, its source.
    pub open spec fn exclusive_of(self, table: Seq<MemoryRegion>) -> bool {
        forall|k: int|
            #![trigger table[k]]
            0 <= k < table.len() ==> {
                &&& !table[k].dest.overlaps(self.range())
                &&& table[k].kind is Copy ==> !table[k].source.overlaps(self.range())
            }
    }

    /// Decides `wf`.
    pub fn is_well_formed(&self) -> (b: bool)
        ensures
            b == self.wf(),
    {
        self.size > 0 && self.base <= usize::MAX - self.size
    }

    /// Decides `exclusive_of`.
    pub fn is_exclusive_of(&self, table: &[MemoryRegion]) -> (b: bool)
        ensures
            b == self.exclusive_of(table@),
    {
        let own: ByteRange = ByteRange { start: self.base, len: self.size };
        let n: usize = table.len();
        let mut i: usize = 0;
        while i < n
            invariant
                i <= n,
                n == table@.len(),
                own == self.range(),
                forall|k: int|
                    #![trigger table@[k]]
                    0 <= k < i ==> {
                        &&& !table@[k].dest.overlaps(own)
                        &&& table@[k].kind is Copy ==> !table@[k].source.overlaps(own)
                    },
            decreases n - i,
        {
            let region: MemoryRegion = table[i];
            if region.dest.intersects(&own) {
                return false;
            }
            if matches!(region.kind, RegionKind::Copy) && region.source.intersects(&own) {
                return false;
            }
            i = i + 1;
        }
        true
    }
}

/// The register state with which the main routine is entered.
#[derive(Clone, Copy, Debug, PartialEq, Eq, Structural)]
pub struct ExecutionContext {
    /// Program counter: the address of the main routine.
    pub pc: usize,
    /// Stack pointer, counted as the base of the stack region is.
    pub sp: usize,
    /// Status register, with the processor mode bits.
    pub status: u32,
}

impl ExecutionContext {
    /// The context that stack setup establishes: the stack pointer at the
    /// high end of the region, the program counter at `entry`, and the
    /// status register as it was at reset with the required mode bits set.
    pub open spec fn established(stack: StackRegion, entry: usize, reset_status: u32, mode_bits: u32)
        -> ExecutionContext {
        ExecutionContext {
            pc: entry,
            sp: (stack.base + stack.size) as usize,
            status: reset_status | mode_bits,
        }
    }

    /// Whether a push of `bytes` bytes stays inside the stack region.
    pub open spec fn can_push(self, stack: StackRegion, bytes: nat) -> bool {
        stack.base <= self.sp - bytes && self.sp <= stack.top()
    }
}

/// Stack and execution context setup. Points the stack pointer at the high
/// end of the reserved region, so that pushes grow downward into memory that
/// the boot owns, and sets the required processor mode bits.
pub fn establish_context(stack: StackRegion, entry: usize, reset_status: u32, mode_bits: u32) -> (ctx:
    ExecutionContext)
    requires
        stack.wf(),
    ensures
        ctx == ExecutionContext::established(stack, entry, reset_status, mode_bits),
        ctx.sp == stack.top(),
        ctx.status & mode_bits == mode_bits,
        forall|addr: int| stack.base <= addr < ctx.sp <==> #[trigger] stack.owns(addr),
        forall|bytes: nat| bytes <= stack.size <==> #[trigger] ctx.can_push(stack, bytes),
{
    let status: u32 = reset_status | mode_bits;
    proof {
        assert((reset_status | mode_bits) & mode_bits == mode_bits) by (bit_vector);
    }
    ExecutionContext { pc: entry, sp: stack.base + stack.size, status }
}

} // verus!
