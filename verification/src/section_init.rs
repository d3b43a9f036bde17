//! The section initializer: brings every region of the link-time table into
//! its initial state before any code may observe the memory behind it.

use vstd::prelude::*;
use crate::region::{apply_table, table_fits, table_independent, ByteRange, MemoryRegion, RegionKind};

verus! {

/// Sets every byte of `dest` to zero and leaves the rest of the image alone.
pub fn zero_range(mem: &mut [u8], dest: ByteRange)
    requires
        dest.fits(old(mem)@.len()),
    ensures
        final(mem)@ == (MemoryRegion {
            kind: RegionKind::Zero,
            source: ByteRange { start: 0, len: 0 },
            dest,
        }).apply(old(mem)@),
{
    let size: usize = mem.len();
    let mut done: usize = 0;
    while done < dest.len
        invariant
            done <= dest.len,
            dest.start + dest.len <= size,
            size == mem@.len(),
            mem@.len() == old(mem)@.len(),
            forall|a: int| dest.start <= a < dest.start + done ==> mem@[a] == 0u8,
            forall|a: int|
                0 <= a < dest.start || dest.start + done <= a < size ==> mem@[a] == old(mem)@[a],
        decreases dest.len - done,
    {
        mem[dest.start + done] = 0u8;
        done = done + 1;
    }
}

/// Copies the bytes of `source` to `dest`, one for one. Where the two ranges
/// overlap, the direction of the copy is chosen so that every source byte is
/// read before it is overwritten: the destination ends up with the source as
/// it was when the copy began.
pub fn copy_range(mem: &mut [u8], source: ByteRange, dest: ByteRange)
    requires
        source.fits(old(mem)@.len()),
        dest.fits(old(mem)@.len()),
        source.len == dest.len,
    ensures
        final(mem)@ == (MemoryRegion { kind: RegionKind::Copy, source, dest }).apply(old(mem)@),
{
    let size: usize = mem.len();
    let count: usize = dest.len;
    if dest.start <= source.start {
        let mut done: usize = 0;
        while done < count
            invariant
                done <= count,
                count == dest.len,
                count == source.len,
                dest.start <= source.start,
                source.start + count <= size,
                size == mem@.len(),
                mem@.len() == old(mem)@.len(),
                forall|a: int|
                    dest.start <= a < dest.start + done ==> mem@[a] == old(mem)@[source.start + (a
                        - dest.start)],
                forall|a: int|
                    0 <= a < dest.start || dest.start + done <= a < size ==> mem@[a]
                        == old(mem)@[a],
            decreases count - done,
        {
            let byte: u8 = mem[source.start + done];
            mem[dest.start + done] = byte;
            done = done + 1;
        }
    } else {
        let mut left: usize = count;
        while left > 0
            invariant
                left <= count,
                count == dest.len,
                count == source.len,
                source.start < dest.start,
                dest.start + count <= size,
                size == mem@.len(),
                mem@.len() == old(mem)@.len(),
                forall|a: int|
                    dest.start + left <= a < dest.start + count ==> mem@[a]
                        == old(mem)@[source.start + (a - dest.start)],
                forall|a: int|
                    0 <= a < dest.start + left || dest.start + count <= a < size ==> mem@[a]
                        == old(mem)@[a],
            decreases left,
        {
            left = left - 1;
            let byte: u8 = mem[source.start + left];
            mem[dest.start + left] = byte;
        }
    }
}

/// Processes one region of the table.
pub fn init_region(mem: &mut [u8], region: &MemoryRegion)
    requires
        region.valid_for(old(mem)@.len()),
    ensures
        final(mem)@ == region.apply(old(mem)@),
{
    match region.kind {
        RegionKind::Zero => {
            zero_range(mem, region.dest);
        },
        RegionKind::Copy => {
            copy_range(mem, region.source, region.dest);
        },
    }
}

/// Processing a table never changes the size of the image.
pub proof fn lemma_apply_table_len(table: Seq<MemoryRegion>, mem: Seq<u8>)
    ensures
        apply_table(table, mem).len() == mem.len(),
    decreases table.len(),
{
    if table.len() > 0 {
        lemma_apply_table_len(table.drop_last(), mem);
    }
}

/// A byte that lies in no destination of the table is left as it was.
pub proof fn lemma_apply_table_untouched(table: Seq<MemoryRegion>, mem: Seq<u8>, addr: int)
    requires
        0 <= addr < mem.len(),
        forall|k: int| 0 <= k < table.len() ==> !(#[trigger] table[k]).dest.contains(addr),
    ensures
        apply_table(table, mem)[addr] == mem[addr],
    decreases table.len(),
{
    if table.len() > 0 {
        let earlier = table.drop_last();
        lemma_apply_table_len(earlier, mem);
        assert forall|k: int| 0 <= k < earlier.len() implies !(#[trigger] earlier[k]).dest.contains(
            addr,
        ) by {
            assert(earlier[k] == table[k]);
        }
        lemma_apply_table_untouched(earlier, mem, addr);
        assert(!table[table.len() - 1].dest.contains(addr));
    }
}

/// On a table whose regions do not disturb one another, every destination
/// byte of every region ends up as that region alone would have left it on
/// the image as it was at first: zero in a zeroed region, and in a copied region the
/// source byte as it was before the table was processed.
pub proof fn lemma_apply_table_region(
    table: Seq<MemoryRegion>,
    mem: Seq<u8>,
    k: int,
    addr: int,
)
    requires
        table_fits(table, mem.len()),
        table_independent(table),
        0 <= k < table.len(),
        table[k].dest.contains(addr),
    ensures
        apply_table(table, mem)[addr] == table[k].expected_byte(mem, addr),
    decreases table.len(),
{
    let n = table.len() - 1;
    let earlier = table.drop_last();
    let before = apply_table(earlier, mem);
    let last = table[n];
    lemma_apply_table_len(earlier, mem);
    assert(table[k].valid_for(mem.len()));
    assert(last.valid_for(mem.len()));
    if k == n {
        if last.kind is Copy {
            let from = last.source.start + (addr - last.dest.start);
            assert forall|j: int| 0 <= j < earlier.len() implies !(#[trigger] earlier[j]).dest.contains(
                from,
            ) by {
                assert(earlier[j] == table[j]);
                assert(!table[j].dest.overlaps(table[n].source));
            }
            lemma_apply_table_untouched(earlier, mem, from);
        }
    } else {
        assert(!table[k].dest.overlaps(table[n].dest));
        assert(!last.dest.contains(addr));
        assert forall|j: int| 0 <= j < earlier.len() implies (#[trigger] earlier[j]).valid_for(
            mem.len(),
        ) by {
            assert(earlier[j] == table[j]);
        }
        assert forall|i: int, j: int|
            #![trigger earlier[i], earlier[j]]
            0 <= i < j < earlier.len() implies {
            &&& !earlier[i].dest.overlaps(earlier[j].dest)
            &&& earlier[j].kind is Copy ==> !earlier[i].dest.overlaps(earlier[j].source)
        } by {
            assert(earlier[i] == table[i]);
            assert(earlier[j] == table[j]);
        }
        assert(earlier[k] == table[k]);
        lemma_apply_table_region(earlier, mem, k, addr);
    }
}

/// The section initializer. Processes the regions of the table in order, on
/// the memory image that they describe. Each region is applied to the image
/// as the regions before it left it.
///
/// Where no region disturbs another, this is what boot code relies on: after
/// the call every byte of a zeroed destination is zero, and every byte of a
/// copied destination equals its source byte as it was before the call.
pub fn init_sections(mem: &mut [u8], table: &[MemoryRegion])
    requires
        table_fits(table@, old(mem)@.len()),
    ensures
        final(mem)@ == apply_table(table@, old(mem)@),
        final(mem)@.len() == old(mem)@.len(),
        table_independent(table@) ==> forall|k: int, addr: int|
            0 <= k < table@.len() && #[trigger] table@[k].dest.contains(addr) ==> final(mem)@[addr]
                == table@[k].expected_byte(old(mem)@, addr),
{
    let n: usize = table.len();
    let mut i: usize = 0;
    while i < n
        invariant
            i <= n,
            n == table@.len(),
            table_fits(table@, old(mem)@.len()),
            mem@.len() == old(mem)@.len(),
            mem@ == apply_table(table@.take(i as int), old(mem)@),
        decreases n - i,
    {
        proof {
            assert(table@.take(i + 1).drop_last() =~= table@.take(i as int));
            assert(table@.take(i + 1).last() == table@[i as int]);
            assert(table@[i as int].valid_for(old(mem)@.len()));
        }
        init_region(mem, &table[i]);
        i = i + 1;
    }
    proof {
        assert(table@.take(n as int) =~= table@);
        if table_independent(table@) {
            assert forall|k: int, addr: int|
                0 <= k < table@.len() && #[trigger] table@[k].dest.contains(addr) implies mem@[addr]
                == table@[k].expected_byte(old(mem)@, addr) by {
                lemma_apply_table_region(table@, old(mem)@, k, addr);
            }
        }
    }
}

} // verus!
