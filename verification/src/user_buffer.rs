//! Writing a record into user memory that may straddle pages.
//!
//! Two neighbouring virtual pages need not be neighbours in physical memory,
//! so a destination range is handled as an ordered list of pieces, none of
//! which crosses a page boundary. The record's bytes are laid into the pieces
//! one after the other.
use vstd::prelude::*;
use crate::config::PAGE_SIZE;
use crate::mm::page_floor;

verus! {

/// `pieces`, each a start address and a length, cut the `len` bytes from
/// `ptr` on into runs that follow one another without a gap, are none of them
/// empty, stay inside one page each, and break only at page boundaries.
pub open spec fn pieces_cover(pieces: Seq<(usize, usize)>, ptr: int, len: int) -> bool {
    &&& len == 0 ==> pieces.len() == 0
    &&& len > 0 ==> pieces.len() > 0 && pieces[0].0 == ptr && pieces.last().0 + pieces.last().1
        == ptr + len
    &&& forall|i: int|
        0 <= i < pieces.len() ==> (#[trigger] pieces[i]).1 > 0 && page_floor(pieces[i].0 as int)
            == page_floor(pieces[i].0 + pieces[i].1 - 1)
    &&& forall|i: int, j: int|
        0 <= i && j == i + 1 && j < pieces.len() ==> (#[trigger] pieces[i]).0 + pieces[i].1 == (
        #[trigger] pieces[j]).0 && pieces[j].0 % PAGE_SIZE == 0
}

/// Cuts the `len` bytes from the virtual address `ptr` on at every page
/// boundary.
pub fn page_pieces(ptr: usize, len: usize) -> (pieces: Vec<(usize, usize)>)
    requires
        ptr + len <= usize::MAX,
    ensures
        pieces_cover(pieces@, ptr as int, len as int),
{
    let end: usize = ptr + len;
    let mut start: usize = ptr;
    let mut pieces: Vec<(usize, usize)> = Vec::new();
    while start < end
        invariant
            ptr <= start <= end,
            end == ptr + len,
            pieces@.len() == 0 ==> start == ptr,
            pieces@.len() > 0 ==> ptr < start,
            pieces@.len() > 0 ==> pieces@[0].0 == ptr && pieces@.last().0 + pieces@.last().1
                == start,
            pieces@.len() > 0 && start < end ==> start % PAGE_SIZE == 0,
            forall|i: int|
                0 <= i < pieces@.len() ==> (#[trigger] pieces@[i]).1 > 0 && page_floor(
                    pieces@[i].0 as int,
                ) == page_floor(pieces@[i].0 + pieces@[i].1 - 1),
            forall|i: int, j: int|
                0 <= i && j == i + 1 && j < pieces@.len() ==> (#[trigger] pieces@[i]).0
                    + pieces@[i].1 == (#[trigger] pieces@[j]).0 && pieces@[j].0 % PAGE_SIZE == 0,
        decreases end - start,
    {
        let room: usize = PAGE_SIZE - start % PAGE_SIZE;
        let n: usize = if end - start < room { end - start } else { room };
        pieces.push((start, n));
        start += n;
    }
    proof {
        let p = pieces@;
        assert(len > 0 ==> p.len() > 0 && p[0].0 == ptr && p.last().0 + p.last().1 == ptr + len);
        assert forall|i: int| 0 <= i < p.len() implies (#[trigger] p[i]).1 > 0 && page_floor(
            p[i].0 as int,
        ) == page_floor(p[i].0 + p[i].1 - 1) by {}
        assert forall|i: int, j: int| 0 <= i && j == i + 1 && j < p.len() implies (#[trigger] p[i]).0
            + p[i].1 == (#[trigger] p[j]).0 && p[j].0 % PAGE_SIZE == 0 by {}
    }
    pieces
}

/// The number of bytes in the first `i` buffers together.
pub open spec fn offset_of(buffers: Seq<Vec<u8>>, i: int) -> int
    decreases i,
{
    if i <= 0 {
        0
    } else {
        offset_of(buffers, i - 1) + buffers[i - 1]@.len()
    }
}

/// A buffer after the bytes of `src` from position `off` on were laid over
/// it: where `src` has run out, the buffer keeps what it held.
pub open spec fn written(buf: Seq<u8>, src: Seq<u8>, off: int) -> Seq<u8> {
    Seq::new(buf.len(), |j: int| if 0 <= off + j < src.len() { src[off + j] } else { buf[j] })
}

/// The bytes of all buffers, one buffer after the other.
pub open spec fn joined(buffers: Seq<Vec<u8>>) -> Seq<u8>
    decreases buffers.len(),
{
    if buffers.len() == 0 {
        Seq::empty()
    } else {
        joined(buffers.drop_last()) + buffers.last()@
    }
}

proof fn lemma_offset_grows(buffers: Seq<Vec<u8>>, i: int, j: int)
    requires
        0 <= i <= j,
    ensures
        0 <= offset_of(buffers, i) <= offset_of(buffers, j),
    decreases j,
{
    if i < j {
        lemma_offset_grows(buffers, i, j - 1);
    } else if i > 0 {
        lemma_offset_grows(buffers, i - 1, i - 1);
    }
}

proof fn lemma_joined_prefix(before: Seq<Vec<u8>>, after: Seq<Vec<u8>>, src: Seq<u8>, k: int)
    requires
        after.len() == before.len(),
        0 <= k <= before.len(),
        offset_of(before, before.len() as int) == src.len(),
        forall|i: int|
            0 <= i < before.len() ==> (#[trigger] after[i])@ == written(
                before[i]@,
                src,
                offset_of(before, i),
            ),
    ensures
        joined(after.take(k)) == src.take(offset_of(before, k)),
    decreases k,
{
    lemma_offset_grows(before, k, before.len() as int);
    lemma_offset_grows(before, 0, k);
    if k == 0 {
        assert(joined(after.take(0)) =~= src.take(0));
    } else {
        lemma_joined_prefix(before, after, src, k - 1);
        lemma_offset_grows(before, k - 1, k);
        assert(after.take(k).drop_last() =~= after.take(k - 1));
        assert(after.take(k).last() == after[k - 1]);
        assert(joined(after.take(k)) =~= src.take(offset_of(before, k)));
    }
}

/// When the buffers together are exactly as long as the record, the buffers
/// read one after the other are, after the copy, the record.
pub proof fn lemma_copy_reassembles(before: Seq<Vec<u8>>, after: Seq<Vec<u8>>, src: Seq<u8>)
    requires
        after.len() == before.len(),
        offset_of(before, before.len() as int) == src.len(),
        forall|i: int|
            0 <= i < before.len() ==> (#[trigger] after[i])@ == written(
                before[i]@,
                src,
                offset_of(before, i),
            ),
    ensures
        joined(after) == src,
{
    lemma_joined_prefix(before, after, src, before.len() as int);
    assert(after.take(after.len() as int) =~= after);
    assert(src.take(src.len() as int) =~= src);
}

fn fill(buf: &mut Vec<u8>, src: &Vec<u8>, off: usize) -> (next: usize)
    requires
        off <= src@.len(),
    ensures
        final(buf)@ == written(old(buf)@, src@, off as int),
        next == if off + old(buf)@.len() < src@.len() {
            off + old(buf)@.len()
        } else {
            src@.len() as int
        },
{
    let n: usize = buf.len();
    let mut j: usize = 0;
    let mut cur: usize = off;
    while j < n && cur < src.len()
        invariant
            j <= n,
            n == buf@.len(),
            n == old(buf)@.len(),
            cur == off + j,
            cur <= src@.len(),
            forall|k: int| 0 <= k < j ==> buf@[k] == src@[off + k],
            forall|k: int| j <= k < n ==> buf@[k] == old(buf)@[k],
        decreases n - j,
    {
        buf[j] = src[cur];
        j += 1;
        cur += 1;
    }
    assert(buf@ =~= written(old(buf)@, src@, off as int));
    cur
}

/// Copies the bytes of `src` into `buffers`, in order: each buffer takes the
/// next bytes of `src`, as many as it is long. Bytes of `src` for which the
/// buffers have no room are not written, and buffer bytes for which `src`
/// has nothing left keep their value.
pub fn copy_to_buffers(buffers: &mut Vec<Vec<u8>>, src: &Vec<u8>)
    ensures
        final(buffers)@.len() == old(buffers)@.len(),
        forall|i: int|
            0 <= i < old(buffers)@.len() ==> (#[trigger] final(buffers)@[i])@ == written(
                old(buffers)@[i]@,
                src@,
                offset_of(old(buffers)@, i),
            ),
{
    let n: usize = buffers.len();
    let mut i: usize = 0;
    let mut cur: usize = 0;
    while i < n
        invariant
            i <= n,
            n == buffers@.len(),
            n == old(buffers)@.len(),
            cur <= src@.len(),
            0 <= offset_of(old(buffers)@, i as int),
            cur == if offset_of(old(buffers)@, i as int) < src@.len() {
                offset_of(old(buffers)@, i as int)
            } else {
                src@.len() as int
            },
            forall|k: int|
                0 <= k < i ==> (#[trigger] buffers@[k])@ == written(
                    old(buffers)@[k]@,
                    src@,
                    offset_of(old(buffers)@, k),
                ),
            forall|k: int| i <= k < n ==> buffers@[k] == old(buffers)@[k],
        decreases n - i,
    {
        let ghost off = offset_of(old(buffers)@, i as int);
        let ghost prev = buffers@;
        let next = fill(&mut buffers[i], src, cur);
        proof {
            assert(buffers@[i as int]@ == written(prev[i as int]@, src@, cur as int));
            assert(written(old(buffers)@[i as int]@, src@, cur as int) =~= written(
                old(buffers)@[i as int]@,
                src@,
                off,
            ));
            assert forall|k: int| 0 <= k < i implies (#[trigger] buffers@[k])@ == written(
                old(buffers)@[k]@,
                src@,
                offset_of(old(buffers)@, k),
            ) by {
                assert(buffers@[k] == prev[k]);
            }
        }
        cur = next;
        i += 1;
    }
}

} // verus!
