//! Per-task address spaces: the region list and the page map it stands for.
//!
//! Regions are kept in units of virtual page numbers, so every boundary is
//! page-aligned by construction. Backing frames are bound eagerly by the
//! platform layer when a region is recorded here; this module is the
//! bookkeeping that decides which pages a task holds and with what rights.
use vstd::prelude::*;
use crate::config::PAGE_SIZE;

verus! {

/// Access rights of a mapped page.
#[derive(Clone, Copy, Debug, PartialEq, Eq, Structural)]
pub struct MapPermission {
    pub readable: bool,
    pub writable: bool,
    pub executable: bool,
    pub user: bool,
}

/// One contiguous run of virtual pages, `start_vpn` included and `end_vpn`
/// excluded, all mapped with the same rights.
#[derive(Clone, Copy, Debug, PartialEq, Eq, Structural)]
pub struct MapArea {
    pub start_vpn: usize,
    pub end_vpn: usize,
    pub perm: MapPermission,
}

/// The address space of one task.
#[derive(Debug)]
pub struct MemorySet {
    pub areas: Vec<MapArea>,
}

/// Number of the page that holds the byte address `addr`.
pub open spec fn page_floor(addr: int) -> int {
    addr / (PAGE_SIZE as int)
}

/// Number of the first page that starts at or after the byte address `addr`.
pub open spec fn page_ceil(addr: int) -> int {
    (addr + PAGE_SIZE - 1) / (PAGE_SIZE as int)
}

/// The set of page numbers from `s` up to, not including, `e`.
pub open spec fn page_range(s: int, e: int) -> Set<int> {
    Set::new(|v: int| s <= v < e)
}

/// The pages from `s` up to, not including, `e`, each with the rights `perm`.
pub open spec fn range_pages(s: int, e: int, perm: MapPermission) -> Map<int, MapPermission> {
    Map::new(|v: int| s <= v < e, |v: int| perm)
}

/// The pages of one region, each with the region's rights.
pub open spec fn area_pages(a: MapArea) -> Map<int, MapPermission> {
    Map::new(|v: int| a.start_vpn <= v < a.end_vpn, |v: int| a.perm)
}

/// The page map that a list of regions stands for.
pub open spec fn pages_of(areas: Seq<MapArea>) -> Map<int, MapPermission>
    decreases areas.len(),
{
    if areas.len() == 0 {
        Map::empty()
    } else {
        pages_of(areas.drop_last()).union_prefer_right(area_pages(areas.last()))
    }
}

/// Two regions share no page.
pub open spec fn disjoint(a: MapArea, b: MapArea) -> bool {
    a.end_vpn <= b.start_vpn || b.end_vpn <= a.start_vpn
}

/// Every region is non-empty and no two regions overlap.
pub open spec fn areas_wf(areas: Seq<MapArea>) -> bool {
    &&& forall|i: int| 0 <= i < areas.len() ==> (#[trigger] areas[i]).start_vpn < areas[i].end_vpn
    &&& forall|i: int, j: int|
        0 <= i < j < areas.len() ==> disjoint(#[trigger] areas[i], #[trigger] areas[j])
}

/// A page inside one of the regions is in the page map.
pub proof fn lemma_area_mapped(areas: Seq<MapArea>, i: int, v: int)
    requires
        0 <= i < areas.len(),
        areas[i].start_vpn <= v < areas[i].end_vpn,
    ensures
        pages_of(areas).dom().contains(v),
    decreases areas.len(),
{
    if i < areas.len() - 1 {
        lemma_area_mapped(areas.drop_last(), i, v);
    }
}

/// A page inside none of the regions is not in the page map.
pub proof fn lemma_unmapped(areas: Seq<MapArea>, v: int)
    requires
        forall|i: int| 0 <= i < areas.len() ==> !((#[trigger] areas[i]).start_vpn <= v < areas[i].end_vpn),
    ensures
        !pages_of(areas).dom().contains(v),
    decreases areas.len(),
{
    if areas.len() > 0 {
        let rest = areas.drop_last();
        assert forall|i: int| 0 <= i < rest.len() implies !((#[trigger] rest[i]).start_vpn <= v
            < rest[i].end_vpn) by {
            assert(rest[i] == areas[i]);
        }
        lemma_unmapped(rest, v);
        assert(areas.last() == areas[areas.len() - 1]);
    }
}

/// In a well-formed region list, a page of a region carries that region's rights.
pub proof fn lemma_area_perm(areas: Seq<MapArea>, i: int, v: int)
    requires
        areas_wf(areas),
        0 <= i < areas.len(),
        areas[i].start_vpn <= v < areas[i].end_vpn,
    ensures
        pages_of(areas).dom().contains(v),
        pages_of(areas)[v] == areas[i].perm,
    decreases areas.len(),
{
    lemma_area_mapped(areas, i, v);
    if i < areas.len() - 1 {
        let rest = areas.drop_last();
        assert(rest[i] == areas[i]);
        assert(disjoint(areas[i], areas[areas.len() - 1]));
        assert forall|a: int, b: int| 0 <= a < b < rest.len() implies disjoint(
            #[trigger] rest[a],
            #[trigger] rest[b],
        ) by {
            assert(rest[a] == areas[a] && rest[b] == areas[b]);
        }
        assert forall|a: int| 0 <= a < rest.len() implies (#[trigger] rest[a]).start_vpn
            < rest[a].end_vpn by {
            assert(rest[a] == areas[a]);
        }
        lemma_area_perm(rest, i, v);
    }
}

/// Mapping a free range and unmapping the same range at once gives back the
/// page map as it was: right after the mapping every page of the range is
/// mapped, so the unmapping is owed, and what it leaves is the first map.
pub proof fn lemma_mmap_munmap_round_trip(
    pages: Map<int, MapPermission>,
    s: int,
    e: int,
    perm: MapPermission,
)
    requires
        forall|v: int| s <= v < e ==> !pages.dom().contains(v),
    ensures
        forall|v: int|
            s <= v < e ==> #[trigger] pages.union_prefer_right(
                range_pages(s, e, perm),
            ).dom().contains(v),
        pages.union_prefer_right(range_pages(s, e, perm)).remove_keys(page_range(s, e)) == pages,
{
    assert(pages.union_prefer_right(range_pages(s, e, perm)).remove_keys(page_range(s, e))
        =~= pages);
}

impl View for MemorySet {
    type V = Map<int, MapPermission>;

    /// The mapped pages, by page number, each with its rights.
    open spec fn view(&self) -> Map<int, MapPermission> {
        pages_of(self.areas@)
    }
}

impl MemorySet {
    /// The region list is well-formed.
    pub open spec fn wf(&self) -> bool {
        areas_wf(self.areas@)
    }

    /// No page from `s` up to `e` is mapped.
    pub open spec fn range_free(&self, s: int, e: int) -> bool {
        forall|v: int| s <= v < e ==> !self@.dom().contains(v)
    }

    /// Every page from `s` up to `e` is mapped.
    pub open spec fn range_mapped(&self, s: int, e: int) -> bool {
        forall|v: int| s <= v < e ==> self@.dom().contains(v)
    }

    /// An address space with no page mapped.
    pub fn new_bare() -> (ms: MemorySet)
        ensures
            ms.wf(),
            ms@ == Map::<int, MapPermission>::empty(),
            ms.areas@.len() == 0,
    {
        MemorySet { areas: Vec::new() }
    }

    /// Maps the pages that cover the bytes from `start` up to `start + len`
    /// with the rights `perm`. Returns 0 when done, and -1 with nothing
    /// changed when the range runs past the end of the address space or holds
    /// a page that is mapped already.
    pub fn mmap(&mut self, start: usize, len: usize, perm: MapPermission) -> (res: isize)
        requires
            old(self).wf(),
        ensures
            final(self).wf(),
            res == 0 || res == -1,
            res == 0 <==> start + len <= usize::MAX && old(self).range_free(
                page_floor(start as int),
                page_ceil(start + len),
            ),
            res == 0 ==> final(self)@ == old(self)@.union_prefer_right(
                range_pages(page_floor(start as int), page_ceil(start + len), perm),
            ),
            res != 0 ==> *final(self) == *old(self),
    {
        if len > usize::MAX - start {
            return -1;
        }
        let end: usize = start + len;
        let s: usize = start / PAGE_SIZE;
        let e: usize = end / PAGE_SIZE + (if end % PAGE_SIZE != 0 { 1usize } else { 0usize });
        assert(s == page_floor(start as int) && e == page_ceil(start + len));
        if s >= e {
            assert(self@ =~= self@.union_prefer_right(
                range_pages(s as int, e as int, perm),
            ));
            return 0;
        }
        let n: usize = self.areas.len();
        let mut i: usize = 0;
        while i < n
            invariant
                i <= n,
                n == self.areas@.len(),
                *self == *old(self),
                self.wf(),
                s < e,
                start + len <= usize::MAX,
                s == page_floor(start as int),
                e == page_ceil(start + len),
                forall|j: int| 0 <= j < i ==> (#[trigger] self.areas@[j]).end_vpn <= s || e <= self.areas@[j].start_vpn,
            decreases n - i,
        {
            let a: MapArea = self.areas[i];
            if a.start_vpn < e && s < a.end_vpn {
                proof {
                    let w: int = if s >= a.start_vpn { s as int } else { a.start_vpn as int };
                    lemma_area_mapped(self.areas@, i as int, w);
                    assert(s <= w < e);
                    assert(old(self)@.dom().contains(w));
                }
                return -1;
            }
            i += 1;
        }
        proof {
            assert forall|v: int| s <= v < e implies !self@.dom().contains(v) by {
                lemma_unmapped(self.areas@, v);
            }
        }
        let area = MapArea { start_vpn: s, end_vpn: e, perm };
        self.areas.push(area);
        proof {
            assert(self.areas@.drop_last() =~= old(self).areas@);
            assert(self.areas@.last() == area);
            assert(area_pages(area) =~= range_pages(s as int, e as int, perm));
        }
        0
    }

    /// Unmaps the pages that cover the bytes from `start` up to `start + len`.
    /// Returns 0 when done, and -1 with nothing changed when the range runs
    /// past the end of the address space or holds a page that is not mapped.
    pub fn munmap(&mut self, start: usize, len: usize) -> (res: isize)
        requires
            old(self).wf(),
        ensures
            final(self).wf(),
            res == 0 || res == -1,
            res == 0 <==> start + len <= usize::MAX && old(self).range_mapped(
                page_floor(start as int),
                page_ceil(start + len),
            ),
            res == 0 ==> final(self)@ == old(self)@.remove_keys(
                page_range(page_floor(start as int), page_ceil(start + len)),
            ),
            res != 0 ==> *final(self) == *old(self),
    {
        if len > usize::MAX - start {
            return -1;
        }
        let end: usize = start + len;
        let s: usize = start / PAGE_SIZE;
        let e: usize = end / PAGE_SIZE + (if end % PAGE_SIZE != 0 { 1usize } else { 0usize });
        assert(s == page_floor(start as int) && e == page_ceil(start + len));
        if s >= e {
            assert(self@ =~= self@.remove_keys(page_range(s as int, e as int)));
            return 0;
        }
        let n: usize = self.areas.len();
        let mut cur: usize = s;
        while cur < e
            invariant
                s <= cur,
                n == self.areas@.len(),
                *self == *old(self),
                self.wf(),
                s < e,
                start + len <= usize::MAX,
                s == page_floor(start as int),
                e == page_ceil(start + len),
                forall|v: int| s <= v < cur && v < e ==> self@.dom().contains(v),
            decreases e - cur,
        {
            let mut i: usize = 0;
            let mut next: usize = cur;
            while i < n && next == cur
                invariant
                    i <= n,
                    n == self.areas@.len(),
                    *self == *old(self),
                    cur <= next,
                    next == cur ==> forall|j: int|
                        0 <= j < i ==> !((#[trigger] self.areas@[j]).start_vpn <= cur
                            < self.areas@[j].end_vpn),
                    next != cur ==> 0 < i && self.areas@[i - 1].start_vpn <= cur && next
                        == self.areas@[i - 1].end_vpn,
                decreases n - i,
            {
                let a: MapArea = self.areas[i];
                if a.start_vpn <= cur && cur < a.end_vpn {
                    next = a.end_vpn;
                }
                i += 1;
            }
            if next == cur {
                proof {
                    lemma_unmapped(self.areas@, cur as int);
                    assert(!old(self)@.dom().contains(cur as int));
                }
                return -1;
            }
            proof {
                assert forall|v: int| cur <= v < next implies self@.dom().contains(v) by {
                    lemma_area_mapped(self.areas@, i - 1, v);
                }
            }
            cur = if next < e { next } else { e };
        }
        let ghost before = self.areas@;
        let ghost range = page_range(s as int, e as int);
        let mut kept: Vec<MapArea> = Vec::new();
        let mut k: usize = 0;
        assert(before.take(0) =~= Seq::<MapArea>::empty());
        assert(pages_of(kept@) =~= pages_of(before.take(0)).remove_keys(range));
        while k < n
            invariant
                k <= n,
                n == before.len(),
                before == self.areas@,
                *self == *old(self),
                areas_wf(before),
                s < e,
                range == page_range(s as int, e as int),
                areas_wf(kept@),
                pages_of(kept@) == pages_of(before.take(k as int)).remove_keys(range),
                forall|x: int, j: int|
                    0 <= x < kept@.len() && k <= j < n ==> disjoint(
                        #[trigger] kept@[x],
                        #[trigger] before[j],
                    ),
            decreases n - k,
        {
            let a: MapArea = self.areas[k];
            let ghost kept0 = kept@;
            proof {
                assert(before.take(k + 1).drop_last() =~= before.take(k as int));
                assert(before.take(k + 1).last() == a);
                assert forall|j: int| k < j < n implies disjoint(a, #[trigger] before[j]) by {
                    assert(disjoint(before[k as int], before[j]));
                }
            }
            if a.start_vpn < s {
                let left = MapArea {
                    start_vpn: a.start_vpn,
                    end_vpn: if a.end_vpn < s { a.end_vpn } else { s },
                    perm: a.perm,
                };
                kept.push(left);
                proof {
                    assert(kept@.drop_last() =~= kept0);
                    assert(kept@.last() == left);
                    assert(pages_of(kept@) == pages_of(kept0).union_prefer_right(
                        area_pages(left),
                    ));
                    assert forall|x: int| 0 <= x < kept0.len() implies disjoint(
                        #[trigger] kept@[x],
                        left,
                    ) by {
                        assert(disjoint(kept0[x], before[k as int]));
                    }
                }
            }
            let ghost kept1 = kept@;
            if a.end_vpn > e {
                let right = MapArea {
                    start_vpn: if a.start_vpn > e { a.start_vpn } else { e },
                    end_vpn: a.end_vpn,
                    perm: a.perm,
                };
                kept.push(right);
                proof {
                    assert(kept@.drop_last() =~= kept1);
                    assert(kept@.last() == right);
                    assert(pages_of(kept@) == pages_of(kept1).union_prefer_right(
                        area_pages(right),
                    ));
                    assert forall|x: int| 0 <= x < kept1.len() implies disjoint(
                        #[trigger] kept@[x],
                        right,
                    ) by {
                        if x < kept0.len() {
                            assert(disjoint(kept0[x], before[k as int]));
                        }
                    }
                }
            }
            proof {
                assert(pages_of(kept@) =~= pages_of(kept0).union_prefer_right(
                    area_pages(a).remove_keys(range),
                ));
                assert(pages_of(kept@) =~= pages_of(before.take(k + 1)).remove_keys(range));
            }
            k += 1;
        }
        proof {
            assert(before.take(n as int) =~= before);
        }
        self.areas = kept;
        0
    }
}

} // verus!
