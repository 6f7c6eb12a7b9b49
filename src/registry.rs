use std::collections::HashMap;

use vstd::prelude::*;

use crate::area::AreaInfo;
use crate::error::Error;
use crate::page::{page_aligned, page_floor, PAGE_SIZE};

verus! {

/// Whether an area's record describes whole pages that lie inside the
/// address space: a page-aligned start and a length in whole pages.
pub open spec fn page_span(info: AreaInfo) -> bool {
    &&& page_aligned(info.address as int)
    &&& page_aligned(info.size as int)
    &&& info.address + info.size <= usize::MAX + 1
}

/// Whether page key `k` lies `lo` bytes or more, and less than `hi` bytes,
/// past `base`, on a page boundary relative to `base`.
pub open spec fn in_window(base: int, lo: int, hi: int, k: int) -> bool {
    &&& base + lo <= k < base + hi
    &&& (k - base) % (PAGE_SIZE as int) == 0
}

/// The page keys of an area: the start of each of its pages.
pub open spec fn span_pages(info: AreaInfo) -> Set<usize> {
    Set::new(|k: usize| in_window(info.address as int, 0, info.size as int, k as int))
}

/// The entries that registering an area adds: each of its pages, owned by it.
pub open spec fn span_entries(info: AreaInfo) -> Map<usize, i32> {
    Map::new(
        |k: usize| in_window(info.address as int, 0, info.size as int, k as int),
        |k: usize| info.area,
    )
}

/// What a lookup of `address` in the page table `m` gives: the owner of the
/// page that holds the address, if that page has an entry.
pub open spec fn lookup_result(m: Map<usize, i32>, address: usize) -> Result<i32, Error> {
    let key = page_floor(address as int) as usize;
    if m.contains_key(key) {
        Ok(m[key])
    } else {
        Err(Error::UnmappedRegion)
    }
}

/// Lowering a window's bottom by one page adds exactly the page at the new bottom.
proof fn lemma_window_step(base: int, s: int, hi: int, k: int)
    requires
        PAGE_SIZE <= s <= hi,
        page_aligned(s),
    ensures
        in_window(base, s - PAGE_SIZE, hi, k) <==> (in_window(base, s, hi, k) || k == base + s
            - PAGE_SIZE),
{
    if base + s - PAGE_SIZE < k < base + s {
        assert((k - base) % (PAGE_SIZE as int) != 0);
    }
}

/// The pages of table `m` that area `area` owns.
pub open spec fn pages_owned(m: Map<usize, i32>, area: i32) -> Set<usize> {
    Set::new(|k: usize| m.contains_key(k) && m[k] == area)
}

/// Whether two areas' byte ranges do not overlap.
pub open spec fn spans_disjoint(a: AreaInfo, b: AreaInfo) -> bool {
    a.address + a.size <= b.address || b.address + b.size <= a.address
}

/// The table after registering each area of `areas` in turn, starting from `m`.
pub open spec fn register_all(m: Map<usize, i32>, areas: Seq<AreaInfo>) -> Map<usize, i32>
    decreases areas.len(),
{
    if areas.len() == 0 {
        m
    } else {
        register_all(m, areas.drop_last()).union_prefer_right(span_entries(areas.last()))
    }
}

/// The page that holds an address of an area is one of the area's page keys.
proof fn lemma_page_of_address_in_span(info: AreaInfo, address: usize)
    requires
        page_span(info),
        info.address <= address < info.address + info.size,
    ensures
        in_window(info.address as int, 0, info.size as int, page_floor(address as int)),
        0 <= page_floor(address as int) <= usize::MAX,
{
}

/// After an area is registered, every address inside it resolves to that area.
pub proof fn lemma_registered_area_resolves(m: Map<usize, i32>, info: AreaInfo, address: usize)
    requires
        page_span(info),
        info.address <= address < info.address + info.size,
    ensures
        lookup_result(m.union_prefer_right(span_entries(info)), address) == Ok::<i32, Error>(
            info.area,
        ),
{
    lemma_page_of_address_in_span(info, address);
}

/// After an area is unregistered, no address inside it resolves to anything.
pub proof fn lemma_unregistered_area_unmapped(m: Map<usize, i32>, info: AreaInfo, address: usize)
    requires
        page_span(info),
        info.address <= address < info.address + info.size,
    ensures
        lookup_result(m.remove_keys(span_pages(info)), address) == Err::<i32, Error>(
            Error::UnmappedRegion,
        ),
{
    lemma_page_of_address_in_span(info, address);
}

/// Registrations of non-overlapping areas, made one after another as the
/// table's lock orders them, leave each address of each area resolving to
/// that area: none of them hides the pages of another.
pub proof fn lemma_registrations_resolve(
    m: Map<usize, i32>,
    areas: Seq<AreaInfo>,
    i: int,
    address: usize,
)
    requires
        forall|j: int| 0 <= j < areas.len() ==> page_span(#[trigger] areas[j]),
        forall|j: int, l: int|
            0 <= j < areas.len() && 0 <= l < areas.len() && j != l ==> spans_disjoint(
                #[trigger] areas[j],
                #[trigger] areas[l],
            ),
        0 <= i < areas.len(),
        areas[i].address <= address < areas[i].address + areas[i].size,
    ensures
        lookup_result(register_all(m, areas), address) == Ok::<i32, Error>(areas[i].area),
    decreases areas.len(),
{
    let last = areas.len() - 1;
    if i == last {
        lemma_registered_area_resolves(register_all(m, areas.drop_last()), areas[i], address);
    } else {
        let prev = areas.drop_last();
        assert(prev[i] == areas[i]);
        assert forall|j: int, l: int|
            0 <= j < prev.len() && 0 <= l < prev.len() && j != l implies spans_disjoint(
            #[trigger] prev[j],
            #[trigger] prev[l],
        ) by {
            assert(prev[j] == areas[j] && prev[l] == areas[l]);
        }
        lemma_registrations_resolve(m, prev, i, address);
        lemma_page_of_address_in_span(areas[i], address);
        assert(spans_disjoint(areas[i], areas[last]));
        assert(!span_entries(areas.last()).contains_key(page_floor(address as int) as usize));
    }
}

/// Distinct areas never own a common page: each page has one owner.
pub proof fn lemma_owners_disjoint(m: Map<usize, i32>, a: i32, b: i32)
    requires
        a != b,
    ensures
        pages_owned(m, a).disjoint(pages_owned(m, b)),
{
}

/// The table of every page reserved through this library, each mapped to the
/// identifier of the area that owns it.
pub struct Registry {
    pages: HashMap<usize, i32>,
}

impl View for Registry {
    type V = Map<usize, i32>;

    closed spec fn view(&self) -> Map<usize, i32> {
        self.pages@
    }
}

impl Registry {
    /// Every key is the start of a page.
    pub open spec fn wf(&self) -> bool {
        forall|k: usize| #[trigger] self@.contains_key(k) ==> page_aligned(k as int)
    }

    /// An empty table.
    pub fn new() -> (r: Registry)
        ensures
            r@ == Map::<usize, i32>::empty(),
            r.wf(),
    {
        Registry { pages: HashMap::new() }
    }

    /// The number of pages that have an entry.
    pub fn page_count(&self) -> (r: usize)
        ensures
            r == self@.len(),
    {
        self.pages.len()
    }

    /// Whether a record describes whole pages inside the address space, as
    /// `register` and `unregister` need.
    pub fn is_page_span(info: &AreaInfo) -> (r: bool)
        ensures
            r == page_span(*info),
    {
        info.address % PAGE_SIZE == 0 && info.size % PAGE_SIZE == 0 && (info.size == 0
            || info.size - 1 <= usize::MAX - info.address)
    }

    /// Enters each page of an area, owned by that area, walking from the
    /// area's last page down to its first. Other entries stay as they were.
    pub fn register(&mut self, info: &AreaInfo)
        requires
            old(self).wf(),
            page_span(*info),
        ensures
            final(self)@ == old(self)@.union_prefer_right(span_entries(*info)),
            final(self).wf(),
    {
        let base = info.address;
        let mut s: usize = info.size;
        while s >= PAGE_SIZE
            invariant
                page_span(*info),
                base == info.address,
                s <= info.size,
                page_aligned(s as int),
                self.wf(),
                self@ == old(self)@.union_prefer_right(
                    Map::new(
                        |k: usize| in_window(base as int, s as int, info.size as int, k as int),
                        |k: usize| info.area,
                    ),
                ),
            decreases s,
        {
            s = s - PAGE_SIZE;
            self.pages.insert(base + s, info.area);
            assert(self@ =~= old(self)@.union_prefer_right(
                Map::new(
                    |k: usize| in_window(base as int, s as int, info.size as int, k as int),
                    |k: usize| info.area,
                ),
            ));
        }
        assert(self@ =~= old(self)@.union_prefer_right(span_entries(*info)));
    }

    /// Removes the entry of each page of an area, walking from the area's
    /// last page down to its first. Other entries stay as they were.
    pub fn unregister(&mut self, info: &AreaInfo)
        requires
            old(self).wf(),
            page_span(*info),
        ensures
            final(self)@ == old(self)@.remove_keys(span_pages(*info)),
            final(self).wf(),
    {
        let base = info.address;
        let mut s: usize = info.size;
        while s >= PAGE_SIZE
            invariant
                page_span(*info),
                base == info.address,
                s <= info.size,
                page_aligned(s as int),
                self.wf(),
                self@ == old(self)@.remove_keys(
                    Set::new(
                        |k: usize| in_window(base as int, s as int, info.size as int, k as int),
                    ),
                ),
            decreases s,
        {
            s = s - PAGE_SIZE;
            self.pages.remove(&(base + s));
            assert forall|k: usize|
                in_window(base as int, s as int, info.size as int, k as int) <==> (in_window(
                    base as int,
                    s + PAGE_SIZE,
                    info.size as int,
                    k as int,
                ) || k == base + s) by {
                lemma_window_step(base as int, s + PAGE_SIZE, info.size as int, k as int);
            }
            assert(self@ =~= old(self)@.remove_keys(
                Set::new(|k: usize| in_window(base as int, s as int, info.size as int, k as int)),
            ));
        }
        assert(self@ =~= old(self)@.remove_keys(span_pages(*info)));
    }

    /// The area that owns the page holding `address`, or `UnmappedRegion`
    /// where that page has no entry.
    pub fn lookup(&self, address: usize) -> (r: Result<i32, Error>)
        ensures
            r == lookup_result(self@, address),
    {
        let key = address - address % PAGE_SIZE;
        match self.pages.get(&key) {
            Some(area) => Ok(*area),
            None => Err(Error::UnmappedRegion),
        }
    }
}

} // verus!
