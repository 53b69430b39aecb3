//! Placement of an image: the range of virtual addresses its loadable
//! segments cover and the size of the memory that has to back it.

use vstd::prelude::*;

verus! {

/// Program header type of a segment that is copied into memory.
pub const PT_LOAD: u32 = 1;

/// Granularity in bytes at which the allocator hands out memory.
pub const PAGE_SIZE: u64 = 4096;

/// One program header of the image, as far as loading reads it.
#[derive(Clone, Copy, Debug, PartialEq, Eq)]
pub struct Segment {
    pub p_type: u32,
    pub flags: u32,
    pub offset: u64,
    pub vaddr: u64,
    pub filesz: u64,
    pub memsz: u64,
}

/// Where the image goes: the virtual range it covers and the number of bytes
/// to allocate for it.
#[derive(Clone, Copy, Debug, PartialEq, Eq)]
pub struct LoadLayout {
    pub min_vaddr: u64,
    pub max_vaddr: u64,
    pub image_size: u64,
    pub alloc_size: u64,
}

/// Why no layout exists for a list of segments.
#[derive(Clone, Copy, Debug, PartialEq, Eq)]
pub enum LayoutError {
    /// No segment is loadable.
    NoLoadableSegment,
    /// A loadable segment ends beyond the 64-bit address space, or the size
    /// to allocate does.
    AddressOverflow,
}

/// Whether a segment is copied into memory.
pub open spec fn is_loadable(seg: Segment) -> bool {
    seg.p_type == PT_LOAD
}

/// First virtual address after a segment.
pub open spec fn segment_end(seg: Segment) -> int {
    seg.vaddr + seg.memsz
}

/// Whether one of the first `n` segments is loadable.
pub open spec fn has_loadable(segs: Seq<Segment>, n: int) -> bool {
    exists|i: int| 0 <= i < n && is_loadable(#[trigger] segs[i])
}

/// Whether `m` is the lowest start of the loadable ones among the first `n`
/// segments.
pub open spec fn is_min_vaddr(segs: Seq<Segment>, n: int, m: int) -> bool {
    &&& forall|i: int| 0 <= i < n && is_loadable(#[trigger] segs[i]) ==> m <= segs[i].vaddr
    &&& exists|i: int| 0 <= i < n && is_loadable(#[trigger] segs[i]) && segs[i].vaddr == m
}

/// Whether `m` is the highest end of the loadable ones among the first `n`
/// segments.
pub open spec fn is_max_vaddr(segs: Seq<Segment>, n: int, m: int) -> bool {
    &&& forall|i: int| 0 <= i < n && is_loadable(#[trigger] segs[i]) ==> segment_end(segs[i]) <= m
    &&& exists|i: int| 0 <= i < n && is_loadable(#[trigger] segs[i]) && segment_end(segs[i]) == m
}

/// Whether a loadable one among the first `n` segments ends beyond the
/// address space.
pub open spec fn has_overlong(segs: Seq<Segment>, n: int) -> bool {
    exists|i: int|
        0 <= i < n && is_loadable(#[trigger] segs[i]) && segment_end(segs[i]) > u64::MAX
}

/// `n` rounded up to a multiple of the page size.
pub open spec fn page_round_up(n: int) -> int {
    ((n + (PAGE_SIZE - 1)) / (PAGE_SIZE as int)) * PAGE_SIZE
}

impl LoadLayout {
    /// The relations that hold between the fields of a layout.
    pub open spec fn wf(&self) -> bool {
        &&& self.min_vaddr <= self.max_vaddr
        &&& self.image_size == self.max_vaddr - self.min_vaddr
        &&& self.alloc_size == page_round_up(self.image_size as int)
    }

    /// Whether this is the layout of `segs`.
    pub open spec fn describes(&self, segs: Seq<Segment>) -> bool {
        &&& self.wf()
        &&& is_min_vaddr(segs, segs.len() as int, self.min_vaddr as int)
        &&& is_max_vaddr(segs, segs.len() as int, self.max_vaddr as int)
    }
}

/// Rounds a size up to a multiple of the page size, if the result fits.
pub fn round_to_page(size: u64) -> (r: Option<u64>)
    ensures
        r is Some <==> page_round_up(size as int) <= u64::MAX,
        r matches Some(v) ==> v == page_round_up(size as int),
{
    if size > u64::MAX - (PAGE_SIZE - 1) {
        None
    } else {
        Some((size + (PAGE_SIZE - 1)) / PAGE_SIZE * PAGE_SIZE)
    }
}

/// Whether `r` is what the layout of `segs` comes to: the layout that
/// describes them, or the reason why there is none.
pub open spec fn is_layout_of(segs: Seq<Segment>, r: Result<LoadLayout, LayoutError>) -> bool {
    let n = segs.len() as int;
    match r {
        Ok(layout) => has_loadable(segs, n) && !has_overlong(segs, n) && layout.describes(segs),
        Err(LayoutError::NoLoadableSegment) => !has_loadable(segs, n),
        Err(LayoutError::AddressOverflow) => has_loadable(segs, n) && (has_overlong(segs, n)
            || exists|lo: int, hi: int|
            is_min_vaddr(segs, n, lo) && is_max_vaddr(segs, n, hi) && page_round_up(hi - lo)
                > u64::MAX),
    }
}

/// Computes the layout of an image from its segments. Only loadable segments
/// count.
pub fn compute_layout(segments: &Vec<Segment>) -> (r: Result<LoadLayout, LayoutError>)
    ensures
        is_layout_of(segments@, r),
{
    let mut found = false;
    let mut min_vaddr: u64 = u64::MAX;
    let mut max_vaddr: u64 = 0;
    let mut i: usize = 0;
    while i < segments.len()
        invariant
            i <= segments@.len(),
            found <==> has_loadable(segments@, i as int),
            found ==> is_min_vaddr(segments@, i as int, min_vaddr as int),
            found ==> is_max_vaddr(segments@, i as int, max_vaddr as int),
            !has_overlong(segments@, i as int),
        decreases segments@.len() - i,
    {
        let seg = &segments[i];
        if seg.p_type == PT_LOAD {
            if seg.memsz > u64::MAX - seg.vaddr {
                proof {
                    assert(is_loadable(segments@[i as int]));
                    assert(has_overlong(segments@, segments@.len() as int));
                    assert(has_loadable(segments@, segments@.len() as int));
                }
                return Err(LayoutError::AddressOverflow);
            }
            let end: u64 = seg.vaddr + seg.memsz;
            proof {
                assert(is_loadable(segments@[i as int]));
            }
            if !found || seg.vaddr < min_vaddr {
                min_vaddr = seg.vaddr;
            }
            if !found || end > max_vaddr {
                max_vaddr = end;
            }
            found = true;
        }
        i += 1;
    }
    if !found {
        return Err(LayoutError::NoLoadableSegment);
    }
    let image_size: u64 = max_vaddr - min_vaddr;
    proof {
        lemma_extremes_unique(segments@, min_vaddr as int, max_vaddr as int);
    }
    match round_to_page(image_size) {
        None => Err(LayoutError::AddressOverflow),
        Some(alloc_size) => Ok(LoadLayout { min_vaddr, max_vaddr, image_size, alloc_size }),
    }
}

/// A list of segments has one layout or one reason why it has none.
pub proof fn lemma_layout_unique(
    segs: Seq<Segment>,
    a: Result<LoadLayout, LayoutError>,
    b: Result<LoadLayout, LayoutError>,
)
    requires
        is_layout_of(segs, a),
        is_layout_of(segs, b),
    ensures
        a == b,
{
    let n = segs.len() as int;
    if has_loadable(segs, n) && !has_overlong(segs, n) {
        let k = choose|k: int| 0 <= k < n && is_loadable(#[trigger] segs[k]);
        if a is Ok {
            let l = a->Ok_0;
            lemma_extremes_unique(segs, l.min_vaddr as int, l.max_vaddr as int);
            lemma_page_round_up_least(l.image_size as int, l.alloc_size as int);
        }
        if b is Ok {
            let l = b->Ok_0;
            lemma_extremes_unique(segs, l.min_vaddr as int, l.max_vaddr as int);
            lemma_page_round_up_least(l.image_size as int, l.alloc_size as int);
        }
    }
}

/// A list of segments has at most one lowest start and one highest end.
pub proof fn lemma_extremes_unique(segs: Seq<Segment>, lo: int, hi: int)
    requires
        is_min_vaddr(segs, segs.len() as int, lo),
        is_max_vaddr(segs, segs.len() as int, hi),
    ensures
        forall|a: int, b: int|
            is_min_vaddr(segs, segs.len() as int, a) && is_max_vaddr(segs, segs.len() as int, b)
                ==> a == lo && b == hi,
        lo <= hi,
{
}

/// The rounded size is the smallest multiple of the page size that is not
/// below the size itself.
pub proof fn lemma_page_round_up_least(n: int, m: int)
    requires
        0 <= n,
        n <= m,
        m % 4096 == 0,
    ensures
        page_round_up(n) % 4096 == 0,
        n <= page_round_up(n) <= m,
        page_round_up(n) - n < 4096,
{
}

/// The layout of a list of segments starts at the lowest start of its
/// loadable segments, covers each of them, and allocates the smallest number
/// of whole pages that holds the image.
pub proof fn lemma_layout_covers(layout: LoadLayout, segs: Seq<Segment>, pages: int)
    requires
        layout.describes(segs),
        pages % 4096 == 0,
        pages >= layout.image_size,
    ensures
        forall|i: int|
            0 <= i < segs.len() && is_loadable(#[trigger] segs[i]) ==> layout.min_vaddr
                <= segs[i].vaddr && segs[i].vaddr - layout.min_vaddr + segs[i].memsz
                <= layout.image_size,
        layout.alloc_size % 4096 == 0,
        layout.image_size <= layout.alloc_size <= pages,
{
    lemma_page_round_up_least(layout.image_size as int, pages);
}

} // verus!
