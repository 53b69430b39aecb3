//! Copying the file bytes of the loadable segments into the image buffer.

use vstd::prelude::*;
use crate::layout::{is_loadable, LoadLayout, Segment, PT_LOAD};

verus! {

/// Why a segment could not be copied.
#[derive(Clone, Copy, Debug, PartialEq, Eq)]
pub enum LoadError {
    /// The segment starts below the image's lowest virtual address.
    BelowImage { vaddr: u64 },
    /// The segment's file bytes do not fit between its place and the end of
    /// the buffer.
    ImageOverflow { vaddr: u64 },
    /// The file ends before the segment's bytes do.
    FileTruncated { offset: u64 },
}

/// `bytes` with the `count` bytes of `data` from `from` on stored at `at`.
pub open spec fn with_bytes(bytes: Seq<u8>, at: int, data: Seq<u8>, from: int, count: int) -> Seq<
    u8,
> {
    Seq::new(
        bytes.len(),
        |i: int|
            if at <= i < at + count {
                data[from + (i - at)]
            } else {
                bytes[i]
            },
    )
}

/// What copying one segment into `bytes` gives: the image with the segment's
/// file bytes at `vaddr - min_vaddr`, or the reason why nothing was copied.
pub open spec fn placement_outcome(bytes: Seq<u8>, data: Seq<u8>, seg: Segment, min_vaddr: u64) -> Result<
    Seq<u8>,
    LoadError,
> {
    if seg.vaddr < min_vaddr {
        Err(LoadError::BelowImage { vaddr: seg.vaddr })
    } else if seg.vaddr - min_vaddr + seg.filesz > bytes.len() {
        Err(LoadError::ImageOverflow { vaddr: seg.vaddr })
    } else if seg.offset + seg.filesz > data.len() {
        Err(LoadError::FileTruncated { offset: seg.offset })
    } else {
        Ok(with_bytes(bytes, seg.vaddr - min_vaddr, data, seg.offset as int, seg.filesz as int))
    }
}

/// What copying the loadable ones of a list of segments in order gives: the
/// image after the longest prefix that could be copied, and the error that
/// stopped the run, if one did.
pub open spec fn load_outcome(bytes: Seq<u8>, data: Seq<u8>, segs: Seq<Segment>, min_vaddr: u64) -> (
    Seq<u8>,
    Option<LoadError>,
)
    decreases segs.len(),
{
    if segs.len() == 0 {
        (bytes, None)
    } else {
        let before = load_outcome(bytes, data, segs.drop_last(), min_vaddr);
        if before.1 is Some || !is_loadable(segs.last()) {
            before
        } else {
            match placement_outcome(before.0, data, segs.last(), min_vaddr) {
                Ok(placed) => (placed, None),
                Err(e) => (before.0, Some(e)),
            }
        }
    }
}

/// Copies the file bytes of one segment to their place in the image. The
/// bytes between the segment's file size and its memory size are not
/// written. The image is left as it was whenever an error is returned.
pub fn copy_segment(buf: &mut Vec<u8>, data: &[u8], seg: &Segment, min_vaddr: u64) -> (r: Result<
    (),
    LoadError,
>)
    ensures
        match placement_outcome(old(buf)@, data@, *seg, min_vaddr) {
            Ok(placed) => r is Ok && final(buf)@ == placed,
            Err(e) => r == Err::<(), LoadError>(e) && final(buf)@ == old(buf)@,
        },
        final(buf)@.len() == old(buf)@.len(),
{
    let len: u64 = buf.len() as u64;
    let have: u64 = data.len() as u64;
    if seg.vaddr < min_vaddr {
        return Err(LoadError::BelowImage { vaddr: seg.vaddr });
    }
    let at64: u64 = seg.vaddr - min_vaddr;
    if seg.filesz > len || at64 > len - seg.filesz {
        return Err(LoadError::ImageOverflow { vaddr: seg.vaddr });
    }
    if seg.filesz > have || seg.offset > have - seg.filesz {
        return Err(LoadError::FileTruncated { offset: seg.offset });
    }
    let at: usize = at64 as usize;
    let from: usize = seg.offset as usize;
    let count: usize = seg.filesz as usize;
    let mut k: usize = 0;
    while k < count
        invariant
            k <= count,
            at + count <= buf@.len() <= usize::MAX,
            from + count <= data@.len() <= usize::MAX,
            buf@.len() == old(buf)@.len(),
            buf@ =~= with_bytes(old(buf)@, at as int, data@, from as int, k as int),
        decreases count - k,
    {
        buf.set(at + k, data[from + k]);
        k += 1;
    }
    Ok(())
}

/// Copies every loadable segment to its place in the image, in order, and
/// stops at the first that fails. Where two segments overlap, the later one
/// wins.
pub fn load_segments(buf: &mut Vec<u8>, data: &[u8], segments: &Vec<Segment>, min_vaddr: u64) -> (r:
    Result<(), LoadError>)
    ensures
        final(buf)@ == load_outcome(old(buf)@, data@, segments@, min_vaddr).0,
        match load_outcome(old(buf)@, data@, segments@, min_vaddr).1 {
            None => r is Ok,
            Some(e) => r == Err::<(), LoadError>(e),
        },
        final(buf)@.len() == old(buf)@.len(),
{
    let mut i: usize = 0;
    while i < segments.len()
        invariant
            i <= segments@.len(),
            buf@.len() == old(buf)@.len(),
            load_outcome(old(buf)@, data@, segments@.take(i as int), min_vaddr) == (
                buf@,
                None::<LoadError>,
            ),
        decreases segments@.len() - i,
    {
        proof {
            assert(segments@.take(i + 1).drop_last() == segments@.take(i as int));
            assert(segments@.take(i + 1).last() == segments@[i as int]);
        }
        if segments[i].p_type == PT_LOAD {
            match copy_segment(buf, data, &segments[i], min_vaddr) {
                Ok(()) => {},
                Err(e) => {
                    proof {
                        lemma_load_stops(old(buf)@, data@, segments@, min_vaddr, i + 1);
                    }
                    return Err(e);
                },
            }
        }
        i += 1;
    }
    proof {
        assert(segments@.take(i as int) == segments@);
    }
    Ok(())
}

/// Once a prefix of the segments has failed, the rest is not copied.
pub proof fn lemma_load_stops(
    bytes: Seq<u8>,
    data: Seq<u8>,
    segs: Seq<Segment>,
    min_vaddr: u64,
    n: int,
)
    requires
        0 <= n <= segs.len(),
        load_outcome(bytes, data, segs.take(n), min_vaddr).1 is Some,
    ensures
        load_outcome(bytes, data, segs, min_vaddr) == load_outcome(
            bytes,
            data,
            segs.take(n),
            min_vaddr,
        ),
    decreases segs.len() - n,
{
    if n == segs.len() {
        assert(segs.take(n) == segs);
    } else {
        assert(segs.drop_last().take(n) == segs.take(n));
        lemma_load_stops(bytes, data, segs.drop_last(), min_vaddr, n);
    }
}

/// A segment that is copied puts exactly its file bytes at
/// `vaddr - min_vaddr` and changes no other byte of the image.
pub proof fn lemma_segment_bytes(bytes: Seq<u8>, data: Seq<u8>, seg: Segment, min_vaddr: u64)
    requires
        placement_outcome(bytes, data, seg, min_vaddr) is Ok,
    ensures
        ({
            let placed = placement_outcome(bytes, data, seg, min_vaddr)->Ok_0;
            let at = seg.vaddr - min_vaddr;
            &&& placed.len() == bytes.len()
            &&& placed.subrange(at, at + seg.filesz) == data.subrange(
                seg.offset as int,
                seg.offset + seg.filesz,
            )
            &&& forall|i: int|
                0 <= i < bytes.len() && !(at <= i < at + seg.filesz) ==> #[trigger] placed[i]
                    == bytes[i]
        }),
{
    let placed = placement_outcome(bytes, data, seg, min_vaddr)->Ok_0;
    let at = seg.vaddr - min_vaddr;
    assert(placed.subrange(at, at + seg.filesz) =~= data.subrange(
        seg.offset as int,
        seg.offset + seg.filesz,
    ));
}

/// Whether a segment's file bytes can be copied into an image of `len`
/// bytes from a file of `have` bytes.
pub open spec fn is_placeable(len: nat, have: nat, seg: Segment, min_vaddr: u64) -> bool {
    seg.vaddr >= min_vaddr && seg.vaddr - min_vaddr + seg.filesz <= len && seg.offset + seg.filesz
        <= have
}

/// Copying segments never changes the size of the image, and it goes
/// through exactly when every loadable segment can be copied.
pub proof fn lemma_load_succeeds_iff(
    bytes: Seq<u8>,
    data: Seq<u8>,
    segs: Seq<Segment>,
    min_vaddr: u64,
)
    ensures
        load_outcome(bytes, data, segs, min_vaddr).0.len() == bytes.len(),
        load_outcome(bytes, data, segs, min_vaddr).1 is None <==> forall|i: int|
            0 <= i < segs.len() && is_loadable(#[trigger] segs[i]) ==> is_placeable(
                bytes.len(),
                data.len(),
                segs[i],
                min_vaddr,
            ),
    decreases segs.len(),
{
    if segs.len() > 0 {
        let head = segs.drop_last();
        lemma_load_succeeds_iff(bytes, data, head, min_vaddr);
        assert forall|i: int| 0 <= i < head.len() implies head[i] == segs[i] by {}
        let before = load_outcome(bytes, data, head, min_vaddr);
        if before.1 is None {
            let fits = !is_loadable(segs.last()) || is_placeable(
                bytes.len(),
                data.len(),
                segs.last(),
                min_vaddr,
            );
            if fits {
                assert forall|i: int|
                    0 <= i < segs.len() && is_loadable(#[trigger] segs[i]) implies is_placeable(
                    bytes.len(),
                    data.len(),
                    segs[i],
                    min_vaddr,
                ) by {
                    if i < head.len() {
                        assert(head[i] == segs[i]);
                    }
                }
            } else {
                assert(segs[segs.len() - 1] == segs.last());
            }
        } else {
            let k = choose|k: int|
                0 <= k < head.len() && is_loadable(#[trigger] head[k]) && !is_placeable(
                    bytes.len(),
                    data.len(),
                    head[k],
                    min_vaddr,
                );
            assert(head[k] == segs[k]);
        }
    }
}

/// Every loadable segment of an image can be copied into a buffer that is
/// as large as the image's layout says, provided that the file holds the
/// segment's bytes and that these are no more than the segment takes in
/// memory.
pub proof fn lemma_layout_holds_segments(
    bytes: Seq<u8>,
    data: Seq<u8>,
    segs: Seq<Segment>,
    layout: LoadLayout,
)
    requires
        layout.describes(segs),
        bytes.len() >= layout.image_size,
        forall|i: int|
            0 <= i < segs.len() && is_loadable(#[trigger] segs[i]) ==> segs[i].filesz
                <= segs[i].memsz && segs[i].offset + segs[i].filesz <= data.len(),
    ensures
        load_outcome(bytes, data, segs, layout.min_vaddr).1 is None,
{
    lemma_load_succeeds_iff(bytes, data, segs, layout.min_vaddr);
}

} // verus!
