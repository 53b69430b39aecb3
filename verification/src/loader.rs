//! Staging an image: its segments copied to their places, then its
//! relocations applied for the address the allocator chose.

use vstd::prelude::*;
use crate::elf_file::{
    elf_header_of, elf_relas_of, elf_rels_of, elf_segments_of, elf_symbols_of, image_of,
    read_image, ElfImage, FormatError, ImageView,
};
use crate::image::{load_outcome, load_segments, LoadError};
use crate::layout::{compute_layout, is_layout_of, LayoutError, LoadLayout};
use crate::reloc::{
    apply_relocations, physical_address, relocations_outcome, translate, RelocError,
};

verus! {

/// Why a file cannot be loaded at all. Nothing of the hardware has been
/// touched when one of these comes up.
#[derive(Clone, Copy, Debug, PartialEq, Eq)]
pub enum PrepareError {
    /// The file is not an image for the core.
    Format(FormatError),
    /// The image's segments have no layout.
    Layout(LayoutError),
}

/// Why an image could not be staged.
#[derive(Clone, Copy, Debug, PartialEq, Eq)]
pub enum StageError {
    /// A segment could not be copied.
    Load(LoadError),
    /// A relocation could not be applied.
    Reloc(RelocError),
}

/// What staging an image in `bytes` gives: the buffer after the last step
/// that succeeded, and the error that stopped the staging, if one did. The
/// segments are copied first; the relocations follow only if every loadable
/// segment was copied.
pub open spec fn staged(
    bytes: Seq<u8>,
    data: Seq<u8>,
    image: ImageView,
    load_base: u64,
    min_vaddr: u64,
) -> (Seq<u8>, Option<StageError>) {
    let loaded = load_outcome(bytes, data, image.segments, min_vaddr);
    match loaded.1 {
        Some(cause) => (loaded.0, Some(StageError::Load(cause))),
        None => {
            let patched = relocations_outcome(
                loaded.0,
                image.symbols,
                load_base,
                min_vaddr,
                image.relocations,
            );
            match patched.1 {
                Some(cause) => (patched.0, Some(StageError::Reloc(cause))),
                None => (patched.0, None),
            }
        },
    }
}

/// Stages an image in `buf`, which stands for the memory at `load_base`:
/// copies the loadable segments from the file's bytes, then applies the
/// relocations. Returns the physical address of the entry point, at which
/// the core is to be started.
pub fn stage_image(
    buf: &mut Vec<u8>,
    data: &[u8],
    image: &ElfImage,
    load_base: u64,
    min_vaddr: u64,
) -> (r: Result<u32, StageError>)
    ensures
        final(buf)@ == staged(old(buf)@, data@, image@, load_base, min_vaddr).0,
        match staged(old(buf)@, data@, image@, load_base, min_vaddr).1 {
            None => r == Ok::<u32, StageError>(
                physical_address(load_base, image.entry, min_vaddr),
            ),
            Some(e) => r == Err::<u32, StageError>(e),
        },
        final(buf)@.len() == old(buf)@.len(),
{
    match load_segments(buf, data, &image.segments, min_vaddr) {
        Err(cause) => {
            return Err(StageError::Load(cause));
        },
        Ok(()) => {},
    }
    match apply_relocations(buf, &image.symbols, load_base, min_vaddr, &image.relocations) {
        Err(cause) => {
            return Err(StageError::Reloc(cause));
        },
        Ok(()) => {},
    }
    Ok(translate(load_base, image.entry, min_vaddr))
}

/// What preparing an image that was read from a file gives: the layout of
/// its segments, or the reason why the file cannot be loaded.
pub open spec fn is_prepared(
    read: Result<ImageView, FormatError>,
    r: Result<(ElfImage, LoadLayout), PrepareError>,
) -> bool {
    match read {
        Err(e) => r == Err::<(ElfImage, LoadLayout), PrepareError>(PrepareError::Format(e)),
        Ok(v) => match r {
            Ok((image, layout)) => image@ == v && is_layout_of(
                v.segments,
                Ok::<LoadLayout, LayoutError>(layout),
            ),
            Err(PrepareError::Layout(e)) => is_layout_of(
                v.segments,
                Err::<LoadLayout, LayoutError>(e),
            ),
            Err(PrepareError::Format(_)) => false,
        },
    }
}

/// Gives an image its layout.
pub fn plan_image(image: ElfImage) -> (r: Result<(ElfImage, LoadLayout), PrepareError>)
    ensures
        is_prepared(Ok::<ImageView, FormatError>(image@), r),
{
    match compute_layout(&image.segments) {
        Ok(layout) => Ok((image, layout)),
        Err(e) => Err(PrepareError::Layout(e)),
    }
}

/// Does all that comes before the hardware is touched: reads the image from
/// the bytes of an ELF file, checks that it is one for the core, and
/// computes its layout, which says how much memory to allocate.
pub fn prepare(data: &[u8]) -> (r: Result<(ElfImage, LoadLayout), PrepareError>)
    ensures
        is_prepared(
            image_of(
                elf_header_of(data@),
                elf_segments_of(data@),
                elf_symbols_of(data@),
                elf_rels_of(data@, ".rel.text"@),
                elf_relas_of(data@, ".rela.text"@),
            ),
            r,
        ),
{
    match read_image(data) {
        Ok(image) => plan_image(image),
        Err(e) => Err(PrepareError::Format(e)),
    }
}

} // verus!
