//! Reading an ELF file: the `elf` crate parses the container, and the
//! functions here decide what of it makes a loadable image.

use vstd::prelude::*;
use crate::layout::Segment;
use crate::reloc::{Relocation, Symbol};

verus! {

/// Machine number of RISC-V in an ELF header.
pub const EM_RISCV: u16 = 243;

/// Word class of an ELF file.
#[derive(Clone, Copy, Debug, PartialEq, Eq)]
pub enum ElfClass {
    Elf32,
    Elf64,
}

/// The fields of the ELF header that loading reads.
#[derive(Clone, Copy, Debug, PartialEq, Eq)]
pub struct ElfHeader {
    pub machine: u16,
    pub class: ElfClass,
    pub entry: u64,
}

/// One relocation entry of a section without addends.
#[derive(Clone, Copy, Debug, PartialEq, Eq)]
pub struct RelEntry {
    pub r_type: u32,
    pub sym: u32,
    pub offset: u64,
}

/// Why a file is not an image that can be loaded.
#[derive(Clone, Copy, Debug, PartialEq, Eq)]
pub enum FormatError {
    /// The file is not a well-formed little-endian ELF file.
    Malformed,
    /// The file is for another machine than RISC-V.
    WrongMachine { machine: u16 },
    /// The file is not a 32-bit ELF file.
    WrongClass,
    /// The file has no program headers.
    NoSegments,
}

/// An ELF file as far as loading reads it.
#[derive(Debug, PartialEq, Eq)]
pub struct ElfImage {
    pub entry: u64,
    pub segments: Vec<Segment>,
    pub symbols: Vec<Symbol>,
    pub relocations: Vec<Relocation>,
}

/// The mathematical value of an `ElfImage`.
pub struct ImageView {
    pub entry: u64,
    pub segments: Seq<Segment>,
    pub symbols: Seq<Symbol>,
    pub relocations: Seq<Relocation>,
}

impl View for ElfImage {
    type V = ImageView;

    open spec fn view(&self) -> ImageView {
        ImageView {
            entry: self.entry,
            segments: self.segments@,
            symbols: self.symbols@,
            relocations: self.relocations@,
        }
    }
}

/// The header that the `elf` crate reads from a file, `None` where it
/// rejects the file.
pub uninterp spec fn elf_header_of(data: Seq<u8>) -> Option<ElfHeader>;

/// The program headers that the `elf` crate reads from a file, `None` where
/// it rejects the file or the file has none.
pub uninterp spec fn elf_segments_of(data: Seq<u8>) -> Option<Seq<Segment>>;

/// The symbols that the `elf` crate reads from a file's symbol table: `None`
/// where it rejects the file, `Some(None)` where the file has no symbol
/// table.
pub uninterp spec fn elf_symbols_of(data: Seq<u8>) -> Option<Option<Seq<Symbol>>>;

/// The entries that the `elf` crate reads from the section of this name as
/// relocations without addends: `None` where it rejects the file or the
/// section, `Some(None)` where the file has no such section.
pub uninterp spec fn elf_rels_of(data: Seq<u8>, section: Seq<char>) -> Option<
    Option<Seq<RelEntry>>,
>;

/// The entries that the `elf` crate reads from the section of this name as
/// relocations with addends: `None` where it rejects the file or the
/// section, `Some(None)` where the file has no such section.
pub uninterp spec fn elf_relas_of(data: Seq<u8>, section: Seq<char>) -> Option<
    Option<Seq<Relocation>>,
>;

/// The contents of an optional vector.
pub open spec fn seq_of<T>(got: Option<Vec<T>>) -> Option<Seq<T>> {
    match got {
        Some(v) => Some(v@),
        None => None,
    }
}

/// The contents of an optional vector read from an optional section.
pub open spec fn seqs_of<T>(got: Option<Option<Vec<T>>>) -> Option<Option<Seq<T>>> {
    match got {
        Some(inner) => Some(seq_of(inner)),
        None => None,
    }
}

/// Calls `elf::ElfBytes::<LittleEndian>::minimal_parse` and hands out three
/// fields of the header it read. Trusted: the result is what that function
/// reads from these bytes, `None` where it returns an error.
#[verifier::external_body]
fn parse_header(data: &[u8]) -> (r: Option<ElfHeader>)
    ensures
        r == elf_header_of(data@),
{
    let file = elf::ElfBytes::<elf::endian::LittleEndian>::minimal_parse(data).ok()?;
    let class = match file.ehdr.class {
        elf::file::Class::ELF32 => ElfClass::Elf32,
        elf::file::Class::ELF64 => ElfClass::Elf64,
    };
    Some(ElfHeader { machine: file.ehdr.e_machine, class, entry: file.ehdr.e_entry })
}

/// Calls `elf::ElfBytes::minimal_parse`, then `elf::ElfBytes::segments`
/// on the parsed file, and hands out each program header. Trusted: the result is what that function reads from
/// these bytes, `None` where the file is rejected or has no program headers.
#[verifier::external_body]
fn parse_segments(data: &[u8]) -> (r: Option<Vec<Segment>>)
    ensures
        seq_of(r) == elf_segments_of(data@),
{
    let file = elf::ElfBytes::<elf::endian::LittleEndian>::minimal_parse(data).ok()?;
    let table = file.segments()?;
    Some(table.iter().map(|p| Segment {
        p_type: p.p_type,
        flags: p.p_flags,
        offset: p.p_offset,
        vaddr: p.p_vaddr,
        filesz: p.p_filesz,
        memsz: p.p_memsz,
    }).collect())
}

/// Calls `elf::ElfBytes::minimal_parse`, then `elf::ElfBytes::symbol_table`
/// on the parsed file, and hands out each symbol's value and name offset.
/// Trusted: the result is what that function reads from these bytes, `None`
/// where either returns an error, `Some(None)` where the file has no symbol
/// table.
#[verifier::external_body]
fn parse_symbols(data: &[u8]) -> (r: Option<Option<Vec<Symbol>>>)
    ensures
        seqs_of(r) == elf_symbols_of(data@),
{
    let file = elf::ElfBytes::<elf::endian::LittleEndian>::minimal_parse(data).ok()?;
    let tables = file.symbol_table().ok()?;
    Some(tables.map(|(symbols, _)| {
        symbols.iter().map(|s| Symbol { value: s.st_value, name: s.st_name }).collect()
    }))
}

/// Calls `elf::ElfBytes::minimal_parse`, then
/// `elf::ElfBytes::section_header_by_name` and
/// `elf::ElfBytes::section_data_as_rels` on the parsed file, and hands out
/// each entry. Trusted: the result is what those functions read from these
/// bytes for this section name, `None` where one of them returns an error,
/// `Some(None)` where the file has no section of this name.
#[verifier::external_body]
fn parse_rels(data: &[u8], section: &str) -> (r: Option<Option<Vec<RelEntry>>>)
    ensures
        seqs_of(r) == elf_rels_of(data@, section@),
{
    let file = elf::ElfBytes::<elf::endian::LittleEndian>::minimal_parse(data).ok()?;
    match file.section_header_by_name(section).ok()? {
        None => Some(None),
        Some(header) => {
            let entries = file.section_data_as_rels(&header).ok()?;
            Some(Some(entries.map(|e| RelEntry {
                r_type: e.r_type,
                sym: e.r_sym,
                offset: e.r_offset,
            }).collect()))
        },
    }
}

/// Calls `elf::ElfBytes::minimal_parse`, then
/// `elf::ElfBytes::section_header_by_name` and
/// `elf::ElfBytes::section_data_as_relas` on the parsed file, and hands out
/// each entry. Trusted: the result is what those functions read from these
/// bytes for this section name, `None` where one of them returns an error,
/// `Some(None)` where the file has no section of this name.
#[verifier::external_body]
fn parse_relas(data: &[u8], section: &str) -> (r: Option<Option<Vec<Relocation>>>)
    ensures
        seqs_of(r) == elf_relas_of(data@, section@),
{
    let file = elf::ElfBytes::<elf::endian::LittleEndian>::minimal_parse(data).ok()?;
    match file.section_header_by_name(section).ok()? {
        None => Some(None),
        Some(header) => {
            let entries = file.section_data_as_relas(&header).ok()?;
            Some(Some(entries.map(|e| Relocation {
                r_type: e.r_type,
                sym: e.r_sym,
                offset: e.r_offset,
                addend: e.r_addend,
            }).collect()))
        },
    }
}

/// What a header check gives: nothing to object to, or the first objection.
pub open spec fn header_verdict(header: Option<ElfHeader>) -> Result<(), FormatError> {
    match header {
        None => Err(FormatError::Malformed),
        Some(h) => if h.machine != EM_RISCV {
            Err(FormatError::WrongMachine { machine: h.machine })
        } else if h.class != ElfClass::Elf32 {
            Err(FormatError::WrongClass)
        } else {
            Ok(())
        },
    }
}

/// The relocation that an entry without addend stands for: addend 0.
pub open spec fn without_addend(e: RelEntry) -> Relocation {
    Relocation { r_type: e.r_type, sym: e.sym, offset: e.offset, addend: 0 }
}

/// The relocations that a list of entries without addends stands for.
pub open spec fn with_zero_addends(entries: Seq<RelEntry>) -> Seq<Relocation> {
    Seq::new(entries.len(), |i: int| without_addend(entries[i]))
}

/// The entries of an optional section, none where the section is absent.
pub open spec fn entries_of<T>(section: Option<Seq<T>>) -> Seq<T> {
    match section {
        Some(s) => s,
        None => Seq::empty(),
    }
}

/// The image that the parts read from a file make: the header's entry
/// point, the program headers, the symbols, and the relocations of the
/// section without addends followed by those of the section with addends.
/// An error where a part could not be read or the header is not that of a
/// 32-bit RISC-V file.
pub open spec fn image_of(
    header: Option<ElfHeader>,
    segments: Option<Seq<Segment>>,
    symbols: Option<Option<Seq<Symbol>>>,
    rels: Option<Option<Seq<RelEntry>>>,
    relas: Option<Option<Seq<Relocation>>>,
) -> Result<ImageView, FormatError> {
    if header_verdict(header) is Err {
        Err(header_verdict(header)->Err_0)
    } else if segments is None {
        Err(FormatError::NoSegments)
    } else if symbols is None || rels is None || relas is None {
        Err(FormatError::Malformed)
    } else {
        Ok(
            ImageView {
                entry: header->Some_0.entry,
                segments: segments->Some_0,
                symbols: entries_of(symbols->Some_0),
                relocations: with_zero_addends(entries_of(rels->Some_0)) + entries_of(
                    relas->Some_0,
                ),
            },
        )
    }
}

/// Checks that a header was read and is that of a 32-bit RISC-V file.
pub fn check_header(header: &Option<ElfHeader>) -> (r: Result<(), FormatError>)
    ensures
        r == header_verdict(*header),
{
    match header {
        None => Err(FormatError::Malformed),
        Some(h) => {
            if h.machine != EM_RISCV {
                Err(FormatError::WrongMachine { machine: h.machine })
            } else {
                match h.class {
                    ElfClass::Elf32 => Ok(()),
                    ElfClass::Elf64 => Err(FormatError::WrongClass),
                }
            }
        },
    }
}

/// Gives each entry without addend the addend 0.
pub fn lift_rels(entries: &Vec<RelEntry>) -> (out: Vec<Relocation>)
    ensures
        out@ == with_zero_addends(entries@),
{
    let mut out: Vec<Relocation> = Vec::new();
    let mut i: usize = 0;
    while i < entries.len()
        invariant
            i <= entries@.len(),
            out@ =~= with_zero_addends(entries@.take(i as int)),
        decreases entries@.len() - i,
    {
        let e = &entries[i];
        out.push(Relocation { r_type: e.r_type, sym: e.sym, offset: e.offset, addend: 0 });
        i += 1;
    }
    proof {
        assert(entries@.take(i as int) == entries@);
    }
    out
}

/// Makes an image of the parts read from a file, or says what is wrong with
/// them.
pub fn assemble_image(
    header: Option<ElfHeader>,
    segments: Option<Vec<Segment>>,
    symbols: Option<Option<Vec<Symbol>>>,
    rels: Option<Option<Vec<RelEntry>>>,
    relas: Option<Option<Vec<Relocation>>>,
) -> (r: Result<ElfImage, FormatError>)
    ensures
        match image_of(header, seq_of(segments), seqs_of(symbols), seqs_of(rels), seqs_of(relas)) {
            Ok(v) => r is Ok && r->Ok_0@ == v,
            Err(e) => r == Err::<ElfImage, FormatError>(e),
        },
{
    let ghost rel_part = seqs_of(rels);
    let ghost rela_part = seqs_of(relas);
    match check_header(&header) {
        Err(e) => {
            return Err(e);
        },
        Ok(()) => {},
    }
    let entry: u64 = match header {
        Some(h) => h.entry,
        None => {
            return Err(FormatError::Malformed);
        },
    };
    let segments = match segments {
        Some(s) => s,
        None => {
            return Err(FormatError::NoSegments);
        },
    };
    let symbols = match symbols {
        Some(Some(s)) => s,
        Some(None) => Vec::new(),
        None => {
            return Err(FormatError::Malformed);
        },
    };
    let mut relocations = match rels {
        Some(Some(entries)) => lift_rels(&entries),
        Some(None) => Vec::new(),
        None => {
            return Err(FormatError::Malformed);
        },
    };
    let tail = match relas {
        Some(Some(entries)) => entries,
        Some(None) => Vec::new(),
        None => {
            return Err(FormatError::Malformed);
        },
    };
    let ghost lifted = relocations@;
    let mut i: usize = 0;
    while i < tail.len()
        invariant
            i <= tail@.len(),
            relocations@ =~= lifted + tail@.take(i as int),
        decreases tail@.len() - i,
    {
        relocations.push(tail[i]);
        i += 1;
    }
    proof {
        assert(tail@.take(i as int) == tail@);
        assert(lifted =~= with_zero_addends(entries_of(rel_part->Some_0)));
        assert(tail@ =~= entries_of(rela_part->Some_0));
    }
    Ok(ElfImage { entry, segments, symbols, relocations })
}

/// Reads an image from the bytes of an ELF file: the header, the program
/// headers, the symbol table, and the relocations of `.rel.text` followed by
/// those of `.rela.text`.
pub fn read_image(data: &[u8]) -> (r: Result<ElfImage, FormatError>)
    ensures
        match image_of(
            elf_header_of(data@),
            elf_segments_of(data@),
            elf_symbols_of(data@),
            elf_rels_of(data@, ".rel.text"@),
            elf_relas_of(data@, ".rela.text"@),
        ) {
            Ok(v) => r is Ok && r->Ok_0@ == v,
            Err(e) => r == Err::<ElfImage, FormatError>(e),
        },
{
    let header = parse_header(data);
    let segments = parse_segments(data);
    let symbols = parse_symbols(data);
    let rels = parse_rels(data, ".rel.text");
    let relas = parse_relas(data, ".rela.text");
    assemble_image(header, segments, symbols, rels, relas)
}

} // verus!
