//! Functionality for creating a simulated process from an ELF file.

use super::Os;
use crate::ui::error::io_error_text;
use crate::memory::{splice, Address, Memory};
use elf::endian::LittleEndian;
use elf::ElfBytes;
use elf::ParseError;
use vstd::prelude::*;
use vstd::string::*;

verus! {

#[verifier::external_type_specification]
#[verifier::external_body]
pub struct ExParseError(ParseError);

/// The size of the stack set up above the program's static data: 1 GiB.
pub const STACK_SIZE: u32 = 0x4000_0000;

/// The symbol that holds the address of the program's `errno`.
pub const ERRNO_PTR_NAME: &'static str = "_impure_ptr";

/// The symbol that marks the end of the program's static data.
pub const END_NAME: &'static str = "_end";

/// A program header of an ELF file, as far as loading needs it.
#[derive(Clone, Copy, Debug, PartialEq, Eq, Structural)]
pub struct Segment {
    /// Where the segment's bytes start in the file.
    pub offset: u64,
    /// The virtual address the segment is loaded at.
    pub vaddr: u64,
    /// How many bytes of the segment the file holds.
    pub filesz: u64,
    /// How many bytes the segment takes in memory.
    pub memsz: u64,
}

/// An entry of an ELF symbol table.
pub struct ElfSymbol {
    /// The bytes of the symbol's name, or `None` when the string table has no
    /// valid name at the symbol's name offset.
    pub name: Option<Vec<u8>>,
    /// The symbol's value.
    pub value: u64,
}

/// An [`ElfSymbol`] as a mathematical value.
pub struct ElfSymbolView {
    pub name: Option<Seq<u8>>,
    pub value: u64,
}

impl View for ElfSymbol {
    type V = ElfSymbolView;

    open spec fn view(&self) -> ElfSymbolView {
        ElfSymbolView {
            name: match self.name {
                Some(n) => Some(n@),
                None => None,
            },
            value: self.value,
        }
    }
}

/// The symbols of `syms` as mathematical values.
pub open spec fn symbol_views(syms: Seq<ElfSymbol>) -> Seq<ElfSymbolView> {
    syms.map_values(|sym: ElfSymbol| sym@)
}

/// What loading needs of a parsed ELF file.
pub struct ElfImage {
    /// The entry point from the file header.
    pub entry: u64,
    /// The program headers, if the file has a program header table.
    pub segments: Option<Vec<Segment>>,
    /// The `.symtab` symbols, if the file has a symbol table; an error when the
    /// section headers needed to find it do not parse.
    pub symbols: core::result::Result<Option<Vec<ElfSymbol>>, ParseError>,
}

/// An [`ElfImage`] as a mathematical value; a symbol table that did not parse
/// is `None`.
pub struct ElfImageView {
    pub entry: u64,
    pub segments: Option<Seq<Segment>>,
    pub symbols: Option<Option<Seq<ElfSymbolView>>>,
}

impl View for ElfImage {
    type V = ElfImageView;

    open spec fn view(&self) -> ElfImageView {
        ElfImageView {
            entry: self.entry,
            segments: match self.segments {
                Some(s) => Some(s@),
                None => None,
            },
            symbols: match self.symbols {
                Ok(Some(s)) => Some(Some(symbol_views(s@))),
                Ok(None) => Some(None),
                Err(_) => None,
            },
        }
    }
}

/// What the `elf` crate makes of the little-endian ELF file `bin`: `None`
/// when `ElfBytes::minimal_parse` rejects it.
pub uninterp spec fn elf_image(bin: Seq<u8>) -> Option<ElfImageView>;

/// Parses `bin` with `ElfBytes::<LittleEndian>::minimal_parse` and reads out
/// the entry point (`ehdr.e_entry`), the program headers (`segments()`) and the
/// `.symtab` symbols with their names (`symbol_table()`, `StringTable::get`).
///
/// Trusted: the contract claims only that the outcome is determined by the
/// bytes of the file; what the parse gives is named, not stated.
#[verifier::external_body]
fn parse_elf(bin: &[u8]) -> (r: core::result::Result<ElfImage, ParseError>)
    ensures
        r is Ok <==> elf_image(bin@) is Some,
        r matches Ok(img) ==> elf_image(bin@) == Some(img@),
{
    let elf = ElfBytes::<LittleEndian>::minimal_parse(bin)?;
    let segments = elf.segments().map(|table| table.iter().map(|p| Segment {
        offset: p.p_offset, vaddr: p.p_vaddr, filesz: p.p_filesz, memsz: p.p_memsz,
    }).collect());
    let symbols = elf.symbol_table().map(|found| found.map(|(symtab, strtab)| symtab.iter().map(|s| ElfSymbol {
        name: strtab.get(s.st_name as usize).ok().map(|n| n.as_bytes().to_vec()),
        value: s.st_value,
    }).collect()));
    Ok(ElfImage { entry: elf.ehdr.e_entry, segments, symbols })
}

#[verifier::external_type_specification]
#[verifier::external_body]
pub struct ExIoError(std::io::Error);

/// Possible errors when loading a program.
#[allow(non_camel_case_types)]
#[derive(Debug)]
pub enum LoaderError {
    /// The loader could not open the file.
    Io(std::io::Error),
    /// The loader could not parse the ELF file.
    ParseError(&'static str, ParseError),
    /// The Program Header Table was not present in the ELF file.
    MissingProgramHeaderTable,
    /// The `_end` symbol was not present in the ELF file.
    Missing_End,
    /// `.symtab` or `.strtab` were not present in the ELF file.
    MissingSymbolTable,
}

/// `ToString::to_string` on an `elf` parse error: its `Display` text.
///
/// Trusted, and claims nothing of the text: the error is opaque here, so no
/// statement over its contents can be made.
#[verifier::external_body]
fn parse_error_text(err: &ParseError) -> String {
    err.to_string()
}

impl LoaderError {
    /// The text this error is shown as: `IO error: ` or `Parse error: `
    /// followed by what went wrong.
    pub fn message(&self) -> (r: String)
        ensures
            self is Io ==> exists|text: Seq<char>| r@ == "IO error: "@ + text,
            self matches LoaderError::ParseError(msg, _) ==> exists|text: Seq<char>|
                r@ == "Parse error: "@ + msg@ + ": "@ + text,
            self is MissingProgramHeaderTable ==> r@
                == "Parse error: Program header table should be present"@,
            self is Missing_End ==> r@ == "Parse error: `_end` symbol should be present"@,
            self is MissingSymbolTable ==> r@ == "Parse error: .symtab and .strtab should be present"@,
    {
        match self {
            LoaderError::Io(err) => {
                let mut r = String::from_str("IO error: ");
                let text = io_error_text(err);
                r.append(text.as_str());
                r
            },
            LoaderError::ParseError(msg, err) => {
                let mut r = String::from_str("Parse error: ");
                r.append(msg);
                r.append(": ");
                let text = parse_error_text(err);
                r.append(text.as_str());
                r
            },
            LoaderError::MissingProgramHeaderTable => String::from_str(
                "Parse error: Program header table should be present",
            ),
            LoaderError::Missing_End => {
                let mut r = String::from_str("Parse error: `");
                r.append(END_NAME);
                r.append("` symbol should be present");
                proof {
                    reveal_strlit("Parse error: `");
                    reveal_strlit("_end");
                    reveal_strlit("` symbol should be present");
                    reveal_strlit("Parse error: `_end` symbol should be present");
                    assert(r@ =~= "Parse error: `_end` symbol should be present"@);
                }
                r
            },
            LoaderError::MissingSymbolTable => String::from_str(
                "Parse error: .symtab and .strtab should be present",
            ),
        }
    }
}

impl From<std::io::Error> for LoaderError {
    fn from(value: std::io::Error) -> (r: Self) {
        LoaderError::Io(value)
    }
}

impl vstd::std_specs::convert::FromSpecImpl<std::io::Error> for LoaderError {
    open spec fn obeys_from_spec() -> bool {
        true
    }

    open spec fn from_spec(v: std::io::Error) -> LoaderError {
        LoaderError::Io(v)
    }
}

/// Where the loaded program starts: the values the CPU is initialised with.
#[derive(Clone, Copy, Debug, PartialEq, Eq, Structural)]
pub struct ProgramStart {
    /// The first instruction to run.
    pub entry: Address,
    /// The initial stack pointer: `STACK_SIZE` bytes above the end of the
    /// program's static data.
    pub stack_pointer: Address,
}

/// Creates simulated processes from ELF files.
pub struct Loader;

/// The message given with a file that is no ELF file.
pub const BAD_ELF_MESSAGE: &'static str = "Binary should be a valid ELF file";

/// The message given with section headers that do not parse.
pub const BAD_SHDRS_MESSAGE: &'static str = "`shdrs` should parse";

/// The number of bytes of a segment that are copied into memory.
pub open spec fn copy_size(seg: Segment) -> nat {
    if seg.filesz <= seg.memsz {
        seg.filesz as nat
    } else {
        seg.memsz as nat
    }
}

/// Whether `seg` lies within a file of `bin_len` bytes and, at its load
/// address, within a 32-bit address space and a memory of `mem_len` bytes.
pub open spec fn segment_fits(seg: Segment, bin_len: nat, mem_len: nat) -> bool {
    &&& seg.offset + copy_size(seg) <= bin_len
    &&& (seg.vaddr as u32) + copy_size(seg) <= u32::MAX
    &&& (seg.vaddr as u32) + copy_size(seg) <= mem_len
}

/// `mem` after the segments `segs` of the file `bin` have been copied into it,
/// in order.
pub open spec fn copy_segments(mem: Seq<u8>, bin: Seq<u8>, segs: Seq<Segment>) -> Seq<u8>
    decreases segs.len(),
{
    if segs.len() == 0 {
        mem
    } else {
        let seg = segs.last();
        splice(
            copy_segments(mem, bin, segs.drop_last()),
            (seg.vaddr as u32) as int,
            bin.subrange(seg.offset as int, seg.offset + copy_size(seg)),
        )
    }
}

/// The value of the first symbol of `syms` named `name`.
pub open spec fn find_symbol(syms: Seq<ElfSymbolView>, name: Seq<u8>) -> Option<u64>
    decreases syms.len(),
{
    if syms.len() == 0 {
        None
    } else if syms[0].name == Some(name) {
        Some(syms[0].value)
    } else {
        find_symbol(syms.drop_first(), name)
    }
}

/// The address of the first symbol of `syms` named `name`, in the 32-bit
/// address space.
pub open spec fn symbol_addr(syms: Seq<ElfSymbolView>, name: Seq<u8>) -> Option<Address> {
    match find_symbol(syms, name) {
        Some(v) => Some(v as u32),
        None => None,
    }
}

/// Whether loading the parsed file `img`, of `bin_len` bytes, into a memory
/// of `mem_len` bytes can run to its end: every segment fits, and the stack
/// above `_end` stays within the 32-bit address space.
pub open spec fn image_loadable(img: ElfImageView, bin_len: nat, mem_len: nat) -> bool {
    match img.segments {
        Some(segs) => {
            &&& forall|i: int|
                0 <= i < segs.len() ==> segment_fits(#[trigger] segs[i], bin_len, mem_len)
            &&& (img.symbols matches Some(Some(syms)) ==> (symbol_addr(
                syms,
                END_NAME.spec_bytes(),
            ) matches Some(end) ==> end + STACK_SIZE <= u32::MAX))
        },
        None => true,
    }
}

/// Whether loading the file `bin` into a memory of `mem_len` bytes can run to
/// its end (see `image_loadable`); a file that does not parse always can.
pub open spec fn loadable(bin: Seq<u8>, mem_len: nat) -> bool {
    match elf_image(bin) {
        Some(img) => image_loadable(img, bin.len(), mem_len),
        None => true,
    }
}

/// The state of the operating system once a program is loaded: where it keeps
/// `errno` and where its static data ends.
pub open spec fn loaded_os(os: super::OsState, syms: Seq<ElfSymbolView>, end: Address) -> super::OsState {
    super::OsState { errno_addr: symbol_addr(syms, ERRNO_PTR_NAME.spec_bytes()), end_addr: end, ..os }
}

/// What loading the parsed file `img`, whose bytes are `bin`, does: `r` is
/// its result, `mem` and `os` the memory and operating system before,
/// `new_mem` and `new_os` after.
pub open spec fn image_load_result(
    img: ElfImageView,
    bin: Seq<u8>,
    mem: Seq<u8>,
    os: super::OsState,
    r: core::result::Result<ProgramStart, LoaderError>,
    new_mem: Seq<u8>,
    new_os: super::OsState,
) -> bool {
    match img.segments {
        None => {
            &&& r matches Err(LoaderError::MissingProgramHeaderTable)
            &&& new_mem == mem
            &&& new_os == os
        },
        Some(segs) => {
            &&& new_mem == copy_segments(mem, bin, segs)
            &&& match img.symbols {
                None => {
                    &&& r matches Err(LoaderError::ParseError(msg, _)) && msg@
                        == BAD_SHDRS_MESSAGE@
                    &&& new_os == os
                },
                Some(None) => {
                    &&& r matches Err(LoaderError::MissingSymbolTable)
                    &&& new_os == os
                },
                Some(Some(syms)) => match symbol_addr(syms, END_NAME.spec_bytes()) {
                    None => {
                        &&& r matches Err(LoaderError::Missing_End)
                        &&& new_os == os
                    },
                    Some(end) => {
                        &&& r == Ok::<ProgramStart, LoaderError>(
                            ProgramStart {
                                entry: img.entry as u32,
                                stack_pointer: (end + STACK_SIZE) as u32,
                            },
                        )
                        &&& new_os == loaded_os(os, syms, end)
                    },
                },
            }
        },
    }
}

/// What loading the ELF file `bin` does: `r` is its result, `mem` and `os`
/// the memory and operating system before, `new_mem` and `new_os` after.
pub open spec fn load_result(
    bin: Seq<u8>,
    mem: Seq<u8>,
    os: super::OsState,
    r: core::result::Result<ProgramStart, LoaderError>,
    new_mem: Seq<u8>,
    new_os: super::OsState,
) -> bool {
    match elf_image(bin) {
        None => {
            &&& r matches Err(LoaderError::ParseError(msg, _)) && msg@ == BAD_ELF_MESSAGE@
            &&& new_mem == mem
            &&& new_os == os
        },
        Some(img) => image_load_result(img, bin, mem, os, r, new_mem, new_os),
    }
}

impl Loader {
    /// Loads the program in the ELF file `bin` into memory and tells the
    /// operating system where the program keeps `errno` and where its static
    /// data ends; returns where the program starts.
    ///
    /// The segments are copied before the symbols are looked up, so memory
    /// holds them even when loading then fails for want of a symbol.
    pub fn load(&self, bin: &[u8], mem: &mut Memory, os: &mut Os) -> (r: core::result::Result<
        ProgramStart,
        LoaderError,
    >)
        requires
            loadable(bin@, old(mem)@.len()),
        ensures
            load_result(bin@, old(mem)@, old(os)@, r, final(mem)@, final(os)@),
    {
        let elf = match parse_elf(bin) {
            Ok(elf) => elf,
            Err(err) => return Err(LoaderError::ParseError(BAD_ELF_MESSAGE, err)),
        };
        self.load_image(elf, bin, mem, os)
    }

    /// Loads the program of the parsed ELF file `elf`, whose bytes are `bin`:
    /// copies its segments into memory, tells the operating system where the
    /// program keeps `errno` and where its static data ends, and returns where
    /// the program starts.
    pub fn load_image(&self, elf: ElfImage, bin: &[u8], mem: &mut Memory, os: &mut Os) -> (r:
        core::result::Result<ProgramStart, LoaderError>)
        requires
            image_loadable(elf@, bin@.len(), old(mem)@.len()),
        ensures
            image_load_result(elf@, bin@, old(mem)@, old(os)@, r, final(mem)@, final(os)@),
            elf.segments is Some && elf.symbols is Err ==> (r matches Err(
                LoaderError::ParseError(_, e),
            ) && elf.symbols == Err::<Option<Vec<ElfSymbol>>, ParseError>(e)),
    {
        let ghost img = elf@;
        let segments = match elf.segments {
            Some(segments) => segments,
            None => return Err(LoaderError::MissingProgramHeaderTable),
        };
        assert(img.segments == Some(segments@));
        assert forall|i: int| 0 <= i < segments@.len() implies segment_fits(
            #[trigger] segments@[i],
            bin@.len(),
            old(mem)@.len(),
        ) by {
            assert(img.segments->0[i] == segments@[i]);
        }
        let bin_len = bin.len();

        let mut k: usize = 0;
        while k < segments.len()
            invariant
                k <= segments@.len(),
                bin_len == bin@.len(),
                mem@.len() == old(mem)@.len(),
                forall|i: int|
                    0 <= i < segments@.len() ==> segment_fits(
                        #[trigger] segments@[i],
                        bin@.len(),
                        old(mem)@.len(),
                    ),
                mem@ == copy_segments(old(mem)@, bin@, segments@.take(k as int)),
            decreases segments.len() - k,
        {
            let segment = segments[k];
            assert(segment_fits(segments@[k as int], bin@.len(), old(mem)@.len()));
            let offset = segment.offset as usize;
            let addr = segment.vaddr as Address;
            let size = (if segment.filesz <= segment.memsz {
                segment.filesz
            } else {
                segment.memsz
            }) as usize;
            assert(size == copy_size(segment));
            assert(offset == segment.offset);
            mem.copy_from_slice(addr as usize, vstd::slice::slice_subrange(bin, offset, offset + size));
            proof {
                assert(segments@.take(k + 1).drop_last() =~= segments@.take(k as int));
            }
            k = k + 1;
        }
        proof {
            assert(segments@.take(segments@.len() as int) =~= segments@);
        }

        let symtab = match elf.symbols {
            Ok(symtab) => symtab,
            Err(err) => return Err(LoaderError::ParseError(BAD_SHDRS_MESSAGE, err)),
        };
        let errno_addr = match Self::get_symbol_addr(&symtab, ERRNO_PTR_NAME.as_bytes()) {
            Ok(addr) => addr,
            Err(err) => return Err(err),
        };
        let _end_addr = match Self::get_symbol_addr(&symtab, END_NAME.as_bytes()) {
            Ok(Some(addr)) => addr,
            Ok(None) => return Err(LoaderError::Missing_End),
            Err(err) => return Err(err),
        };
        let start = ProgramStart { entry: elf.entry as Address, stack_pointer: _end_addr + STACK_SIZE };
        os.set_errno_addr(errno_addr);
        os.set__end_addr(_end_addr);

        Ok(start)
    }

    /// Loads the program in the ELF file `bin` like [`Loader::load`] when it can
    /// be loaded to its end; otherwise gives `None` and changes nothing.
    ///
    /// A file cannot be loaded when one of its segments lies outside the file,
    /// outside memory or past the end of the 32-bit address space, or when the
    /// stack above `_end` would pass the end of the address space.
    pub fn try_load(&self, bin: &[u8], mem: &mut Memory, os: &mut Os) -> (r: Option<
        core::result::Result<ProgramStart, LoaderError>,
    >)
        ensures
            r is Some <==> loadable(bin@, old(mem)@.len()),
            r matches Some(res) ==> load_result(
                bin@,
                old(mem)@,
                old(os)@,
                res,
                final(mem)@,
                final(os)@,
            ),
            r is None ==> final(mem)@ == old(mem)@ && final(os)@ == old(os)@,
    {
        let fits = match parse_elf(bin) {
            Err(_) => true,
            Ok(elf) => {
                let ghost img = elf@;
                match elf.segments {
                    None => true,
                    Some(segments) => {
                        let segments_ok = segments_fit(&segments, bin.len(), mem.len());
                        let stack_ok = match elf.symbols {
                            Ok(symtab) => match Self::get_symbol_addr(&symtab, END_NAME.as_bytes()) {
                                Ok(Some(end)) => end <= u32::MAX - STACK_SIZE,
                                _ => true,
                            },
                            Err(_) => true,
                        };
                        proof {
                            assert(img.segments == Some(segments@));
                            assert(segments_ok <==> forall|i: int|
                                0 <= i < img.segments->0.len() ==> segment_fits(
                                    #[trigger] img.segments->0[i],
                                    bin@.len(),
                                    old(mem)@.len(),
                                )) by {
                                if segments_ok {
                                    assert forall|i: int|
                                        0 <= i < img.segments->0.len() implies segment_fits(
                                        #[trigger] img.segments->0[i],
                                        bin@.len(),
                                        old(mem)@.len(),
                                    ) by {
                                        assert(img.segments->0[i] == segments@[i]);
                                    }
                                } else {
                                    let i = choose|i: int|
                                        0 <= i < segments@.len() && !segment_fits(
                                            #[trigger] segments@[i],
                                            bin@.len(),
                                            old(mem)@.len(),
                                        );
                                    assert(img.segments->0[i] == segments@[i]);
                                }
                            }
                            assert(stack_ok <==> (img.symbols matches Some(Some(syms)) ==> (
                            symbol_addr(syms, END_NAME.spec_bytes()) matches Some(end) ==> end
                                + STACK_SIZE <= u32::MAX)));
                        }
                        segments_ok && stack_ok
                    },
                }
            },
        };
        if fits {
            Some(self.load(bin, mem, os))
        } else {
            None
        }
    }

    /// The address of the first symbol in `symtab` named `symbol_name`;
    /// fails when the file has no symbol table.
    fn get_symbol_addr(symtab: &Option<Vec<ElfSymbol>>, symbol_name: &[u8]) -> (r:
        core::result::Result<Option<Address>, LoaderError>)
        ensures
            match symtab {
                Some(syms) => r matches Ok(a) && a == symbol_addr(
                    symbol_views(syms@),
                    symbol_name@,
                ),
                None => r matches Err(LoaderError::MissingSymbolTable),
            },
    {
        match symtab {
            None => Err(LoaderError::MissingSymbolTable),
            Some(syms) => {
                let ghost views = symbol_views(syms@);
                let mut i: usize = 0;
                assert(views.subrange(0, views.len() as int) =~= views);
                while i < syms.len()
                    invariant
                        i <= syms@.len(),
                        *symtab matches Some(v) && v@ == syms@,
                        views == symbol_views(syms@),
                        find_symbol(views, symbol_name@) == find_symbol(
                            views.subrange(i as int, views.len() as int),
                            symbol_name@,
                        ),
                    decreases syms.len() - i,
                {
                    let sym = &syms[i];
                    let ghost rest = views.subrange(i as int, views.len() as int);
                    assert(rest[0] == sym@);
                    if name_is(&sym.name, symbol_name) {
                        assert(sym@.name == Some(symbol_name@));
                        assert(find_symbol(rest, symbol_name@) == Some(sym.value));
                        return Ok(Some(sym.value as Address));
                    }
                    assert(rest.drop_first() =~= views.subrange(i + 1, views.len() as int));
                    i = i + 1;
                }
                Ok(None)
            },
        }
    }
}

/// Whether every segment of `segments` lies within a file of `bin_len` bytes
/// and, at its load address, within a memory of `mem_len` bytes and the 32-bit
/// address space.
fn segments_fit(segments: &Vec<Segment>, bin_len: usize, mem_len: usize) -> (r: bool)
    ensures
        r == forall|i: int|
            0 <= i < segments@.len() ==> segment_fits(#[trigger] segments@[i], bin_len as nat, mem_len as nat),
{
    let mut i: usize = 0;
    while i < segments.len()
        invariant
            i <= segments@.len(),
            forall|j: int|
                0 <= j < i ==> segment_fits(#[trigger] segments@[j], bin_len as nat, mem_len as nat),
        decreases segments.len() - i,
    {
        let seg = segments[i];
        let size = if seg.filesz <= seg.memsz {
            seg.filesz
        } else {
            seg.memsz
        };
        let addr = seg.vaddr as u32;
        let in_file = size <= bin_len as u64 && seg.offset <= bin_len as u64 - size;
        let in_memory = size <= (u32::MAX - addr) as u64 && (addr as u64) + size <= mem_len as u64;
        if !(in_file && in_memory) {
            assert(!segment_fits(segments@[i as int], bin_len as nat, mem_len as nat));
            return false;
        }
        i = i + 1;
    }
    true
}

/// Whether a symbol's name is `expected`.
fn name_is(name: &Option<Vec<u8>>, expected: &[u8]) -> (r: bool)
    ensures
        r == (match name {
            Some(n) => n@ == expected@,
            None => false,
        }),
{
    match name {
        None => false,
        Some(n) => {
            if n.len() != expected.len() {
                assert(n@.len() != expected@.len());
                return false;
            }
            let mut i: usize = 0;
            while i < n.len()
                invariant
                    i <= n@.len(),
                    *name matches Some(v) && v@ == n@,
                    n@.len() == expected@.len(),
                    n@.subrange(0, i as int) == expected@.subrange(0, i as int),
                decreases n.len() - i,
            {
                if n[i] != expected[i] {
                    assert(n@ != expected@) by {
                        if n@ == expected@ {
                            assert(n@[i as int] == expected@[i as int]);
                        }
                    }
                    return false;
                }
                assert(n@.subrange(0, i + 1) =~= expected@.subrange(0, i + 1));
                i = i + 1;
            }
            assert(n@ =~= n@.subrange(0, i as int));
            assert(expected@ =~= expected@.subrange(0, i as int));
            true
        },
    }
}

} // verus!
