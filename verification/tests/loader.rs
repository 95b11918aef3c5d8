use cpu_sim::memory::Memory;
use cpu_sim::os::loader::{
    ElfImage, ElfSymbol, Loader, Segment, LoaderError, ProgramStart, BAD_ELF_MESSAGE, BAD_SHDRS_MESSAGE, END_NAME,
    ERRNO_PTR_NAME, STACK_SIZE,
};
use cpu_sim::os::{read_bytes, Os};
use cpu_sim::ui::streams::StdStream;

const SEGMENT_ADDR: u32 = 0x100;
const SEGMENT_DATA: [u8; 4] = [0xDE, 0xAD, 0xBE, 0xEF];
const END_ADDR: u32 = 0x2000;
const ERRNO_ADDR: u32 = 0x300;
const ENTRY: u32 = 0x104;

fn put_u16(buf: &mut Vec<u8>, v: u16) {
    buf.extend_from_slice(&v.to_le_bytes());
}

fn put_u32(buf: &mut Vec<u8>, v: u32) {
    buf.extend_from_slice(&v.to_le_bytes());
}

struct Shape {
    program_headers: bool,
    section_headers: bool,
    end_symbol: bool,
    segment_addr: u32,
    end_addr: u32,
}

impl Shape {
    fn full() -> Self {
        Shape {
            program_headers: true,
            section_headers: true,
            end_symbol: true,
            segment_addr: SEGMENT_ADDR,
            end_addr: END_ADDR,
        }
    }
}

/// A little-endian ELF32 file with one loadable segment of four bytes (eight
/// in memory), a string table and a symbol table naming `_end` and
/// `_impure_ptr`.
fn elf(shape: &Shape) -> Vec<u8> {
    let phoff = 0x34u32;
    let seg_off = 0x54u32;
    let strtab_off = 0x58u32;
    let mut strtab = vec![0u8];
    let end_name = strtab.len() as u32;
    strtab.extend_from_slice(if shape.end_symbol { b"_end" } else { b"_xyz" });
    strtab.push(0);
    let errno_name = strtab.len() as u32;
    strtab.extend_from_slice(b"_impure_ptr");
    strtab.push(0);
    let symtab_off = 0x6Cu32;
    let shoff = symtab_off + 48;

    let mut b = Vec::new();
    b.extend_from_slice(&[0x7F, b'E', b'L', b'F', 1, 1, 1, 0]);
    b.extend_from_slice(&[0; 8]);
    put_u16(&mut b, 2);
    put_u16(&mut b, 0xF3);
    put_u32(&mut b, 1);
    put_u32(&mut b, ENTRY);
    put_u32(&mut b, if shape.program_headers { phoff } else { 0 });
    put_u32(&mut b, if shape.section_headers { shoff } else { 0 });
    put_u32(&mut b, 0);
    put_u16(&mut b, 52);
    put_u16(&mut b, 32);
    put_u16(&mut b, 1);
    put_u16(&mut b, 40);
    put_u16(&mut b, 3);
    put_u16(&mut b, 0);
    assert_eq!(b.len(), 0x34);

    put_u32(&mut b, 1);
    put_u32(&mut b, seg_off);
    put_u32(&mut b, shape.segment_addr);
    put_u32(&mut b, shape.segment_addr);
    put_u32(&mut b, 4);
    put_u32(&mut b, 8);
    put_u32(&mut b, 5);
    put_u32(&mut b, 4);
    assert_eq!(b.len() as u32, seg_off);

    b.extend_from_slice(&SEGMENT_DATA);
    assert_eq!(b.len() as u32, strtab_off);
    b.extend_from_slice(&strtab);
    while (b.len() as u32) < symtab_off {
        b.push(0);
    }

    b.extend_from_slice(&[0; 16]);
    for (name, value) in [(end_name, shape.end_addr), (errno_name, ERRNO_ADDR)] {
        put_u32(&mut b, name);
        put_u32(&mut b, value);
        put_u32(&mut b, 0);
        b.push(0x11);
        b.push(0);
        put_u16(&mut b, 1);
    }
    assert_eq!(b.len() as u32, shoff);

    b.extend_from_slice(&[0; 40]);
    for (kind, offset, size, link, entsize) in
        [(2u32, symtab_off, 48u32, 2u32, 16u32), (3, strtab_off, strtab.len() as u32, 0, 0)]
    {
        put_u32(&mut b, 0);
        put_u32(&mut b, kind);
        put_u32(&mut b, 0);
        put_u32(&mut b, 0);
        put_u32(&mut b, offset);
        put_u32(&mut b, size);
        put_u32(&mut b, link);
        put_u32(&mut b, 0);
        put_u32(&mut b, 1);
        put_u32(&mut b, entsize);
    }
    b
}

fn new_os() -> Os {
    Os::new(StdStream::default(), StdStream::default(), StdStream::default())
}

#[test]
fn symbol_names() {
    assert_eq!(END_NAME, "_end");
    assert_eq!(ERRNO_PTR_NAME, "_impure_ptr");
    assert_eq!(STACK_SIZE, 0x4000_0000);
}

#[test]
fn load_copies_segments_and_sets_up_the_program() {
    let bin = elf(&Shape::full());
    let mut mem = Memory::new(0x1000);
    let mut os = new_os();
    let start = Loader.load(&bin, &mut mem, &mut os).unwrap();
    assert_eq!(start, ProgramStart { entry: ENTRY, stack_pointer: END_ADDR + STACK_SIZE });
    assert_eq!(read_bytes(&mem, SEGMENT_ADDR..SEGMENT_ADDR + 8), vec![0xDE, 0xAD, 0xBE, 0xEF, 0, 0, 0, 0]);
    assert_eq!(os.sbrk(start.stack_pointer, 0x10), Ok(END_ADDR as i32));
    assert_eq!(os.sbrk(start.stack_pointer, 0), Ok((END_ADDR + 0x10) as i32));
    os.set_errno(&mut mem, 9);
    assert_eq!(read_bytes(&mem, ERRNO_ADDR..ERRNO_ADDR + 4), vec![9, 0, 0, 0]);
}

#[test]
fn try_load_loads_what_fits() {
    let bin = elf(&Shape::full());
    let mut mem = Memory::new(0x1000);
    let mut os = new_os();
    let start = Loader.try_load(&bin, &mut mem, &mut os).unwrap().unwrap();
    assert_eq!(start.entry, ENTRY);
    assert_eq!(read_bytes(&mem, SEGMENT_ADDR..SEGMENT_ADDR + 4), SEGMENT_DATA.to_vec());
}

#[test]
fn not_an_elf_file() {
    let mut bin = elf(&Shape::full());
    bin[1] = b'X';
    let mut mem = Memory::new(0x1000);
    let mut os = new_os();
    match Loader.load(&bin, &mut mem, &mut os) {
        Err(LoaderError::ParseError(msg, _)) => assert_eq!(msg, BAD_ELF_MESSAGE),
        other => panic!("unexpected {:?}", other),
    }
    assert_eq!(read_bytes(&mem, SEGMENT_ADDR..SEGMENT_ADDR + 4), vec![0; 4]);
}

#[test]
fn missing_program_header_table() {
    let bin = elf(&Shape { program_headers: false, ..Shape::full() });
    let mut mem = Memory::new(0x1000);
    let mut os = new_os();
    assert!(matches!(
        Loader.load(&bin, &mut mem, &mut os),
        Err(LoaderError::MissingProgramHeaderTable)
    ));
    assert_eq!(read_bytes(&mem, SEGMENT_ADDR..SEGMENT_ADDR + 4), vec![0; 4]);
}

#[test]
fn missing_symbol_table_after_copying() {
    let bin = elf(&Shape { section_headers: false, ..Shape::full() });
    let mut mem = Memory::new(0x1000);
    let mut os = new_os();
    assert!(matches!(
        Loader.load(&bin, &mut mem, &mut os),
        Err(LoaderError::MissingSymbolTable)
    ));
    assert_eq!(read_bytes(&mem, SEGMENT_ADDR..SEGMENT_ADDR + 4), SEGMENT_DATA.to_vec());
    assert_eq!(os.sbrk(0x1000, 0x10), Ok(0));
}

#[test]
fn missing_end_symbol() {
    let bin = elf(&Shape { end_symbol: false, ..Shape::full() });
    let mut mem = Memory::new(0x1000);
    let mut os = new_os();
    assert!(matches!(Loader.load(&bin, &mut mem, &mut os), Err(LoaderError::Missing_End)));
}

#[test]
fn section_headers_that_do_not_parse() {
    let mut bin = elf(&Shape::full());
    let len = bin.len();
    bin.truncate(len - 10);
    let mut mem = Memory::new(0x1000);
    let mut os = new_os();
    match Loader.load(&bin, &mut mem, &mut os) {
        Err(LoaderError::ParseError(msg, _)) => assert_eq!(msg, BAD_ELF_MESSAGE),
        other => panic!("unexpected {:?}", other),
    }
}

#[test]
fn symbol_table_that_does_not_parse() {
    let mut bin = elf(&Shape::full());
    let symtab_entsize_at = 0x6C + 48 + 40 + 36;
    bin[symtab_entsize_at] = 7;
    let mut mem = Memory::new(0x1000);
    let mut os = new_os();
    match Loader.load(&bin, &mut mem, &mut os) {
        Err(LoaderError::ParseError(msg, _)) => assert_eq!(msg, BAD_SHDRS_MESSAGE),
        other => panic!("unexpected {:?}", other),
    }
    assert_eq!(read_bytes(&mem, SEGMENT_ADDR..SEGMENT_ADDR + 4), SEGMENT_DATA.to_vec());
}

#[test]
fn try_load_refuses_a_segment_outside_memory() {
    let bin = elf(&Shape { segment_addr: 0x2000, ..Shape::full() });
    let mut mem = Memory::new(0x1000);
    let mut os = new_os();
    assert!(Loader.try_load(&bin, &mut mem, &mut os).is_none());
    assert_eq!(os.sbrk(0x1000, 0), Ok(0));
}

#[test]
fn try_load_refuses_a_stack_past_the_address_space() {
    let bin = elf(&Shape { end_addr: 0xC000_0001, ..Shape::full() });
    let mut mem = Memory::new(0x1000);
    let mut os = new_os();
    assert!(Loader.try_load(&bin, &mut mem, &mut os).is_none());
    assert_eq!(read_bytes(&mem, SEGMENT_ADDR..SEGMENT_ADDR + 4), vec![0; 4]);
}

#[test]
fn try_load_passes_errors_on() {
    let bin = elf(&Shape { end_symbol: false, ..Shape::full() });
    let mut mem = Memory::new(0x1000);
    let mut os = new_os();
    assert!(matches!(
        Loader.try_load(&bin, &mut mem, &mut os),
        Some(Err(LoaderError::Missing_End))
    ));
}

#[test]
fn loader_error_messages() {
    assert_eq!(
        LoaderError::MissingProgramHeaderTable.message(),
        "Parse error: Program header table should be present"
    );
    assert_eq!(LoaderError::Missing_End.message(), "Parse error: `_end` symbol should be present");
    assert_eq!(
        LoaderError::MissingSymbolTable.message(),
        "Parse error: .symtab and .strtab should be present"
    );
    let io = std::io::Error::new(std::io::ErrorKind::NotFound, "no such file");
    assert_eq!(LoaderError::from(io).message(), "IO error: no such file");
}

#[test]
fn parse_error_message_names_the_cause() {
    let mut bin = elf(&Shape::full());
    bin[1] = b'X';
    let mut mem = Memory::new(0x1000);
    let mut os = new_os();
    let err = Loader.load(&bin, &mut mem, &mut os).unwrap_err();
    let text = err.message();
    assert!(text.starts_with("Parse error: Binary should be a valid ELF file: "));
    assert!(text.contains("Magic"));
}

#[test]
fn load_image_works_from_parsed_parts() {
    let bin = [0x11u8, 0x22, 0x33];
    let image = ElfImage {
        entry: 0x10,
        segments: Some(vec![Segment { offset: 1, vaddr: 0x10, filesz: 2, memsz: 4 }]),
        symbols: Ok(Some(vec![
            ElfSymbol { name: None, value: 7 },
            ElfSymbol { name: Some(b"_end".to_vec()), value: 0x40 },
            ElfSymbol { name: Some(b"_end".to_vec()), value: 0x80 },
        ])),
    };
    let mut mem = Memory::new(0x20);
    let mut os = new_os();
    let start = Loader.load_image(image, &bin, &mut mem, &mut os).unwrap();
    assert_eq!(start, ProgramStart { entry: 0x10, stack_pointer: 0x40 + STACK_SIZE });
    assert_eq!(read_bytes(&mem, 0x10..0x14), vec![0x22, 0x33, 0, 0]);
    assert_eq!(os.sbrk(0x1000, 0), Ok(0x40));
}

#[test]
fn load_image_without_segments() {
    let image = ElfImage { entry: 0, segments: None, symbols: Ok(None) };
    let mut mem = Memory::new(4);
    let mut os = new_os();
    assert!(matches!(
        Loader.load_image(image, &[], &mut mem, &mut os),
        Err(LoaderError::MissingProgramHeaderTable)
    ));
}

#[test]
fn load_image_passes_on_the_symbol_table_error() {
    let image = ElfImage {
        entry: 0,
        segments: Some(vec![]),
        symbols: Err(elf::ParseError::BadOffset(3)),
    };
    let mut mem = Memory::new(4);
    let mut os = new_os();
    match Loader.load_image(image, &[], &mut mem, &mut os) {
        Err(LoaderError::ParseError(msg, elf::ParseError::BadOffset(3))) => {
            assert_eq!(msg, BAD_SHDRS_MESSAGE)
        }
        other => panic!("unexpected {:?}", other),
    }
}
