use crate::bytes::{string_at, word16, word32, word64};
use crate::error::{Error, Failure};
use object::elf::{Dyn64, FileHeader64, ProgramHeader64, Rela64, Sym64};
use object::read::elf::{Dyn, FileHeader as _, ProgramHeader as _, Rela, Sym};
use object::{Endian, Endianness, ReadRef};
use vstd::prelude::*;

verus! {

/// The size in bytes of the fixed header of a 64-bit ELF image.
pub const FILE_HEADER_SIZE: u64 = 64;

/// The size in bytes of one section header.
pub const SECTION_HEADER_SIZE: u64 = 64;

/// The size in bytes of one program header.
pub const PROGRAM_HEADER_SIZE: u64 = 56;

/// The size in bytes of one entry of the dynamic segment.
pub const DYNAMIC_ENTRY_SIZE: u64 = 16;

/// The size in bytes of one relocation with explicit addend.
pub const RELOCATION_SIZE: u64 = 24;

/// The size in bytes of one entry of the symbol table.
pub const SYMBOL_SIZE: u64 = 24;

/// The program header count that says the real count stands in the first
/// section header.
pub const EXTENDED_COUNT: u16 = 0xffff;

/// The type of the program header that marks the dynamic segment.
pub const PT_DYNAMIC: u32 = 2;

/// Tag of the dynamic entry that holds the byte size of the relocation table
/// of the procedure linkage.
pub const DT_PLTRELSZ: u64 = 2;

/// Tag of the dynamic entry that holds the address of the string table.
pub const DT_STRTAB: u64 = 5;

/// Tag of the dynamic entry that holds the address of the symbol table.
pub const DT_SYMTAB: u64 = 6;

/// Tag of relocation tables with explicit addends, and the value that the
/// entry tagged [`DT_PLTREL`] must hold.
pub const DT_RELA: u64 = 7;

/// Tag of the dynamic entry that holds the byte size of the string table.
pub const DT_STRSZ: u64 = 10;

/// Tag of the dynamic entry that holds the format of the relocation table of
/// the procedure linkage.
pub const DT_PLTREL: u64 = 20;

/// Tag of the dynamic entry that holds the address of the relocation table of
/// the procedure linkage.
pub const DT_JMPREL: u64 = 23;

/// The type of a jump-slot relocation on x86-64.
pub const R_X86_64_JUMP_SLOT: u32 = 7;

/// The type of a jump-slot relocation on 64-bit ARM.
pub const R_AARCH64_JUMP_SLOT: u32 = 1026;

/// The processor architectures whose jump-slot relocations the engine knows.
/// The embedding program chooses the one it is built for.
#[derive(Clone, Copy, Debug, PartialEq, Eq)]
pub enum Architecture {
    X86_64,
    Aarch64,
}

impl Architecture {
    /// The relocation type that marks a slot to be filled with the address of
    /// an imported function.
    pub open spec fn jump_slot_kind(self) -> u32 {
        match self {
            Architecture::X86_64 => R_X86_64_JUMP_SLOT,
            Architecture::Aarch64 => R_AARCH64_JUMP_SLOT,
        }
    }

    /// The relocation type that marks a slot to be filled with the address of
    /// an imported function.
    #[verifier::when_used_as_spec(jump_slot_kind)]
    pub fn jump_slot(self) -> (kind: u32)
        ensures
            kind == self.jump_slot_kind(),
    {
        match self {
            Architecture::X86_64 => R_X86_64_JUMP_SLOT,
            Architecture::Aarch64 => R_AARCH64_JUMP_SLOT,
        }
    }
}

/// What the engine reads of the fixed header of an image.
#[derive(Clone, Copy, Debug, PartialEq, Eq)]
pub struct FileHeader {
    /// Whether the image stores numbers with the most significant byte first.
    pub big_endian: bool,
    /// Where the program header table starts, from the start of the image.
    pub program_header_offset: u64,
    /// How many program headers the table holds, or nothing where the header
    /// refers to a first section header that cannot be read.
    pub program_header_count: Option<usize>,
}

/// What the engine reads of one program header.
#[derive(Clone, Copy, Debug, PartialEq, Eq)]
pub struct ProgramHeader {
    /// The type of the segment.
    pub kind: u32,
    /// Where the segment starts in memory, from the module's base address.
    pub address: u64,
    /// The size in bytes of the segment in memory.
    pub memory_size: u64,
}

/// One entry of the dynamic segment.
#[derive(Clone, Copy, Debug, PartialEq, Eq)]
pub struct DynamicEntry {
    pub tag: u64,
    pub value: u64,
}

/// One relocation with explicit addend.
#[derive(Clone, Copy, Debug, PartialEq, Eq)]
pub struct Relocation {
    /// Where the relocated slot lies, from the module's base address.
    pub offset: u64,
    /// The index of the symbol in the dynamic symbol table.
    pub symbol_index: u32,
    /// The type of the relocation.
    pub kind: u32,
}

/// What the engine reads of one entry of the symbol table.
#[derive(Clone, Copy, Debug, PartialEq, Eq)]
pub struct Symbol {
    /// Where the symbol's name starts, from the start of the string table.
    pub name_offset: u32,
}

/// Why the fixed header of an image could not be read.
#[derive(Clone, Copy, Debug, PartialEq, Eq)]
pub enum HeaderFault {
    /// The image is too short, or its identification is not that of a 64-bit
    /// ELF image of the current version with a known byte order.
    Unsupported,
    /// The byte order that the identification names cannot be used.
    ByteOrder,
}

/// Whether `bytes` start with the identification of a 64-bit ELF image: the
/// magic number, the 64-bit class, one of the two byte orders and the current
/// version, in a header of full size.
pub open spec fn supported_header(bytes: Seq<u8>) -> bool {
    &&& bytes.len() >= FILE_HEADER_SIZE
    &&& bytes[0] == 0x7f
    &&& bytes[1] == 0x45
    &&& bytes[2] == 0x4c
    &&& bytes[3] == 0x46
    &&& bytes[4] == 2
    &&& (bytes[5] == 1 || bytes[5] == 2)
    &&& bytes[6] == 1
}

/// The number of program headers that the header of `bytes` gives: the count
/// in the header itself or, where that holds [`EXTENDED_COUNT`], the
/// information field of the first section header.
pub open spec fn program_header_count_of(bytes: Seq<u8>) -> Option<usize> {
    let big_endian = bytes[5] == 2;
    let count = word16(bytes, 56, big_endian);
    let sections = word64(bytes, 40, big_endian);
    if count < EXTENDED_COUNT {
        Some(count as usize)
    } else if sections == 0 || word16(bytes, 58, big_endian) != SECTION_HEADER_SIZE || sections
        + SECTION_HEADER_SIZE > bytes.len() {
        None
    } else {
        Some(word32(bytes, sections + 44, big_endian) as usize)
    }
}

/// The header that `bytes` start with.
pub open spec fn file_header_of(bytes: Seq<u8>) -> FileHeader {
    FileHeader {
        big_endian: bytes[5] == 2,
        program_header_offset: word64(bytes, 32, bytes[5] == 2),
        program_header_count: program_header_count_of(bytes),
    }
}

/// The program header that `bytes` hold from index `at` on.
pub open spec fn program_header_at(bytes: Seq<u8>, at: int, big_endian: bool) -> ProgramHeader {
    ProgramHeader {
        kind: word32(bytes, at, big_endian),
        address: word64(bytes, at + 16, big_endian),
        memory_size: word64(bytes, at + 40, big_endian),
    }
}

/// The dynamic entry that `bytes` hold from index `at` on.
pub open spec fn dynamic_entry_at(bytes: Seq<u8>, at: int, big_endian: bool) -> DynamicEntry {
    DynamicEntry {
        tag: word64(bytes, at, big_endian),
        value: word64(bytes, at + 8, big_endian),
    }
}

/// The relocation that `bytes` hold from index `at` on. The upper half of its
/// information word is the symbol index, the lower half the type.
pub open spec fn relocation_at(bytes: Seq<u8>, at: int, big_endian: bool) -> Relocation {
    Relocation {
        offset: word64(bytes, at, big_endian),
        symbol_index: (word64(bytes, at + 8, big_endian) / 0x1_0000_0000) as u32,
        kind: (word64(bytes, at + 8, big_endian) % 0x1_0000_0000) as u32,
    }
}

/// The symbol that `bytes` hold from index `at` on.
pub open spec fn symbol_at(bytes: Seq<u8>, at: int, big_endian: bool) -> Symbol {
    Symbol { name_offset: word32(bytes, at, big_endian) }
}

/// The table of `count` program headers that `bytes` hold from index `at` on.
pub open spec fn program_headers_at(
    bytes: Seq<u8>,
    at: int,
    count: nat,
    big_endian: bool,
) -> Seq<ProgramHeader> {
    Seq::new(
        count,
        |index: int| program_header_at(bytes, at + index * PROGRAM_HEADER_SIZE, big_endian),
    )
}

/// The `count` dynamic entries that `bytes` hold from index `at` on.
pub open spec fn dynamic_entries_at(
    bytes: Seq<u8>,
    at: int,
    count: nat,
    big_endian: bool,
) -> Seq<DynamicEntry> {
    Seq::new(
        count,
        |index: int| dynamic_entry_at(bytes, at + index * DYNAMIC_ENTRY_SIZE, big_endian),
    )
}

/// The `count` relocations that `bytes` hold from index `at` on.
pub open spec fn relocations_at(
    bytes: Seq<u8>,
    at: int,
    count: nat,
    big_endian: bool,
) -> Seq<Relocation> {
    Seq::new(count, |index: int| relocation_at(bytes, at + index * RELOCATION_SIZE, big_endian))
}

/// Reads the fixed header with `FileHeader64::parse` of the `object` crate,
/// asks it for the byte order with `endian`, and takes the offset of the
/// program header table with `e_phoff` and their number with `phnum`.
///
/// Believed of those functions: `parse` accepts exactly the images that
/// [`supported_header`] describes; the byte order of an accepted image is
/// always known; the fields stand at the offsets that [`file_header_of`]
/// reads them from.
#[verifier::external_body]
fn read_file_header(data: &[u8]) -> (header: Result<FileHeader, HeaderFault>)
    ensures
        match header {
            Ok(found) => supported_header(data@) && found == file_header_of(data@),
            Err(fault) => !supported_header(data@) && fault == HeaderFault::Unsupported,
        },
{
    let raw = match FileHeader64::<Endianness>::parse(data) {
        Ok(raw) => raw,
        Err(_) => return Err(HeaderFault::Unsupported),
    };
    let endian = match raw.endian() {
        Ok(endian) => endian,
        Err(_) => return Err(HeaderFault::ByteOrder),
    };
    Ok(FileHeader {
        big_endian: endian.is_big_endian(),
        program_header_offset: raw.e_phoff(endian),
        program_header_count: raw.phnum(endian, data).ok(),
    })
}

/// Reads `count` program headers at `offset` with `ReadRef::read_slice_at`
/// of the `object` crate and takes from each its type, address and size in
/// memory.
///
/// Believed of it: the read succeeds exactly where the table lies within
/// `data`, and the fields stand where [`program_header_at`] reads them.
#[verifier::external_body]
fn read_program_headers(data: &[u8], offset: u64, count: usize, big_endian: bool) -> (table:
    Option<Vec<ProgramHeader>>)
    ensures
        table is Some <==> offset + count * PROGRAM_HEADER_SIZE <= data@.len(),
        table matches Some(headers) ==> headers@ == program_headers_at(
            data@,
            offset as int,
            count as nat,
            big_endian,
        ),
{
    let endian = Endianness::from_big_endian(big_endian)?;
    let raw: &[ProgramHeader64<Endianness>] = data.read_slice_at(offset, count).ok()?;
    Some(
        raw.iter().map(
            |header|
                ProgramHeader {
                    kind: header.p_type(endian),
                    address: header.p_vaddr(endian),
                    memory_size: header.p_memsz(endian),
                },
        ).collect(),
    )
}

/// Reads `count` dynamic entries at `offset` with `ReadRef::read_slice_at`
/// of the `object` crate and takes from each its tag and value.
///
/// Believed of it: the read succeeds exactly where the entries lie within
/// `data`, and the fields stand where [`dynamic_entry_at`] reads them.
#[verifier::external_body]
fn read_dynamic_entries(data: &[u8], offset: u64, count: usize, big_endian: bool) -> (table:
    Option<Vec<DynamicEntry>>)
    ensures
        table is Some <==> offset + count * DYNAMIC_ENTRY_SIZE <= data@.len(),
        table matches Some(entries) ==> entries@ == dynamic_entries_at(
            data@,
            offset as int,
            count as nat,
            big_endian,
        ),
{
    let endian = Endianness::from_big_endian(big_endian)?;
    let raw: &[Dyn64<Endianness>] = data.read_slice_at(offset, count).ok()?;
    Some(
        raw.iter().map(
            |entry| DynamicEntry { tag: entry.d_tag(endian), value: entry.d_val(endian) },
        ).collect(),
    )
}

/// Reads `count` relocations at `offset` with `ReadRef::read_slice_at` of the
/// `object` crate and takes from each its offset, symbol index and type.
///
/// Believed of it: the read succeeds exactly where the relocations lie within
/// `data`, and the fields stand where [`relocation_at`] reads them.
#[verifier::external_body]
fn read_relocations(data: &[u8], offset: u64, count: usize, big_endian: bool) -> (table: Option<
    Vec<Relocation>,
>)
    ensures
        table is Some <==> offset + count * RELOCATION_SIZE <= data@.len(),
        table matches Some(relocations) ==> relocations@ == relocations_at(
            data@,
            offset as int,
            count as nat,
            big_endian,
        ),
{
    let endian = Endianness::from_big_endian(big_endian)?;
    let raw: &[Rela64<Endianness>] = data.read_slice_at(offset, count).ok()?;
    Some(
        raw.iter().map(
            |relocation|
                Relocation {
                    offset: relocation.r_offset(endian),
                    symbol_index: relocation.r_sym(endian, false),
                    kind: relocation.r_type(endian, false),
                },
        ).collect(),
    )
}

/// Reads the symbol at `offset` with `ReadRef::read_at` of the `object` crate
/// and takes the offset of its name.
///
/// Believed of it: the read succeeds exactly where the symbol lies within
/// `data`, and the name offset is its first field.
#[verifier::external_body]
pub(crate) fn read_symbol(data: &[u8], offset: u64, big_endian: bool) -> (symbol: Option<Symbol>)
    ensures
        symbol is Some <==> offset + SYMBOL_SIZE <= data@.len(),
        symbol is Some ==> symbol == Some(symbol_at(data@, offset as int, big_endian)),
{
    let endian = Endianness::from_big_endian(big_endian)?;
    let raw: &Sym64<Endianness> = data.read_at(offset).ok()?;
    Some(Symbol { name_offset: raw.st_name(endian) })
}

/// Looks up the string at `offset` of the string table that spans
/// `[start, end)` of `data`, with `StringTable::get` of the `object` crate.
///
/// Believed of it: it hands out the bytes from `start + offset` up to the
/// first zero byte before `end`, and fails where that range leaves `data` or
/// holds no zero byte.
#[verifier::external_body]
pub(crate) fn read_string<'a>(data: &'a [u8], start: u64, end: u64, offset: u32) -> (name: Option<
    &'a [u8],
>)
    ensures
        match name {
            Some(found) => string_at(data@, start + offset, end as int) == Some(found@),
            None => string_at(data@, start + offset, end as int) is None,
        },
{
    object::read::StringTable::new(data, start, end).get(offset).ok()
}

/// Asks `core::str::from_utf8` whether `bytes` are a string.
///
/// Believed of it: it accepts exactly the well-formed UTF-8 sequences.
#[verifier::external_body]
pub(crate) fn is_utf8(bytes: &[u8]) -> (valid: bool)
    ensures
        valid == vstd::utf8::valid_utf8(bytes@),
{
    core::str::from_utf8(bytes).is_ok()
}

/// The parsed view of the image of a loaded module. Every address in it
/// counts from the module's base address, not from the start of a file.
#[derive(Clone, Debug, PartialEq, Eq)]
pub struct ElfLayout {
    pub header: FileHeader,
    pub program_headers: Vec<ProgramHeader>,
    /// The entries of the dynamic segment, in the order of the image.
    pub dynamic_entries: Vec<DynamicEntry>,
}

/// An [`ElfLayout`] as contracts speak of it.
pub struct Layout {
    pub header: FileHeader,
    pub program_headers: Seq<ProgramHeader>,
    pub dynamic_entries: Seq<DynamicEntry>,
}

impl View for ElfLayout {
    type V = Layout;

    open spec fn view(&self) -> Layout {
        Layout {
            header: self.header,
            program_headers: self.program_headers@,
            dynamic_entries: self.dynamic_entries@,
        }
    }
}

/// The span `[start, end)` of an image that holds the names of its dynamic
/// symbols, each terminated by a zero byte.
#[derive(Clone, Copy, Debug, PartialEq, Eq)]
pub struct StringTable {
    pub start: u64,
    pub end: u64,
}

/// The program header table of the image `bytes` with the file header
/// `header`: the headers that stand at the offset the file header gives.
///
/// A table at offset zero or of no entries is no table. A count that cannot
/// be read and a table that leaves the image are unreadable.
pub open spec fn program_headers_of(bytes: Seq<u8>, header: FileHeader) -> Result<
    Seq<ProgramHeader>,
    Failure,
> {
    if header.program_header_offset == 0 {
        Err(Failure::ElfHasNoProgramHeaders)
    } else {
        match header.program_header_count {
            None => Err(Failure::ProgramHeadersUnreadable),
            Some(count) => if count == 0 {
                Err(Failure::ElfHasNoProgramHeaders)
            } else if header.program_header_offset + count * PROGRAM_HEADER_SIZE > bytes.len() {
                Err(Failure::ProgramHeadersUnreadable)
            } else {
                Ok(
                    program_headers_at(
                        bytes,
                        header.program_header_offset as int,
                        count as nat,
                        header.big_endian,
                    ),
                )
            },
        }
    }
}

/// The first of `headers` at or after index `from` that marks the dynamic
/// segment.
pub open spec fn dynamic_header_from(headers: Seq<ProgramHeader>, from: int) -> Option<
    ProgramHeader,
>
    decreases headers.len() - from,
{
    if from < 0 || from >= headers.len() {
        None
    } else if headers[from].kind == PT_DYNAMIC {
        Some(headers[from])
    } else {
        dynamic_header_from(headers, from + 1)
    }
}

/// The first of `headers` that marks the dynamic segment.
pub open spec fn dynamic_header(headers: Seq<ProgramHeader>) -> Option<ProgramHeader> {
    dynamic_header_from(headers, 0)
}

/// The entries of the dynamic segment of `bytes`, given its program headers:
/// as many whole entries as the segment's size in memory holds, read at the
/// segment's address.
pub open spec fn dynamic_entries_of(
    bytes: Seq<u8>,
    big_endian: bool,
    headers: Seq<ProgramHeader>,
) -> Result<Seq<DynamicEntry>, Failure> {
    match dynamic_header(headers) {
        None => Err(Failure::ElfHasNoDynamicSegment),
        Some(segment) => {
            let count = segment.memory_size / DYNAMIC_ENTRY_SIZE;
            if segment.address + count * DYNAMIC_ENTRY_SIZE > bytes.len() {
                Err(Failure::DynamicSegmentUnreadable)
            } else {
                Ok(dynamic_entries_at(bytes, segment.address as int, count as nat, big_endian))
            }
        },
    }
}

/// What parsing the image `bytes` gives: its layout, or the first failure on
/// the way through header, program headers and dynamic segment.
pub open spec fn parsed(bytes: Seq<u8>) -> Result<Layout, Failure> {
    if !supported_header(bytes) {
        Err(Failure::ElfParseFailed)
    } else {
        let header = file_header_of(bytes);
        match program_headers_of(bytes, header) {
            Err(failure) => Err(failure),
            Ok(program_headers) => match dynamic_entries_of(
                bytes,
                header.big_endian,
                program_headers,
            ) {
                Err(failure) => Err(failure),
                Ok(dynamic_entries) => Ok(Layout { header, program_headers, dynamic_entries }),
            },
        }
    }
}

/// The value of the first of `entries` at or after index `from` whose tag is
/// `tag`.
pub open spec fn dynamic_value_from(entries: Seq<DynamicEntry>, tag: u64, from: int) -> Option<
    u64,
>
    decreases entries.len() - from,
{
    if from < 0 || from >= entries.len() {
        None
    } else if entries[from].tag == tag {
        Some(entries[from].value)
    } else {
        dynamic_value_from(entries, tag, from + 1)
    }
}

/// The value of the first of `entries` whose tag is `tag`.
pub open spec fn dynamic_value(entries: Seq<DynamicEntry>, tag: u64) -> Option<u64> {
    dynamic_value_from(entries, tag, 0)
}

/// The relocation table of the procedure linkage of the image `bytes` with
/// the dynamic entries `entries`: as many whole relocations as its byte size
/// holds, read at its address.
///
/// The entries for address, size and format are looked up in this order, and
/// the first that is missing is reported. A format other than explicit
/// addends, and a table that leaves the image, are unreadable.
pub open spec fn relocation_table_of(
    bytes: Seq<u8>,
    big_endian: bool,
    entries: Seq<DynamicEntry>,
) -> Result<Seq<Relocation>, Failure> {
    match dynamic_value(entries, DT_JMPREL) {
        None => Err(Failure::MissingDynamicEntry(DT_JMPREL)),
        Some(address) => match dynamic_value(entries, DT_PLTRELSZ) {
            None => Err(Failure::MissingDynamicEntry(DT_PLTRELSZ)),
            Some(size) => match dynamic_value(entries, DT_PLTREL) {
                None => Err(Failure::MissingDynamicEntry(DT_PLTREL)),
                Some(format) => {
                    let count = size / RELOCATION_SIZE;
                    if format != DT_RELA || address + count * RELOCATION_SIZE > bytes.len() {
                        Err(Failure::RelocationTableUnreadable)
                    } else {
                        Ok(relocations_at(bytes, address as int, count as nat, big_endian))
                    }
                },
            },
        },
    }
}

/// The string table of the image `bytes` with the dynamic entries `entries`.
/// The entries for address and size are looked up in this order.
pub open spec fn string_table_of(bytes: Seq<u8>, entries: Seq<DynamicEntry>) -> Result<
    StringTable,
    Failure,
> {
    match dynamic_value(entries, DT_STRTAB) {
        None => Err(Failure::MissingDynamicEntry(DT_STRTAB)),
        Some(start) => match dynamic_value(entries, DT_STRSZ) {
            None => Err(Failure::MissingDynamicEntry(DT_STRSZ)),
            Some(size) => if start + size > bytes.len() {
                Err(Failure::StringTableUnreadable)
            } else {
                Ok(StringTable { start, end: (start + size) as u64 })
            },
        },
    }
}

/// Reads the program header table of `image`, whose header is `header`.
pub fn program_headers(image: &[u8], header: &FileHeader) -> (table: Result<
    Vec<ProgramHeader>,
    Error,
>)
    ensures
        match table {
            Ok(headers) => program_headers_of(image@, *header) == Ok::<_, Failure>(headers@),
            Err(error) => program_headers_of(image@, *header) == Err::<Seq<ProgramHeader>, _>(
                error@,
            ),
        },
{
    if header.program_header_offset == 0 {
        return Err(Error::ElfHasNoProgramHeaders);
    }
    let count = match header.program_header_count {
        Some(count) => count,
        None => return Err(Error::ProgramHeadersUnreadable),
    };
    if count == 0 {
        return Err(Error::ElfHasNoProgramHeaders);
    }
    match read_program_headers(image, header.program_header_offset, count, header.big_endian) {
        Some(headers) => Ok(headers),
        None => Err(Error::ProgramHeadersUnreadable),
    }
}

/// Finds the program header that marks the dynamic segment and reads the
/// segment's entries from `image`.
pub fn dynamic_segment(image: &[u8], big_endian: bool, headers: &Vec<ProgramHeader>) -> (table:
    Result<Vec<DynamicEntry>, Error>)
    ensures
        match table {
            Ok(entries) => dynamic_entries_of(image@, big_endian, headers@) == Ok::<_, Failure>(
                entries@,
            ),
            Err(error) => dynamic_entries_of(image@, big_endian, headers@) == Err::<
                Seq<DynamicEntry>,
                _,
            >(error@),
        },
{
    let mut index: usize = 0;
    while index < headers.len() && headers[index].kind != PT_DYNAMIC
        invariant
            index <= headers@.len(),
            dynamic_header(headers@) == dynamic_header_from(headers@, index as int),
        decreases headers@.len() - index,
    {
        index += 1;
    }
    if index == headers.len() {
        return Err(Error::ElfHasNoDynamicSegment);
    }
    let segment = headers[index];
    let count = segment.memory_size / DYNAMIC_ENTRY_SIZE;
    let length: usize = image.len();
    if count > length as u64 {
        return Err(Error::DynamicSegmentUnreadable);
    }
    match read_dynamic_entries(image, segment.address, count as usize, big_endian) {
        Some(entries) => Ok(entries),
        None => Err(Error::DynamicSegmentUnreadable),
    }
}

impl ElfLayout {
    /// Parses the image of a loaded module: its header, its program headers
    /// and the entries of its dynamic segment.
    pub fn parse(image: &[u8]) -> (layout: Result<ElfLayout, Error>)
        ensures
            match layout {
                Ok(found) => parsed(image@) == Ok::<_, Failure>(found@),
                Err(error) => parsed(image@) == Err::<Layout, _>(error@),
            },
    {
        let header = match read_file_header(image) {
            Ok(header) => header,
            Err(HeaderFault::Unsupported) => return Err(Error::ElfParseFailed),
            Err(HeaderFault::ByteOrder) => return Err(Error::EndiannessUnresolved),
        };
        let program_headers = match program_headers(image, &header) {
            Ok(program_headers) => program_headers,
            Err(error) => return Err(error),
        };
        let dynamic_entries = match dynamic_segment(image, header.big_endian, &program_headers) {
            Ok(dynamic_entries) => dynamic_entries,
            Err(error) => return Err(error),
        };
        Ok(ElfLayout { header, program_headers, dynamic_entries })
    }

    /// Looks up the value of the first dynamic entry tagged `tag`.
    pub fn find_dynamic(&self, tag: u64) -> (value: Result<u64, Error>)
        ensures
            match value {
                Ok(found) => dynamic_value(self.dynamic_entries@, tag) == Some(found),
                Err(error) => dynamic_value(self.dynamic_entries@, tag) is None && error
                    == Error::MissingDynamicEntry(tag),
            },
    {
        let mut index: usize = 0;
        while index < self.dynamic_entries.len()
            invariant
                index <= self.dynamic_entries@.len(),
                dynamic_value(self.dynamic_entries@, tag) == dynamic_value_from(
                    self.dynamic_entries@,
                    tag,
                    index as int,
                ),
            decreases self.dynamic_entries@.len() - index,
        {
            if self.dynamic_entries[index].tag == tag {
                return Ok(self.dynamic_entries[index].value);
            }
            index += 1;
        }
        Err(Error::MissingDynamicEntry(tag))
    }

    /// Reads the relocation table of the procedure linkage from `image`.
    pub fn relocation_table(&self, image: &[u8]) -> (table: Result<Vec<Relocation>, Error>)
        ensures
            match table {
                Ok(relocations) => relocation_table_of(
                    image@,
                    self.header.big_endian,
                    self.dynamic_entries@,
                ) == Ok::<_, Failure>(relocations@),
                Err(error) => relocation_table_of(
                    image@,
                    self.header.big_endian,
                    self.dynamic_entries@,
                ) == Err::<Seq<Relocation>, _>(error@),
            },
    {
        let address = match self.find_dynamic(DT_JMPREL) {
            Ok(address) => address,
            Err(error) => return Err(error),
        };
        let size = match self.find_dynamic(DT_PLTRELSZ) {
            Ok(size) => size,
            Err(error) => return Err(error),
        };
        let format = match self.find_dynamic(DT_PLTREL) {
            Ok(format) => format,
            Err(error) => return Err(error),
        };
        let count = size / RELOCATION_SIZE;
        let length: usize = image.len();
        if format != DT_RELA || count > length as u64 {
            return Err(Error::RelocationTableUnreadable);
        }
        match read_relocations(image, address, count as usize, self.header.big_endian) {
            Some(relocations) => Ok(relocations),
            None => Err(Error::RelocationTableUnreadable),
        }
    }

    /// Finds the span of the string table and checks that it lies within
    /// `image`.
    pub fn string_table(&self, image: &[u8]) -> (table: Result<StringTable, Error>)
        ensures
            match table {
                Ok(found) => string_table_of(image@, self.dynamic_entries@) == Ok::<_, Failure>(
                    found,
                ),
                Err(error) => string_table_of(image@, self.dynamic_entries@) == Err::<
                    StringTable,
                    _,
                >(error@),
            },
    {
        let start = match self.find_dynamic(DT_STRTAB) {
            Ok(start) => start,
            Err(error) => return Err(error),
        };
        let size = match self.find_dynamic(DT_STRSZ) {
            Ok(size) => size,
            Err(error) => return Err(error),
        };
        let length: usize = image.len();
        match start.checked_add(size) {
            Some(end) => if end <= length as u64 {
                Ok(StringTable { start, end })
            } else {
                Err(Error::StringTableUnreadable)
            },
            None => Err(Error::StringTableUnreadable),
        }
    }
}

/// Parsing never fails for want of a byte order: an image whose
/// identification names neither of the two is no ELF image at all.
pub proof fn lemma_byte_order_is_known(bytes: Seq<u8>)
    ensures
        parsed(bytes) != Err::<Layout, Failure>(Failure::EndiannessUnresolved),
{
}

/// An image whose header counts no program headers has none, wherever it
/// says the table stands.
pub proof fn lemma_no_program_headers(bytes: Seq<u8>)
    requires
        supported_header(bytes),
        word16(bytes, 56, bytes[5] == 2) == 0,
    ensures
        parsed(bytes) == Err::<Layout, Failure>(Failure::ElfHasNoProgramHeaders),
{
}

/// An image whose program headers can be read and mark no dynamic segment
/// has none.
pub proof fn lemma_no_dynamic_segment(bytes: Seq<u8>, headers: Seq<ProgramHeader>)
    requires
        supported_header(bytes),
        program_headers_of(bytes, file_header_of(bytes)) == Ok::<Seq<ProgramHeader>, Failure>(
            headers,
        ),
        forall|index: int| 0 <= index < headers.len() ==> headers[index].kind != PT_DYNAMIC,
    ensures
        parsed(bytes) == Err::<Layout, Failure>(Failure::ElfHasNoDynamicSegment),
{
    lemma_dynamic_header_absent(headers, 0);
}

/// No dynamic segment is found among headers of which none marks one.
proof fn lemma_dynamic_header_absent(headers: Seq<ProgramHeader>, from: int)
    requires
        0 <= from,
        forall|index: int| from <= index < headers.len() ==> headers[index].kind != PT_DYNAMIC,
    ensures
        dynamic_header_from(headers, from) is None,
    decreases headers.len() - from,
{
    if from < headers.len() {
        lemma_dynamic_header_absent(headers, from + 1);
    }
}

/// The first dynamic entry with a tag decides its value: an entry with the
/// tag that no entry with the same tag precedes is the one that is found.
pub proof fn lemma_first_dynamic_entry_wins(entries: Seq<DynamicEntry>, tag: u64, index: int)
    requires
        0 <= index < entries.len(),
        entries[index].tag == tag,
        forall|earlier: int| 0 <= earlier < index ==> entries[earlier].tag != tag,
    ensures
        dynamic_value(entries, tag) == Some(entries[index].value),
{
    lemma_dynamic_value_skips(entries, tag, 0, index);
}

/// A lookup passes over entries with other tags.
proof fn lemma_dynamic_value_skips(entries: Seq<DynamicEntry>, tag: u64, from: int, to: int)
    requires
        0 <= from <= to < entries.len(),
        forall|between: int| from <= between < to ==> entries[between].tag != tag,
    ensures
        dynamic_value_from(entries, tag, from) == dynamic_value_from(entries, tag, to),
    decreases to - from,
{
    if from < to {
        lemma_dynamic_value_skips(entries, tag, from + 1, to);
    }
}

} // verus!
