use vstd::prelude::*;

verus! {

/// Why an operation of the engine stopped.
///
/// Every failure ends the operation at once. Nothing is retried, because
/// neither the binary layout nor the process mappings change within one call.
#[derive(Debug, Clone, PartialEq, Eq)]
pub enum Error {
    /// No loaded module contains the probed address, held here.
    SymbolResolutionFailed(u64),
    /// The mappings of the process could not be read.
    ProcessIntrospectionFailed,
    /// No run of four mappings starts at the module's base address.
    ModuleRangeNotFound,
    /// The image does not start with a 64-bit ELF header.
    ElfParseFailed,
    /// The header names no byte order.
    EndiannessUnresolved,
    /// The header gives no program header table.
    ElfHasNoProgramHeaders,
    /// The program header table does not lie within the image.
    ProgramHeadersUnreadable,
    /// No program header marks a dynamic segment.
    ElfHasNoDynamicSegment,
    /// The dynamic segment does not lie within the image.
    DynamicSegmentUnreadable,
    /// The dynamic segment has no entry with the tag held here.
    MissingDynamicEntry(u64),
    /// The relocation table of the procedure linkage cannot be used.
    RelocationTableUnreadable,
    /// The string table does not lie within the image.
    StringTableUnreadable,
    /// A relocation names a symbol that does not lie within the image.
    SymbolUnreadable,
    /// A symbol's name is not terminated or is not valid UTF-8.
    SymbolNameInvalid,
    /// No jump-slot relocation belongs to the function named here.
    FunctionNotFound(String),
    /// The page at the address held here could not be made writable; the
    /// first field is the code that the operating system gave.
    ProtectionChangeFailed(i32, u64),
}

/// An [`Error`] as contracts speak of it: the same cases, with the name of a
/// missing function as a sequence of characters.
pub enum Failure {
    SymbolResolutionFailed(u64),
    ProcessIntrospectionFailed,
    ModuleRangeNotFound,
    ElfParseFailed,
    EndiannessUnresolved,
    ElfHasNoProgramHeaders,
    ProgramHeadersUnreadable,
    ElfHasNoDynamicSegment,
    DynamicSegmentUnreadable,
    MissingDynamicEntry(u64),
    RelocationTableUnreadable,
    StringTableUnreadable,
    SymbolUnreadable,
    SymbolNameInvalid,
    FunctionNotFound(Seq<char>),
    ProtectionChangeFailed(i32, u64),
}

impl View for Error {
    type V = Failure;

    open spec fn view(&self) -> Failure {
        match *self {
            Error::SymbolResolutionFailed(address) => Failure::SymbolResolutionFailed(address),
            Error::ProcessIntrospectionFailed => Failure::ProcessIntrospectionFailed,
            Error::ModuleRangeNotFound => Failure::ModuleRangeNotFound,
            Error::ElfParseFailed => Failure::ElfParseFailed,
            Error::EndiannessUnresolved => Failure::EndiannessUnresolved,
            Error::ElfHasNoProgramHeaders => Failure::ElfHasNoProgramHeaders,
            Error::ProgramHeadersUnreadable => Failure::ProgramHeadersUnreadable,
            Error::ElfHasNoDynamicSegment => Failure::ElfHasNoDynamicSegment,
            Error::DynamicSegmentUnreadable => Failure::DynamicSegmentUnreadable,
            Error::MissingDynamicEntry(tag) => Failure::MissingDynamicEntry(tag),
            Error::RelocationTableUnreadable => Failure::RelocationTableUnreadable,
            Error::StringTableUnreadable => Failure::StringTableUnreadable,
            Error::SymbolUnreadable => Failure::SymbolUnreadable,
            Error::SymbolNameInvalid => Failure::SymbolNameInvalid,
            Error::FunctionNotFound(name) => Failure::FunctionNotFound(name@),
            Error::ProtectionChangeFailed(code, page) => Failure::ProtectionChangeFailed(
                code,
                page,
            ),
        }
    }
}

} // verus!
