use crate::bytes::{same_bytes, string_at};
use crate::elf::{
    dynamic_value, is_utf8, read_string, read_symbol, relocation_table_of, string_table_of,
    symbol_at, Architecture, ElfLayout, Layout, Relocation, StringTable, DT_SYMTAB, SYMBOL_SIZE,
};
use crate::error::{Error, Failure};
use crate::maps::LoadedModule;
use vstd::prelude::*;
use vstd::utf8::{encode_utf8, valid_utf8};

verus! {

/// What one relocation means to a search.
pub enum Verdict {
    /// It does not belong to the function: the search goes on.
    Skip,
    /// It belongs to the function, whose slot lies at the address held here.
    Slot(u64),
    /// It cannot be examined: the search ends with this failure.
    Fail(Failure),
}

/// A search for the slot of a named function in the image of a module.
pub struct Search {
    /// The bytes of the image.
    pub image: Seq<u8>,
    /// The byte order of the image.
    pub big_endian: bool,
    /// The relocation type that marks jump slots.
    pub jump_slot: u32,
    /// Where the dynamic symbol table starts, from the start of the image.
    pub symbol_table: u64,
    /// The span of the string table.
    pub strings: StringTable,
    /// The address at which the image is loaded.
    pub base_address: u64,
    /// The name of the function.
    pub name: Seq<char>,
}

impl Search {
    /// Where the symbol that `relocation` names stands in the image.
    pub open spec fn symbol_offset(self, relocation: Relocation) -> int {
        self.symbol_table + relocation.symbol_index * SYMBOL_SIZE
    }

    /// The name of the symbol that `relocation` names, which must lie within
    /// the image.
    pub open spec fn symbol_name(self, relocation: Relocation) -> Option<Seq<u8>> {
        string_at(
            self.image,
            self.strings.start + symbol_at(
                self.image,
                self.symbol_offset(relocation),
                self.big_endian,
            ).name_offset,
            self.strings.end as int,
        )
    }

    /// What `relocation` means to the search.
    ///
    /// A relocation of another type than jump slot is skipped. The symbol of
    /// a jump slot must lie within the image, and its name must be terminated
    /// within the string table and be valid UTF-8. A name that differs by a
    /// byte from the function's is skipped. The slot of the function lies at
    /// the relocation's offset from the base address; the table is unusable
    /// where that sum is no address.
    pub open spec fn examine(self, relocation: Relocation) -> Verdict {
        if relocation.kind != self.jump_slot {
            Verdict::Skip
        } else if self.symbol_offset(relocation) + SYMBOL_SIZE > self.image.len() {
            Verdict::Fail(Failure::SymbolUnreadable)
        } else {
            match self.symbol_name(relocation) {
                None => Verdict::Fail(Failure::SymbolNameInvalid),
                Some(name) => if !valid_utf8(name) {
                    Verdict::Fail(Failure::SymbolNameInvalid)
                } else if name != encode_utf8(self.name) {
                    Verdict::Skip
                } else if self.base_address + relocation.offset > u64::MAX {
                    Verdict::Fail(Failure::RelocationTableUnreadable)
                } else {
                    Verdict::Slot((self.base_address + relocation.offset) as u64)
                },
            }
        }
    }

    /// Whether `relocation` is a jump slot of the function: its symbol can be
    /// read and bears the function's name.
    pub open spec fn matches(self, relocation: Relocation) -> bool {
        &&& relocation.kind == self.jump_slot
        &&& self.symbol_offset(relocation) + SYMBOL_SIZE <= self.image.len()
        &&& self.symbol_name(relocation) == Some(encode_utf8(self.name))
    }

    /// The result of examining `relocations` in their order from index `from`
    /// on: the slot of the first that belongs to the function, the failure of
    /// the first that cannot be examined, or that no function of this name
    /// was found.
    pub open spec fn scan(self, relocations: Seq<Relocation>, from: int) -> Result<u64, Failure>
        decreases relocations.len() - from,
    {
        if from < 0 || from >= relocations.len() {
            Err(Failure::FunctionNotFound(self.name))
        } else {
            match self.examine(relocations[from]) {
                Verdict::Skip => self.scan(relocations, from + 1),
                Verdict::Slot(address) => Ok(address),
                Verdict::Fail(failure) => Err(failure),
            }
        }
    }
}

/// The address of the slot through which the module loaded at `base_address`
/// with the image `bytes` and the layout `layout` calls the function `name`.
///
/// The relocation table, the string table and the address of the symbol
/// table are taken from the dynamic entries, in this order; then the
/// relocations are scanned in the order of the table.
pub open spec fn got_entry_of(
    bytes: Seq<u8>,
    base_address: u64,
    layout: Layout,
    jump_slot: u32,
    name: Seq<char>,
) -> Result<u64, Failure> {
    match relocation_table_of(bytes, layout.header.big_endian, layout.dynamic_entries) {
        Err(failure) => Err(failure),
        Ok(relocations) => match string_table_of(bytes, layout.dynamic_entries) {
            Err(failure) => Err(failure),
            Ok(strings) => match dynamic_value(layout.dynamic_entries, DT_SYMTAB) {
                None => Err(Failure::MissingDynamicEntry(DT_SYMTAB)),
                Some(symbol_table) => Search {
                    image: bytes,
                    big_endian: layout.header.big_endian,
                    jump_slot,
                    symbol_table,
                    strings,
                    base_address,
                    name,
                }.scan(relocations, 0),
            },
        },
    }
}

/// Finds the address of the slot of the global offset table through which
/// `module` calls the imported function `function_name`.
///
/// The relocations of the procedure linkage are examined in the order in
/// which the linker emitted them, and the first jump slot whose symbol bears
/// exactly this name wins.
pub fn find_got_entry(
    module: &LoadedModule,
    layout: &ElfLayout,
    image: &[u8],
    function_name: &str,
    architecture: Architecture,
) -> (entry: Result<u64, Error>)
    ensures
        match entry {
            Ok(address) => got_entry_of(
                image@,
                module.base_address,
                layout@,
                architecture.jump_slot_kind(),
                function_name@,
            ) == Ok::<_, Failure>(address),
            Err(error) => got_entry_of(
                image@,
                module.base_address,
                layout@,
                architecture.jump_slot_kind(),
                function_name@,
            ) == Err::<u64, _>(error@),
        },
{
    let relocations = match layout.relocation_table(image) {
        Ok(relocations) => relocations,
        Err(error) => return Err(error),
    };
    let strings = match layout.string_table(image) {
        Ok(strings) => strings,
        Err(error) => return Err(error),
    };
    let symbol_table = match layout.find_dynamic(DT_SYMTAB) {
        Ok(symbol_table) => symbol_table,
        Err(error) => return Err(error),
    };
    let big_endian = layout.header.big_endian;
    let jump_slot = architecture.jump_slot();
    let wanted = function_name.as_bytes();
    let ghost search = Search {
        image: image@,
        big_endian,
        jump_slot,
        symbol_table,
        strings,
        base_address: module.base_address,
        name: function_name@,
    };
    let mut index: usize = 0;
    while index < relocations.len()
        invariant
            index <= relocations@.len(),
            got_entry_of(
                image@,
                module.base_address,
                layout@,
                architecture.jump_slot_kind(),
                function_name@,
            ) == search.scan(relocations@, 0),
            search.scan(relocations@, 0) == search.scan(relocations@, index as int),
            search.image == image@,
            search.big_endian == big_endian,
            search.jump_slot == jump_slot,
            search.symbol_table == symbol_table,
            search.strings == strings,
            search.base_address == module.base_address,
            search.name == function_name@,
            wanted@ == encode_utf8(function_name@),
        decreases relocations@.len() - index,
    {
        let relocation = relocations[index];
        if relocation.kind == jump_slot {
            let offset = match symbol_table.checked_add(
                relocation.symbol_index as u64 * SYMBOL_SIZE,
            ) {
                Some(offset) => offset,
                None => {
                    // No offset beyond the range of addresses lies within
                    // the image.
                    assert(image@.len() == image.len());
                    return Err(Error::SymbolUnreadable);
                },
            };
            let symbol = match read_symbol(image, offset, big_endian) {
                Some(symbol) => symbol,
                None => return Err(Error::SymbolUnreadable),
            };
            let name = match read_string(image, strings.start, strings.end, symbol.name_offset) {
                Some(name) => name,
                None => return Err(Error::SymbolNameInvalid),
            };
            if !is_utf8(name) {
                return Err(Error::SymbolNameInvalid);
            }
            if same_bytes(name, wanted) {
                return match module.base_address.checked_add(relocation.offset) {
                    Some(address) => Ok(address),
                    None => Err(Error::RelocationTableUnreadable),
                };
            }
        }
        index += 1;
    }
    Err(Error::FunctionNotFound(function_name.to_owned()))
}

/// The first matching relocation wins. Where the relocation at `index` is a
/// jump slot of the function, no earlier one is, every earlier one can be
/// examined, and its offset from the base address is an address, the scan
/// gives that address.
pub proof fn lemma_first_match_wins(search: Search, relocations: Seq<Relocation>, index: int)
    requires
        0 <= index < relocations.len(),
        search.matches(relocations[index]),
        search.base_address + relocations[index].offset <= u64::MAX,
        forall|earlier: int|
            0 <= earlier < index ==> !search.matches(#[trigger] relocations[earlier]) && !(
            search.examine(relocations[earlier]) is Fail),
    ensures
        search.scan(relocations, 0) == Ok::<u64, Failure>(
            (search.base_address + relocations[index].offset) as u64,
        ),
{
    vstd::utf8::encode_utf8_valid_utf8(search.name);
    lemma_scan_skips(search, relocations, 0, index);
}

/// A scan passes over relocations that are skipped.
proof fn lemma_scan_skips(search: Search, relocations: Seq<Relocation>, from: int, to: int)
    requires
        0 <= from <= to < relocations.len(),
        forall|between: int|
            from <= between < to ==> search.examine(#[trigger] relocations[between]) is Skip,
    ensures
        search.scan(relocations, from) == search.scan(relocations, to),
    decreases to - from,
{
    if from < to {
        lemma_scan_skips(search, relocations, from + 1, to);
    }
}

} // verus!
