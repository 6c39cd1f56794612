use crate::error::Error;
use vstd::prelude::*;

verus! {

/// How many consecutive mappings hold the image of one module: its header
/// and read-only data, its code, more read-only data, and its writable data.
pub const MODULE_MAPPINGS: usize = 4;

/// One entry of the list of memory mappings of a process: the addresses
/// `[start, end)`.
#[derive(Clone, Copy, Debug, PartialEq, Eq)]
pub struct Mapping {
    pub start: u64,
    pub end: u64,
}

/// One contiguous image of a module in the address space of the process:
/// the addresses `[start, end)`, of which `base_address` is the first.
#[derive(Clone, Copy, Debug, PartialEq, Eq)]
pub struct LoadedModule {
    pub base_address: u64,
    pub start: u64,
    pub end: u64,
}

impl LoadedModule {
    /// Whether the range starts at the base address and is not empty.
    pub open spec fn well_formed(self) -> bool {
        self.start == self.base_address && self.start < self.end
    }
}

/// The index of the first of `mappings` at or after index `from` that starts
/// at `base_address`, or the length of `mappings` where there is none.
pub open spec fn first_mapping_from(mappings: Seq<Mapping>, base_address: u64, from: int) -> int
    decreases mappings.len() - from,
{
    if from < 0 || from >= mappings.len() {
        mappings.len() as int
    } else if mappings[from].start == base_address {
        from
    } else {
        first_mapping_from(mappings, base_address, from + 1)
    }
}

/// The index of the first of `mappings` that starts at `base_address`, or
/// the length of `mappings` where there is none.
pub open spec fn first_mapping(mappings: Seq<Mapping>, base_address: u64) -> int {
    first_mapping_from(mappings, base_address, 0)
}

/// The module whose image starts at `base_address`, as `mappings` show it:
/// it spans the first mapping that starts there and the three that follow.
///
/// There is none where no mapping starts at `base_address`, where fewer than
/// three follow the first that does, or where the last of the four does not
/// end above `base_address`.
pub open spec fn module_in(mappings: Seq<Mapping>, base_address: u64) -> Option<LoadedModule> {
    let first = first_mapping(mappings, base_address);
    let last = first + MODULE_MAPPINGS - 1;
    if last < mappings.len() && base_address < mappings[last].end {
        Some(LoadedModule { base_address, start: base_address, end: mappings[last].end })
    } else {
        None
    }
}

/// Finds the memory range of the module whose image starts at
/// `base_address`, among the mappings of the process in their order.
pub fn locate_module_range(base_address: u64, mappings: &[Mapping]) -> (range: Result<
    (u64, u64),
    Error,
>)
    ensures
        match range {
            Ok((start, end)) => module_in(mappings@, base_address) == Some(
                LoadedModule { base_address, start, end },
            ),
            Err(error) => module_in(mappings@, base_address) is None && error
                == Error::ModuleRangeNotFound,
        },
{
    let mut first: usize = 0;
    while first < mappings.len() && mappings[first].start != base_address
        invariant
            first <= mappings@.len(),
            first_mapping(mappings@, base_address) == first_mapping_from(
                mappings@,
                base_address,
                first as int,
            ),
        decreases mappings@.len() - first,
    {
        first += 1;
    }
    if mappings.len() - first < MODULE_MAPPINGS {
        return Err(Error::ModuleRangeNotFound);
    }
    let end = mappings[first + (MODULE_MAPPINGS - 1)].end;
    if end <= base_address {
        return Err(Error::ModuleRangeNotFound);
    }
    Ok((base_address, end))
}

/// If `module_in` finds a module, its image starts at the base address and
/// is not empty, and a mapping starts at the base address.
pub proof fn lemma_module_in_well_formed(mappings: Seq<Mapping>, base_address: u64)
    requires
        module_in(mappings, base_address) is Some,
    ensures
        module_in(mappings, base_address)->0.well_formed(),
        module_in(mappings, base_address)->0.base_address == base_address,
{
}

} // verus!
