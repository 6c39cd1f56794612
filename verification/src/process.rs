use crate::maps::Mapping;
use vstd::prelude::*;

verus! {

/// What the engine asks the embedding program to do to the live process.
#[derive(Clone, Copy, Debug, PartialEq, Eq)]
pub enum Request {
    /// Look up the module that contains `address` and answer with its base
    /// address.
    ResolveModule { address: u64 },
    /// Answer with the memory mappings of the process, in their order.
    ListMappings,
    /// Answer with the bytes at the addresses `[start, end)`.
    ViewMemory { start: u64, end: u64 },
    /// Answer with the pointer-sized value stored at `address`.
    ReadPointer { address: u64 },
    /// Let the `length` bytes from `page` on be read and written, and answer
    /// with the outcome.
    Protect { page: u64, length: u64 },
    /// Store the pointer-sized `value` at `address`.
    WritePointer { address: u64, value: u64 },
}

/// The outcome of a request to change the protection of a page.
#[derive(Clone, Copy, Debug, PartialEq, Eq)]
pub enum Protection {
    Granted,
    /// The operating system refused, with the code held here.
    Denied(i32),
}

/// What the embedding program answers to a [`Request`].
#[derive(Clone, Debug, PartialEq, Eq)]
pub enum Response<'a> {
    /// The base address of the module, or nothing where no module contains
    /// the address.
    Module(Option<u64>),
    /// The mappings, or nothing where they cannot be read.
    Mappings(Option<Vec<Mapping>>),
    /// The bytes of the range. The engine reads of them only what it parses,
    /// so that a view of the memory itself can be handed over.
    Memory(&'a [u8]),
    Pointer(u64),
    Protected(Protection),
    Written,
}

/// A [`Response`] as contracts speak of it.
pub enum Reply {
    Module(Option<u64>),
    Mappings(Option<Seq<Mapping>>),
    Memory(Seq<u8>),
    Pointer(u64),
    Protected(Protection),
    Written,
}

impl<'a> View for Response<'a> {
    type V = Reply;

    open spec fn view(&self) -> Reply {
        match *self {
            Response::Module(base_address) => Reply::Module(base_address),
            Response::Mappings(Some(mappings)) => Reply::Mappings(Some(mappings@)),
            Response::Mappings(None) => Reply::Mappings(None),
            Response::Memory(bytes) => Reply::Memory(bytes@),
            Response::Pointer(value) => Reply::Pointer(value),
            Response::Protected(protection) => Reply::Protected(protection),
            Response::Written => Reply::Written,
        }
    }
}

/// The pointer-sized cells of the memory of a process, by their addresses.
/// Cells at different addresses are taken not to overlap.
pub type Cells = Map<u64, u64>;

/// The cells after `request` has been carried out on `cells`. Only a write
/// changes them.
pub open spec fn carried_out(request: Request, cells: Cells) -> Cells {
    match request {
        Request::WritePointer { address, value } => cells.insert(address, value),
        _ => cells,
    }
}

/// A process as the requests of the engine see it.
pub struct Process {
    /// The base address of the module that contains an address. An address
    /// outside every module is no key.
    pub modules: Map<u64, u64>,
    /// The memory mappings in their order, or nothing where they cannot be
    /// read.
    pub mappings: Option<Seq<Mapping>>,
    /// The bytes at the addresses `[start, end)`.
    pub bytes: spec_fn(u64, u64) -> Seq<u8>,
    /// The pointer-sized values in memory.
    pub cells: Cells,
    /// The pages whose protection cannot be changed, each with the code that
    /// the operating system gives.
    pub locked: Map<u64, i32>,
}

impl Process {
    /// What the process answers to `request`.
    pub open spec fn reply(self, request: Request) -> Reply {
        match request {
            Request::ResolveModule { address } => Reply::Module(
                if self.modules.dom().contains(address) {
                    Some(self.modules[address])
                } else {
                    None
                },
            ),
            Request::ListMappings => Reply::Mappings(self.mappings),
            Request::ViewMemory { start, end } => Reply::Memory((self.bytes)(start, end)),
            Request::ReadPointer { address } => Reply::Pointer(self.cells[address]),
            Request::Protect { page, length } => Reply::Protected(
                if self.locked.dom().contains(page) {
                    Protection::Denied(self.locked[page])
                } else {
                    Protection::Granted
                },
            ),
            Request::WritePointer { address, value } => Reply::Written,
        }
    }

    /// The process after `request` has been carried out.
    pub open spec fn after(self, request: Request) -> Process {
        Process { cells: carried_out(request, self.cells), ..self }
    }
}

} // verus!
