use crate::elf::{parsed, Architecture, ElfLayout};
use crate::error::{Error, Failure};
use crate::got::{find_got_entry, got_entry_of};
use crate::maps::{locate_module_range, module_in, LoadedModule};
use crate::patch::{page_address, page_of, PAGE_SIZE};
use crate::process::{carried_out, Cells, Process, Protection, Reply, Request, Response};
use vstd::prelude::*;

verus! {

/// A hook as contracts speak of it.
pub struct Handle {
    /// The address of the patched slot.
    pub entry_address: u64,
    /// The value that the slot held immediately before it was patched.
    pub original_value: u64,
    /// Whether the hook has been released.
    pub released: bool,
}

impl Handle {
    /// The request to let the page of the slot be written.
    pub open spec fn unlocking(self) -> Request {
        Request::Protect { page: page_of(self.entry_address), length: PAGE_SIZE }
    }

    /// The write that puts the original value back into the slot.
    pub open spec fn restoring(self) -> Request {
        Request::WritePointer { address: self.entry_address, value: self.original_value }
    }

    /// What a release gives when the page of the slot has been asked to be
    /// writable with the outcome `protection`: the restoring write, nothing
    /// for a hook that was released before, or the refusal.
    pub open spec fn release(self, protection: Protection) -> Result<Option<Request>, Failure> {
        if self.released {
            Ok(None)
        } else {
            match protection {
                Protection::Granted => Ok(Some(self.restoring())),
                Protection::Denied(code) => Err(
                    Failure::ProtectionChangeFailed(code, page_of(self.entry_address)),
                ),
            }
        }
    }

    /// The hook after such a release: released, unless the release failed.
    pub open spec fn after_release(self, protection: Protection) -> Handle {
        Handle { released: self.released || protection is Granted, ..self }
    }
}

/// An installed hook: the patched slot and what it held before. A hook is
/// released once and is of no use afterwards.
///
/// No two hooks may hold the same slot at the same time. The engine does not
/// guard against it: the one released last would put the other's replacement
/// back.
#[derive(Debug)]
pub struct GotHook {
    entry_address: u64,
    original_value: u64,
    released: bool,
}

impl View for GotHook {
    type V = Handle;

    closed spec fn view(&self) -> Handle {
        Handle {
            entry_address: self.entry_address,
            original_value: self.original_value,
            released: self.released,
        }
    }
}

impl GotHook {
    /// Begins the installation of a hook on the imported function
    /// `function_name`, in the module that contains `callback`, the address
    /// of the replacement. The hook itself is there when the installation
    /// has been driven to its end.
    pub fn new(function_name: &str, callback: u64, architecture: Architecture) -> (installer:
        Installer)
        ensures
            installer@ == Installation::begin(function_name@, callback, architecture),
    {
        Installer {
            function_name: function_name.to_owned(),
            callback,
            architecture,
            stage: Stage::Resolving,
        }
    }

    /// The address of the patched slot.
    pub fn entry_address(&self) -> (address: u64)
        ensures
            address == self@.entry_address,
    {
        self.entry_address
    }

    /// The value that the slot held immediately before it was patched: the
    /// address of the original function, which the caller has to call with
    /// the function's real signature.
    pub fn get_original_function(&self) -> (address: u64)
        ensures
            address == self@.original_value,
    {
        self.original_value
    }

    /// Whether the hook has been released.
    pub fn is_released(&self) -> (released: bool)
        ensures
            released == self@.released,
    {
        self.released
    }

    /// The request that has to be carried out before a release: to let the
    /// page of the slot be written. A released hook needs none.
    pub fn unlock(&self) -> (request: Option<Request>)
        ensures
            request == if self@.released {
                None
            } else {
                Some(self@.unlocking())
            },
    {
        if self.released {
            None
        } else {
            Some(Request::Protect { page: page_address(self.entry_address), length: PAGE_SIZE })
        }
    }

    /// Releases the hook, given the outcome of the request of [`unlock`]
    /// (`GotHook::unlock`). Where the page may be written, the hook becomes
    /// released and hands out the write that restores the slot. Where it may
    /// not, the hook stays installed and the refusal is reported. A second
    /// release does nothing.
    pub fn release(&mut self, protection: Protection) -> (write: Result<Option<Request>, Error>)
        ensures
            final(self)@ == old(self)@.after_release(protection),
            match write {
                Ok(request) => old(self)@.release(protection) == Ok::<_, Failure>(request),
                Err(error) => old(self)@.release(protection) == Err::<Option<Request>, _>(
                    error@,
                ),
            },
    {
        if self.released {
            return Ok(None);
        }
        match protection {
            Protection::Granted => {
                self.released = true;
                Ok(
                    Some(
                        Request::WritePointer {
                            address: self.entry_address,
                            value: self.original_value,
                        },
                    ),
                )
            },
            Protection::Denied(code) => Err(
                Error::ProtectionChangeFailed(code, page_address(self.entry_address)),
            ),
        }
    }
}

/// How far an installation has come.
#[derive(Clone, Copy, Debug, PartialEq, Eq)]
pub enum Stage {
    /// The module that contains the replacement is being looked up.
    Resolving,
    /// The module's range is being looked up among the mappings.
    Locating { base_address: u64 },
    /// The module's image is being searched for the slot.
    Searching { module: LoadedModule },
    /// The slot is being read.
    Reading { entry_address: u64 },
    /// The page of the slot is being made writable.
    Unlocking { entry_address: u64, original_value: u64 },
    /// The replacement is being written into the slot.
    Writing { entry_address: u64, original_value: u64 },
}

/// An installation as contracts speak of it.
pub struct Installation {
    pub function_name: Seq<char>,
    pub callback: u64,
    pub architecture: Architecture,
    pub stage: Stage,
}

/// The result of one step of an installation, as contracts speak of it.
pub enum Outcome {
    Pending(Installation),
    Installed(Handle),
    Failed(Failure),
}

/// The address of the slot through which the module with the image `bytes`,
/// loaded at `base_address`, calls the function `name`: the image is parsed
/// and its relocations are searched.
pub open spec fn slot_of(bytes: Seq<u8>, base_address: u64, jump_slot: u32, name: Seq<char>)
    -> Result<u64, Failure> {
    match parsed(bytes) {
        Err(failure) => Err(failure),
        Ok(layout) => got_entry_of(bytes, base_address, layout, jump_slot, name),
    }
}

impl Installation {
    /// The first state of the installation of a hook on `function_name` with
    /// the replacement at `callback`.
    pub open spec fn begin(function_name: Seq<char>, callback: u64, architecture: Architecture)
        -> Installation {
        Installation { function_name, callback, architecture, stage: Stage::Resolving }
    }

    /// The installation at another stage.
    pub open spec fn at(self, stage: Stage) -> Installation {
        Installation { stage, ..self }
    }

    /// What the installation waits for.
    pub open spec fn request(self) -> Request {
        match self.stage {
            Stage::Resolving => Request::ResolveModule { address: self.callback },
            Stage::Locating { base_address } => Request::ListMappings,
            Stage::Searching { module } => Request::ViewMemory {
                start: module.start,
                end: module.end,
            },
            Stage::Reading { entry_address } => Request::ReadPointer { address: entry_address },
            Stage::Unlocking { entry_address, original_value } => Request::Protect {
                page: page_of(entry_address),
                length: PAGE_SIZE,
            },
            Stage::Writing { entry_address, original_value } => Request::WritePointer {
                address: entry_address,
                value: self.callback,
            },
        }
    }

    /// The step that the answer `reply` lets the installation take. An
    /// answer to another request than the one it waits for leaves it where
    /// it is.
    pub open spec fn advance(self, reply: Reply) -> Outcome {
        match (self.stage, reply) {
            (Stage::Resolving, Reply::Module(Some(base_address))) => Outcome::Pending(
                self.at(Stage::Locating { base_address }),
            ),
            (Stage::Resolving, Reply::Module(None)) => Outcome::Failed(
                Failure::SymbolResolutionFailed(self.callback),
            ),
            (Stage::Locating { base_address }, Reply::Mappings(Some(mappings))) => match module_in(
                mappings,
                base_address,
            ) {
                Some(module) => Outcome::Pending(self.at(Stage::Searching { module })),
                None => Outcome::Failed(Failure::ModuleRangeNotFound),
            },
            (Stage::Locating { base_address }, Reply::Mappings(None)) => Outcome::Failed(
                Failure::ProcessIntrospectionFailed,
            ),
            (Stage::Searching { module }, Reply::Memory(bytes)) => match slot_of(
                bytes,
                module.base_address,
                self.architecture.jump_slot_kind(),
                self.function_name,
            ) {
                Ok(entry_address) => Outcome::Pending(self.at(Stage::Reading { entry_address })),
                Err(failure) => Outcome::Failed(failure),
            },
            (Stage::Reading { entry_address }, Reply::Pointer(original_value)) => Outcome::Pending(
                self.at(Stage::Unlocking { entry_address, original_value }),
            ),
            (
                Stage::Unlocking { entry_address, original_value },
                Reply::Protected(Protection::Granted),
            ) => Outcome::Pending(self.at(Stage::Writing { entry_address, original_value })),
            (
                Stage::Unlocking { entry_address, original_value },
                Reply::Protected(Protection::Denied(code)),
            ) => Outcome::Failed(Failure::ProtectionChangeFailed(code, page_of(entry_address))),
            (Stage::Writing { entry_address, original_value }, Reply::Written) => Outcome::Installed(
                Handle { entry_address, original_value, released: false },
            ),
            _ => Outcome::Pending(self),
        }
    }
}

/// The installation of a hook, which the embedding program drives: it
/// carries out the request that the installer waits for, hands the answer
/// to [`Installer::advance`], and goes on with the installer that comes
/// back, until the hook is installed or the installation has failed.
///
/// The slot and its page belong to the whole process. The engine holds no
/// lock on them: whoever installs and releases hooks on one function, or on
/// slots of one page, has to do so one at a time, and has to see that no
/// call through the slot is in flight when a hook is released.
#[derive(Debug)]
pub struct Installer {
    function_name: String,
    callback: u64,
    architecture: Architecture,
    stage: Stage,
}

impl View for Installer {
    type V = Installation;

    closed spec fn view(&self) -> Installation {
        Installation {
            function_name: self.function_name@,
            callback: self.callback,
            architecture: self.architecture,
            stage: self.stage,
        }
    }
}

/// The result of one step of an installation.
#[derive(Debug)]
pub enum Progress {
    /// The installation goes on with this installer.
    Pending(Installer),
    /// The slot holds the replacement.
    Installed(GotHook),
    /// The installation has ended without a hook.
    Failed(Error),
}

impl View for Progress {
    type V = Outcome;

    open spec fn view(&self) -> Outcome {
        match self {
            Progress::Pending(installer) => Outcome::Pending(installer@),
            Progress::Installed(hook) => Outcome::Installed(hook@),
            Progress::Failed(error) => Outcome::Failed(error@),
        }
    }
}

impl Installer {
    /// How far the installation has come.
    pub fn stage(&self) -> (stage: Stage)
        ensures
            stage == self@.stage,
    {
        self.stage
    }

    /// The request that the installer waits for an answer to.
    pub fn request(&self) -> (request: Request)
        ensures
            request == self@.request(),
    {
        match self.stage {
            Stage::Resolving => Request::ResolveModule { address: self.callback },
            Stage::Locating { base_address } => Request::ListMappings,
            Stage::Searching { module } => Request::ViewMemory {
                start: module.start,
                end: module.end,
            },
            Stage::Reading { entry_address } => Request::ReadPointer { address: entry_address },
            Stage::Unlocking { entry_address, original_value } => Request::Protect {
                page: page_address(entry_address),
                length: PAGE_SIZE,
            },
            Stage::Writing { entry_address, original_value } => Request::WritePointer {
                address: entry_address,
                value: self.callback,
            },
        }
    }

    /// Takes the step that the answer to the pending request allows.
    pub fn advance(self, response: Response<'_>) -> (progress: Progress)
        ensures
            progress@ == self@.advance(response@),
    {
        let Installer { function_name, callback, architecture, stage } = self;
        match (stage, response) {
            (Stage::Resolving, Response::Module(Some(base_address))) => Progress::Pending(
                Installer {
                    function_name,
                    callback,
                    architecture,
                    stage: Stage::Locating { base_address },
                },
            ),
            (Stage::Resolving, Response::Module(None)) => Progress::Failed(
                Error::SymbolResolutionFailed(callback),
            ),
            (
                Stage::Locating { base_address },
                Response::Mappings(Some(mappings)),
            ) => match locate_module_range(base_address, mappings.as_slice()) {
                Ok((start, end)) => Progress::Pending(
                    Installer {
                        function_name,
                        callback,
                        architecture,
                        stage: Stage::Searching {
                            module: LoadedModule { base_address, start, end },
                        },
                    },
                ),
                Err(error) => Progress::Failed(error),
            },
            (Stage::Locating { base_address }, Response::Mappings(None)) => Progress::Failed(
                Error::ProcessIntrospectionFailed,
            ),
            (Stage::Searching { module }, Response::Memory(bytes)) => {
                match find_slot(&module, bytes, function_name.as_str(), architecture) {
                    Ok(entry_address) => Progress::Pending(
                        Installer {
                            function_name,
                            callback,
                            architecture,
                            stage: Stage::Reading { entry_address },
                        },
                    ),
                    Err(error) => Progress::Failed(error),
                }
            },
            (Stage::Reading { entry_address }, Response::Pointer(original_value)) => {
                Progress::Pending(
                    Installer {
                        function_name,
                        callback,
                        architecture,
                        stage: Stage::Unlocking { entry_address, original_value },
                    },
                )
            },
            (
                Stage::Unlocking { entry_address, original_value },
                Response::Protected(Protection::Granted),
            ) => Progress::Pending(
                Installer {
                    function_name,
                    callback,
                    architecture,
                    stage: Stage::Writing { entry_address, original_value },
                },
            ),
            (
                Stage::Unlocking { entry_address, original_value },
                Response::Protected(Protection::Denied(code)),
            ) => Progress::Failed(
                Error::ProtectionChangeFailed(code, page_address(entry_address)),
            ),
            (Stage::Writing { entry_address, original_value }, Response::Written) => {
                Progress::Installed(GotHook { entry_address, original_value, released: false })
            },
            (stage, _) => Progress::Pending(
                Installer { function_name, callback, architecture, stage },
            ),
        }
    }
}

/// Parses the image of `module` and finds in it the slot through which the
/// module calls `function_name`.
pub fn find_slot(
    module: &LoadedModule,
    image: &[u8],
    function_name: &str,
    architecture: Architecture,
) -> (entry: Result<u64, Error>)
    ensures
        match entry {
            Ok(address) => slot_of(
                image@,
                module.base_address,
                architecture.jump_slot_kind(),
                function_name@,
            ) == Ok::<_, Failure>(address),
            Err(error) => slot_of(
                image@,
                module.base_address,
                architecture.jump_slot_kind(),
                function_name@,
            ) == Err::<u64, _>(error@),
        },
{
    let layout = match ElfLayout::parse(image) {
        Ok(layout) => layout,
        Err(error) => return Err(error),
    };
    find_got_entry(module, &layout, image, function_name, architecture)
}

/// The number of requests that a successful installation makes.
pub const INSTALL_STEPS: usize = 6;

impl Installation {
    /// Where the installation stands when `process` has answered up to
    /// `steps` of its requests, and the process as those requests leave it.
    /// Each request is carried out on the process, which then answers it.
    pub open spec fn driven(self, process: Process, steps: nat) -> (Outcome, Process)
        decreases steps,
    {
        if steps == 0 {
            (Outcome::Pending(self), process)
        } else {
            let request = self.request();
            match self.advance(process.reply(request)) {
                Outcome::Pending(next) => next.driven(process.after(request), (steps - 1) as nat),
                ended => (ended, process.after(request)),
            }
        }
    }
}

/// The outcome of installing a hook on the function `name` with the
/// replacement at `callback` in `process`, and the process afterwards.
pub open spec fn install(
    process: Process,
    name: Seq<char>,
    callback: u64,
    architecture: Architecture,
) -> (Outcome, Process) {
    Installation::begin(name, callback, architecture).driven(process, INSTALL_STEPS as nat)
}

/// An installation ends within six requests, with a hook or a failure.
pub proof fn lemma_install_ends(
    process: Process,
    name: Seq<char>,
    callback: u64,
    architecture: Architecture,
)
    ensures
        !(install(process, name, callback, architecture).0 is Pending),
{
    reveal_with_fuel(Installation::driven, 7);
}

/// A failed installation has no side effect: whatever made it fail, a
/// function that is not found or a page that cannot be made writable, the
/// memory of the process is what it was.
pub proof fn lemma_failed_install_leaves_memory(
    process: Process,
    name: Seq<char>,
    callback: u64,
    architecture: Architecture,
)
    requires
        install(process, name, callback, architecture).0 is Failed,
    ensures
        install(process, name, callback, architecture).1 == process,
{
    reveal_with_fuel(Installation::driven, 7);
}

/// A successful installation reads the slot before it writes it. The hook
/// holds the value that the slot had before the installation, the slot holds
/// the address of the replacement afterwards, and nothing else has changed.
pub proof fn lemma_install_patches_slot(
    process: Process,
    name: Seq<char>,
    callback: u64,
    architecture: Architecture,
)
    requires
        install(process, name, callback, architecture).0 is Installed,
    ensures
        ({
            let (outcome, hooked) = install(process, name, callback, architecture);
            let hook = outcome->Installed_0;
            &&& !hook.released
            &&& hook.original_value == process.cells[hook.entry_address]
            &&& hooked.cells == process.cells.insert(hook.entry_address, callback)
            &&& hooked == Process { cells: hooked.cells, ..process }
        }),
{
    reveal_with_fuel(Installation::driven, 7);
}

/// Installing a hook and releasing it restores the slot bit for bit: the
/// memory is then what it was before the installation.
pub proof fn lemma_release_restores_memory(
    process: Process,
    name: Seq<char>,
    callback: u64,
    architecture: Architecture,
)
    requires
        install(process, name, callback, architecture).0 is Installed,
        process.cells.dom().contains(
            install(process, name, callback, architecture).0->Installed_0.entry_address,
        ),
    ensures
        ({
            let (outcome, hooked) = install(process, name, callback, architecture);
            let hook = outcome->Installed_0;
            &&& hook.release(Protection::Granted) == Ok::<_, Failure>(Some(hook.restoring()))
            &&& hook.after_release(Protection::Granted).released
            &&& hooked.after(hook.restoring()) == process
        }),
{
    lemma_install_patches_slot(process, name, callback, architecture);
    let (outcome, hooked) = install(process, name, callback, architecture);
    let hook = outcome->Installed_0;
    assert(hooked.after(hook.restoring()).cells =~= process.cells);
}

/// Hooks on different slots are independent. Releasing one restores its own
/// slot and leaves the slot of the other as it is.
pub proof fn lemma_release_leaves_other_hooks(released: Handle, other: Handle, cells: Cells)
    requires
        released.entry_address != other.entry_address,
        cells.dom().contains(other.entry_address),
    ensures
        carried_out(released.restoring(), cells)[other.entry_address]
            == cells[other.entry_address],
        carried_out(released.restoring(), cells)[released.entry_address]
            == released.original_value,
{
}

/// A release writes once. The first release of a hook whose page may be
/// written hands out the restoring write; every later one hands out nothing.
pub proof fn lemma_release_once(hook: Handle, first: Protection, second: Protection)
    requires
        !hook.released,
        first is Granted,
    ensures
        hook.release(first) == Ok::<_, Failure>(Some(hook.restoring())),
        hook.after_release(first).release(second) == Ok::<Option<Request>, Failure>(None),
        hook.after_release(first).after_release(second) == hook.after_release(first),
{
}

/// A release that is refused leaves the hook installed, so that it can be
/// released later, and hands out no write.
pub proof fn lemma_refused_release_keeps_hook(hook: Handle, code: i32)
    requires
        !hook.released,
    ensures
        hook.release(Protection::Denied(code)) is Err,
        hook.after_release(Protection::Denied(code)) == hook,
{
}

} // verus!
