//! Redirecting calls to an imported function by rewriting the slot of the
//! global offset table through which the calling module reaches it.
//!
//! The crate holds the decisions of that engine: where a module's image ends,
//! how its dynamic linking tables are read, which slot backs a named import,
//! and in which order the slot is read, unlocked and written. It never touches
//! process memory itself. What has to be done to the live process is handed to
//! the embedding program as a request, and the answer comes back as a
//! response.

pub mod bytes;
pub mod elf;
pub mod error;
pub mod got;
pub mod hook;
pub mod maps;
pub mod patch;
pub mod process;

pub use elf::{Architecture, ElfLayout};
pub use error::{Error, Failure};
pub use got::find_got_entry;
pub use hook::{GotHook, Installer, Progress};
pub use maps::{locate_module_range, LoadedModule, Mapping};
pub use patch::{page_address, PAGE_SIZE};
pub use process::{Protection, Request, Response};
