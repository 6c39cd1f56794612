//! Installing and releasing hooks, driven against a process that exists
//! only in the test.

use std::collections::HashMap;

use gothook::elf::Architecture;
use gothook::hook::Stage;
use gothook::{
    Error, GotHook, Installer, LoadedModule, Mapping, Progress, Protection, Request, Response,
    PAGE_SIZE,
};

const BASE: u64 = 0x7f00_0000_0000;
const CALLBACK: u64 = 0x7f00_0000_1234;
const OPEN: u64 = 0x7e00_dead_0000;
const CLOSE: u64 = 0x7e00_beef_0000;
const IMAGE_SIZE: usize = 0x600;

fn put16(bytes: &mut [u8], at: usize, value: u16) {
    bytes[at..at + 2].copy_from_slice(&value.to_le_bytes());
}

fn put32(bytes: &mut [u8], at: usize, value: u32) {
    bytes[at..at + 4].copy_from_slice(&value.to_le_bytes());
}

fn put64(bytes: &mut [u8], at: usize, value: u64) {
    bytes[at..at + 8].copy_from_slice(&value.to_le_bytes());
}

/// A little-endian image that imports "close" through the slot at 0x1fe8
/// and "open" through the slot at 0x2000, which is its relocation 3.
fn image() -> Vec<u8> {
    let mut bytes = vec![0u8; IMAGE_SIZE];
    bytes[..7].copy_from_slice(&[0x7f, b'E', b'L', b'F', 2, 1, 1]);
    put64(&mut bytes, 32, 0x40);
    put16(&mut bytes, 54, 56);
    put16(&mut bytes, 56, 1);
    put32(&mut bytes, 0x40, 2);
    put64(&mut bytes, 0x40 + 16, 0x100);
    put64(&mut bytes, 0x40 + 40, 6 * 16);
    let names = b"\0open\0close\0";
    let entries = [(23u64, 0x200u64), (2, 4 * 24), (20, 7), (5, 0x400), (10, names.len() as u64), (6, 0x500)];
    for (index, (tag, value)) in entries.iter().enumerate() {
        put64(&mut bytes, 0x100 + 16 * index, *tag);
        put64(&mut bytes, 0x100 + 16 * index + 8, *value);
    }
    let relocations = [(0x1fe8u64, 2u64, 1026u64), (0x1ff0, 0, 1027), (0x1ff8, 1, 1025), (0x2000, 1, 1026)];
    for (index, (offset, symbol, kind)) in relocations.iter().enumerate() {
        put64(&mut bytes, 0x200 + 24 * index, *offset);
        put64(&mut bytes, 0x200 + 24 * index + 8, (symbol << 32) | kind);
    }
    bytes[0x400..0x400 + names.len()].copy_from_slice(names);
    put32(&mut bytes, 0x500 + 24, 1);
    put32(&mut bytes, 0x500 + 48, 6);
    bytes
}

/// A process as the requests see it.
struct Process {
    module: Option<u64>,
    mappings: Option<Vec<Mapping>>,
    image: Vec<u8>,
    cells: HashMap<u64, u64>,
    refusal: Option<i32>,
    requests: Vec<Request>,
}

impl Process {
    fn new() -> Process {
        let mappings = [(0x1000, 0x2000), (BASE, BASE + 0x1000), (BASE + 0x1000, BASE + 0x2000), (BASE + 0x2000, BASE + 0x3000), (BASE + 0x3000, BASE + 0x4000)];
        Process {
            module: Some(BASE),
            mappings: Some(mappings.iter().map(|&(start, end)| Mapping { start, end }).collect()),
            image: image(),
            cells: HashMap::from([(BASE + 0x2000, OPEN), (BASE + 0x1fe8, CLOSE)]),
            refusal: None,
            requests: Vec::new(),
        }
    }

    fn answer(&mut self, request: Request) -> Response<'_> {
        self.requests.push(request);
        match request {
            Request::ResolveModule { .. } => Response::Module(self.module),
            Request::ListMappings => Response::Mappings(self.mappings.clone()),
            Request::ViewMemory { .. } => Response::Memory(&self.image),
            Request::ReadPointer { address } => Response::Pointer(self.cells[&address]),
            Request::Protect { .. } => Response::Protected(match self.refusal {
                Some(code) => Protection::Denied(code),
                None => Protection::Granted,
            }),
            Request::WritePointer { address, value } => {
                self.cells.insert(address, value);
                Response::Written
            }
        }
    }

    fn install(&mut self, name: &str, callback: u64) -> Result<GotHook, Error> {
        let mut installer = GotHook::new(name, callback, Architecture::Aarch64);
        loop {
            let response = self.answer(installer.request());
            match installer.advance(response) {
                Progress::Pending(next) => installer = next,
                Progress::Installed(hook) => return Ok(hook),
                Progress::Failed(error) => return Err(error),
            }
        }
    }

    fn release(&mut self, hook: &mut GotHook) -> Result<(), Error> {
        if let Some(request) = hook.unlock() {
            let protection = match self.answer(request) {
                Response::Protected(protection) => protection,
                other => panic!("unexpected answer {other:?}"),
            };
            if let Some(write) = hook.release(protection)? {
                self.answer(write);
            }
        }
        Ok(())
    }

    fn writes(&self) -> usize {
        self.requests.iter().filter(|request| matches!(request, Request::WritePointer { .. })).count()
    }
}

fn pending(progress: Progress) -> Installer {
    match progress {
        Progress::Pending(installer) => installer,
        other => panic!("the installation has ended: {other:?}"),
    }
}

fn failed(progress: Progress) -> Error {
    match progress {
        Progress::Failed(error) => error,
        other => panic!("the installation has not failed: {other:?}"),
    }
}

/// An installer that has found the slot of "open" and waits for its value.
fn reading() -> Installer {
    let mut process = Process::new();
    let mut installer = GotHook::new("open", CALLBACK, Architecture::Aarch64);
    for _ in 0..3 {
        let response = process.answer(installer.request());
        installer = pending(installer.advance(response));
    }
    installer
}

#[test]
fn an_installation_makes_its_six_requests_in_order() {
    let mut process = Process::new();
    let hook = process.install("open", CALLBACK).unwrap();
    assert_eq!(
        process.requests,
        vec![
            Request::ResolveModule { address: CALLBACK },
            Request::ListMappings,
            Request::ViewMemory { start: BASE, end: BASE + 0x4000 },
            Request::ReadPointer { address: BASE + 0x2000 },
            Request::Protect { page: BASE + 0x2000, length: 4096 },
            Request::WritePointer { address: BASE + 0x2000, value: CALLBACK },
        ]
    );
    assert_eq!(hook.entry_address(), 0x7f00_0000_2000);
    assert_eq!(hook.get_original_function(), OPEN);
    assert!(!hook.is_released());
}

#[test]
fn a_hook_on_open_patches_the_slot_and_a_release_restores_it() {
    let mut process = Process::new();
    let mut hook = process.install("open", CALLBACK).unwrap();
    assert_eq!(hook.entry_address(), 0x7f00_0000_2000);
    assert_eq!(hook.get_original_function(), OPEN);
    assert_eq!(process.cells[&0x7f00_0000_2000], CALLBACK);
    process.release(&mut hook).unwrap();
    assert!(hook.is_released());
    assert_eq!(process.cells[&0x7f00_0000_2000], OPEN);
    assert_eq!(process.cells, Process::new().cells);
}

#[test]
fn a_slot_that_is_not_page_aligned_is_unlocked_by_its_page() {
    let mut process = Process::new();
    process.install("close", CALLBACK).unwrap();
    assert_eq!(process.requests[4], Request::Protect { page: BASE + 0x1000, length: PAGE_SIZE });
    assert_eq!(process.requests[5], Request::WritePointer { address: BASE + 0x1fe8, value: CALLBACK });
}

#[test]
fn a_function_that_does_not_exist_leaves_the_memory_unchanged() {
    let mut process = Process::new();
    assert_eq!(
        process.install("does_not_exist", CALLBACK).unwrap_err(),
        Error::FunctionNotFound(String::from("does_not_exist"))
    );
    assert_eq!(process.cells, Process::new().cells);
    assert_eq!(process.requests.len(), 3);
    assert_eq!(process.writes(), 0);
}

#[test]
fn a_refused_protection_leaves_the_slot_unchanged() {
    let mut process = Process::new();
    process.refusal = Some(13);
    assert_eq!(
        process.install("open", CALLBACK).unwrap_err(),
        Error::ProtectionChangeFailed(13, 0x7f00_0000_2000)
    );
    assert_eq!(process.cells[&0x7f00_0000_2000], OPEN);
    assert_eq!(process.writes(), 0);
    assert_eq!(process.requests.len(), 5);
}

#[test]
fn releasing_one_hook_leaves_the_other_installed() {
    let mut process = Process::new();
    let mut open = process.install("open", CALLBACK).unwrap();
    let close = process.install("close", CALLBACK + 0x100).unwrap();
    process.release(&mut open).unwrap();
    assert_eq!(process.cells[&open.entry_address()], OPEN);
    assert_eq!(process.cells[&close.entry_address()], CALLBACK + 0x100);
    assert_eq!(close.get_original_function(), CLOSE);
    assert!(!close.is_released());
}

#[test]
fn an_address_outside_every_module_cannot_be_resolved() {
    let mut process = Process::new();
    process.module = None;
    assert_eq!(
        process.install("open", CALLBACK).unwrap_err(),
        Error::SymbolResolutionFailed(CALLBACK)
    );
    assert_eq!(process.requests, vec![Request::ResolveModule { address: CALLBACK }]);
}

#[test]
fn mappings_that_cannot_be_read_end_the_installation() {
    let mut process = Process::new();
    process.mappings = None;
    assert_eq!(process.install("open", CALLBACK).unwrap_err(), Error::ProcessIntrospectionFailed);
    assert_eq!(process.requests.len(), 2);
}

#[test]
fn a_module_that_is_not_among_the_mappings_ends_the_installation() {
    let mut process = Process::new();
    process.module = Some(BASE + 0x800);
    assert_eq!(process.install("open", CALLBACK).unwrap_err(), Error::ModuleRangeNotFound);
    process.module = Some(BASE + 0x1000);
    assert_eq!(process.install("open", CALLBACK).unwrap_err(), Error::ModuleRangeNotFound);
    assert_eq!(process.writes(), 0);
}

#[test]
fn a_failure_in_the_image_ends_the_installation() {
    let mut process = Process::new();
    process.image[0] = 0;
    assert_eq!(process.install("open", CALLBACK).unwrap_err(), Error::ElfParseFailed);
    let mut process = Process::new();
    put16(&mut process.image, 56, 0);
    assert_eq!(process.install("open", CALLBACK).unwrap_err(), Error::ElfHasNoProgramHeaders);
    let mut process = Process::new();
    put32(&mut process.image, 0x40, 1);
    assert_eq!(process.install("open", CALLBACK).unwrap_err(), Error::ElfHasNoDynamicSegment);
    let mut process = Process::new();
    put64(&mut process.image, 0x100 + 16 * 5, 0x7000_0000);
    assert_eq!(process.install("open", CALLBACK).unwrap_err(), Error::MissingDynamicEntry(6));
    assert_eq!(process.writes(), 0);
    assert_eq!(process.cells, Process::new().cells);
}

#[test]
fn the_slot_is_found_from_the_base_address_that_was_resolved() {
    let mut process = Process::new();
    let base = 0x5555_0000_0000;
    process.module = Some(base);
    process.mappings = Some(
        (0..4).map(|index| Mapping { start: base + index * 0x1000, end: base + (index + 1) * 0x1000 }).collect(),
    );
    process.cells.insert(base + 0x2000, 77);
    let hook = process.install("open", CALLBACK).unwrap();
    assert_eq!(hook.entry_address(), base + 0x2000);
    assert_eq!(hook.get_original_function(), 77);
    assert_eq!(process.requests[2], Request::ViewMemory { start: base, end: base + 0x4000 });
}

#[test]
fn an_answer_to_another_request_is_ignored() {
    let installer = GotHook::new("open", CALLBACK, Architecture::Aarch64);
    let installer = pending(installer.advance(Response::Written));
    assert_eq!(installer.request(), Request::ResolveModule { address: CALLBACK });
    let installer = pending(installer.advance(Response::Pointer(1)));
    let installer = pending(installer.advance(Response::Mappings(None)));
    let installer = pending(installer.advance(Response::Memory(&image())));
    let installer = pending(installer.advance(Response::Protected(Protection::Denied(1))));
    assert_eq!(installer.request(), Request::ResolveModule { address: CALLBACK });
    let installer = pending(installer.advance(Response::Module(Some(BASE))));
    assert_eq!(installer.request(), Request::ListMappings);
    let installer = pending(installer.advance(Response::Module(None)));
    assert_eq!(installer.request(), Request::ListMappings);

    let installer = pending(reading().advance(Response::Written));
    assert_eq!(installer.request(), Request::ReadPointer { address: BASE + 0x2000 });
    let installer = pending(installer.advance(Response::Pointer(OPEN)));
    let installer = pending(installer.advance(Response::Pointer(5)));
    let installer = pending(installer.advance(Response::Written));
    assert_eq!(installer.request(), Request::Protect { page: BASE + 0x2000, length: 4096 });
    let installer = pending(installer.advance(Response::Protected(Protection::Granted)));
    let installer = pending(installer.advance(Response::Protected(Protection::Denied(1))));
    assert_eq!(installer.request(), Request::WritePointer { address: BASE + 0x2000, value: CALLBACK });
    match installer.advance(Response::Written) {
        Progress::Installed(hook) => assert_eq!(hook.get_original_function(), OPEN),
        other => panic!("not installed: {other:?}"),
    }
}

#[test]
fn the_value_that_was_read_is_the_original() {
    let installer = reading();
    assert_eq!(installer.stage(), Stage::Reading { entry_address: BASE + 0x2000 });
    let installer = pending(installer.advance(Response::Pointer(0xabcd)));
    assert_eq!(
        installer.stage(),
        Stage::Unlocking { entry_address: BASE + 0x2000, original_value: 0xabcd }
    );
    let installer = pending(installer.advance(Response::Protected(Protection::Granted)));
    assert_eq!(
        installer.stage(),
        Stage::Writing { entry_address: BASE + 0x2000, original_value: 0xabcd }
    );
    match installer.advance(Response::Written) {
        Progress::Installed(hook) => {
            assert_eq!(hook.get_original_function(), 0xabcd);
            assert_eq!(hook.entry_address(), BASE + 0x2000);
        }
        other => panic!("not installed: {other:?}"),
    }
}

#[test]
fn a_refusal_carries_its_code_and_the_page() {
    let installer = pending(reading().advance(Response::Pointer(OPEN)));
    assert_eq!(
        failed(installer.advance(Response::Protected(Protection::Denied(-7)))),
        Error::ProtectionChangeFailed(-7, BASE + 0x2000)
    );
}

#[test]
fn a_second_release_does_nothing() {
    let mut process = Process::new();
    let mut hook = process.install("open", CALLBACK).unwrap();
    assert_eq!(hook.unlock(), Some(Request::Protect { page: BASE + 0x2000, length: 4096 }));
    assert_eq!(
        hook.release(Protection::Granted),
        Ok(Some(Request::WritePointer { address: BASE + 0x2000, value: OPEN }))
    );
    assert!(hook.is_released());
    assert_eq!(hook.unlock(), None);
    assert_eq!(hook.release(Protection::Granted), Ok(None));
    assert_eq!(hook.release(Protection::Denied(1)), Ok(None));
    assert!(hook.is_released());
    // the handle still tells what it held
    assert_eq!(hook.get_original_function(), OPEN);
    assert_eq!(hook.entry_address(), BASE + 0x2000);
}

#[test]
fn a_refused_release_keeps_the_hook_installed() {
    let mut process = Process::new();
    let mut hook = process.install("open", CALLBACK).unwrap();
    process.refusal = Some(1);
    assert_eq!(
        process.release(&mut hook),
        Err(Error::ProtectionChangeFailed(1, BASE + 0x2000))
    );
    assert!(!hook.is_released());
    assert_eq!(process.cells[&(BASE + 0x2000)], CALLBACK);
    process.refusal = None;
    assert_eq!(process.release(&mut hook), Ok(()));
    assert!(hook.is_released());
    assert_eq!(process.cells[&(BASE + 0x2000)], OPEN);
}

#[test]
fn a_hook_can_be_installed_again_after_its_release() {
    let mut process = Process::new();
    let mut first = process.install("open", CALLBACK).unwrap();
    process.release(&mut first).unwrap();
    let second = process.install("open", CALLBACK + 8).unwrap();
    assert_eq!(second.entry_address(), first.entry_address());
    assert_eq!(second.get_original_function(), OPEN);
    assert_eq!(process.cells[&(BASE + 0x2000)], CALLBACK + 8);
}

#[test]
fn the_stages_follow_each_other() {
    let installer = GotHook::new("open", CALLBACK, Architecture::X86_64);
    assert_eq!(installer.stage(), Stage::Resolving);
    let installer = pending(installer.advance(Response::Module(Some(BASE))));
    assert_eq!(installer.stage(), Stage::Locating { base_address: BASE });
    let mappings = Process::new().mappings;
    let installer = pending(installer.advance(Response::Mappings(mappings)));
    let module = LoadedModule { base_address: BASE, start: BASE, end: BASE + 0x4000 };
    assert_eq!(installer.stage(), Stage::Searching { module });
    // an x86-64 installer does not take the jump slots of 64-bit ARM
    assert_eq!(
        failed(installer.advance(Response::Memory(&image()))),
        Error::FunctionNotFound(String::from("open"))
    );
}
