use std::collections::HashMap;

use ttd::api_calls::{
    api_call_report, arm_api_watchpoints, exported_symbols, exported_symbols_fit, image_symbols, index_module_exports,
    is_api_call_stop, is_tracked_module, module_basename, read_first_four_args, should_flush, stack_argument,
    tracked_basename, ApiSymbol, FirstArguments, SymbolsError, BULK_DOCS_PER_FLUSH, ES_INDEX,
};
use ttd::context::{Arm64Context, RegisterContext, X64Context, X86Context};
use ttd::error::Error;
use ttd::events::EventType;
use ttd::pe::{export_span_fits, ExportEntry, PeExport};
use ttd::position::{PositionRange, ReplayPosition};
use ttd::replay::{MemoryRequest, ReplayEngine, TraceData};
use ttd::system_info::SystemInfo;
use ttd::unpack::execution_watchpoint;

fn put16(img: &mut [u8], off: usize, v: u16) {
    img[off..off + 2].copy_from_slice(&v.to_le_bytes());
}

fn put32(img: &mut [u8], off: usize, v: u32) {
    img[off..off + 4].copy_from_slice(&v.to_le_bytes());
}

fn put_str(img: &mut [u8], off: usize, s: &str) {
    img[off..off + s.len()].copy_from_slice(s.as_bytes());
    img[off + s.len()] = 0;
}

/// A mapped 64-bit image exporting `Alpha` (rva 0x1000), `Beta` (forwarded)
/// and `Gamma` (rva 0x1200).
fn library_image() -> Vec<u8> {
    let mut img = vec![0u8; 0x400];
    img[0] = b'M';
    img[1] = b'Z';
    put32(&mut img, 0x3c, 0x40);
    img[0x40..0x44].copy_from_slice(b"PE\0\0");
    put16(&mut img, 0x44, 0x8664);
    put16(&mut img, 0x54, 0xf0);
    put16(&mut img, 0x56, 0x2022);
    let opt = 0x58;
    put16(&mut img, opt, 0x20b);
    put32(&mut img, opt + 32, 0x1000);
    put32(&mut img, opt + 36, 0x200);
    put32(&mut img, opt + 56, 0x400);
    put32(&mut img, opt + 60, 0x200);
    put32(&mut img, opt + 108, 16);
    put32(&mut img, opt + 112, 0x200);
    put32(&mut img, opt + 116, 0x100);
    let dir = 0x200;
    put32(&mut img, dir + 12, 0x2c0);
    put32(&mut img, dir + 16, 1);
    put32(&mut img, dir + 20, 3);
    put32(&mut img, dir + 24, 3);
    put32(&mut img, dir + 28, 0x240);
    put32(&mut img, dir + 32, 0x250);
    put32(&mut img, dir + 36, 0x260);
    put32(&mut img, 0x240, 0x1000);
    put32(&mut img, 0x244, 0x2a0);
    put32(&mut img, 0x248, 0x1200);
    put32(&mut img, 0x250, 0x280);
    put32(&mut img, 0x254, 0x288);
    put32(&mut img, 0x258, 0x290);
    put16(&mut img, 0x260, 0);
    put16(&mut img, 0x262, 1);
    put16(&mut img, 0x264, 2);
    put_str(&mut img, 0x280, "Alpha");
    put_str(&mut img, 0x288, "Beta");
    put_str(&mut img, 0x290, "Gamma");
    put_str(&mut img, 0x2a0, "other.Func");
    put_str(&mut img, 0x2c0, "test.dll");
    img
}

fn trace() -> TraceData {
    let mut info = SystemInfo::empty();
    info.architecture = 9;
    info.process_id = 1234;
    TraceData {
        system_info: info,
        lifetime: PositionRange { min: ReplayPosition::new(0x10, 0), max: ReplayPosition::new(0x5000, 3) },
        modules: vec![],
        threads: vec![],
        module_loaded_events: vec![],
        module_unloaded_events: vec![],
        exception_events: vec![],
    }
}

fn symbol(module: &str, function: &str) -> ApiSymbol {
    ApiSymbol { module: module.to_string(), function: function.to_string() }
}

#[test]
fn tracked_library_names() {
    assert!(is_tracked_module("kernel32.dll"));
    assert!(is_tracked_module("shell32.dll"));
    assert!(!is_tracked_module("KERNEL32.DLL"));
    assert!(!is_tracked_module("gdi32.dll"));
    assert_eq!(ES_INDEX, "win32-api-calls");
    assert_eq!(BULK_DOCS_PER_FLUSH, 500);
}

#[test]
fn windows_path_basenames() {
    assert_eq!(module_basename("c:\\windows\\system32\\ntdll.dll"), "ntdll.dll");
    assert_eq!(module_basename("c:/windows/system32/user32.dll"), "user32.dll");
    assert_eq!(module_basename("c:\\windows\\system32\\"), "system32");
    assert_eq!(module_basename("c:\\windows\\.\\ws2_32.dll\\."), "ws2_32.dll");
    assert_eq!(module_basename("c:\\windows\\.."), "c:\\windows\\..");
    assert_eq!(module_basename("c:"), "c:");
    assert_eq!(module_basename("cmd.exe"), "cmd.exe");
    assert_eq!(module_basename(""), "");
}

#[test]
fn windows_path_prefixes() {
    assert_eq!(module_basename("\\\\server\\share"), "\\\\server\\share");
    assert_eq!(module_basename("\\\\server\\share\\"), "\\\\server\\share\\");
    assert_eq!(module_basename("\\\\server\\share\\bin\\user32.dll"), "user32.dll");
    assert_eq!(module_basename("//server/share/x.dll"), "x.dll");
    assert_eq!(module_basename("\\\\server"), "server");
    assert_eq!(module_basename("\\\\.\\COM42"), "\\\\.\\COM42");
    assert_eq!(module_basename("\\\\?\\C:\\Windows\\ntdll.dll"), "ntdll.dll");
    assert_eq!(module_basename("\\\\?\\C:\\Windows\\a/b.dll"), "a/b.dll");
    assert_eq!(module_basename("\\\\?\\C:\\Windows\\."), "\\\\?\\C:\\Windows\\.");
    assert_eq!(module_basename("\\\\?\\UNC\\server\\share\\f.dll"), "f.dll");
    assert_eq!(module_basename("\\\\?\\UNC\\server\\share"), "\\\\?\\UNC\\server\\share");
    assert_eq!(module_basename("\\\\?\\GLOBALROOT\\Device\\x.sys"), "x.sys");
    assert_eq!(module_basename("C:ntdll.dll"), "ntdll.dll");
}

#[test]
fn traced_libraries_are_lower_cased() {
    assert_eq!(tracked_basename("C:\\Windows\\System32\\KERNEL32.DLL"), Some("kernel32.dll".to_string()));
    assert_eq!(tracked_basename("C:\\Windows\\System32\\WinINet.dll"), Some("wininet.dll".to_string()));
    assert_eq!(tracked_basename("C:\\Windows\\System32\\gdi32.dll"), None);
    assert_eq!(tracked_basename("C:\\Windows\\kernel32.dll\\.."), None);
}

#[test]
fn exported_symbols_keep_named_symbols() {
    let entries = vec![
        ExportEntry { name: Some("Alpha".to_string()), export: Some(PeExport::Symbol(0x10)) },
        ExportEntry { name: Some("Fwd".to_string()), export: Some(PeExport::Forward) },
        ExportEntry { name: Some(String::new()), export: Some(PeExport::Symbol(0x20)) },
        ExportEntry { name: None, export: Some(PeExport::Symbol(0x30)) },
        ExportEntry { name: Some("Broken".to_string()), export: None },
        ExportEntry { name: Some("Omega".to_string()), export: Some(PeExport::Symbol(0x40)) },
    ];
    assert_eq!(
        exported_symbols(0x7ffa_0000_0000, &entries),
        vec![(0x7ffa_0000_0010, "Alpha".to_string()), (0x7ffa_0000_0040, "Omega".to_string())]
    );
    assert!(exported_symbols(0, &vec![]).is_empty());
    assert!(exported_symbols_fit(u64::MAX - 0x40, &entries));
    assert!(!exported_symbols_fit(u64::MAX - 0x3f, &entries));
    let unnamed = vec![ExportEntry { name: Some(String::new()), export: Some(PeExport::Symbol(0x20)) }];
    assert!(exported_symbols_fit(u64::MAX, &unnamed));
}

#[test]
fn image_symbols_read_the_export_table() {
    let image = library_image();
    assert_eq!(
        image_symbols(0x1_0000_0000, &image),
        Ok(vec![(0x1_0000_1000, "Alpha".to_string()), (0x1_0000_1200, "Gamma".to_string())])
    );
    assert_eq!(image_symbols(0x1_0000_0000, &[0u8; 0x40]), Err(SymbolsError::NoExportTable));
    assert_eq!(image_symbols(u64::MAX - 0x1000, &image), Err(SymbolsError::AddressOverflow));
    assert_eq!(image_symbols(u64::MAX - 0x1200, &image).unwrap()[1], (u64::MAX, "Gamma".to_string()));
    let mut malformed = image.clone();
    put32(&mut malformed, 0x58 + 116, 0xffff_ff00);
    assert!(!export_span_fits(&malformed));
    assert!(export_span_fits(&image));
    assert_eq!(image_symbols(0x1_0000_0000, &malformed), Err(SymbolsError::MalformedExportDirectory));
}

#[test]
fn stop_reasons_and_flushing() {
    assert!(is_api_call_stop(EventType::MemoryWatchpoint));
    assert!(!is_api_call_stop(EventType::Position));
    assert!(!should_flush(0));
    assert!(!should_flush(999));
    assert!(should_flush(1000));
    assert!(should_flush(1001));
}

#[test]
fn first_arguments_by_architecture() {
    let x64 = RegisterContext::X64(X64Context { rcx: 1, rdx: 2, r8: 3, r9: 4, ..Default::default() });
    assert!(matches!(read_first_four_args(&x64), FirstArguments::Registers([1, 2, 3, 4])));
    let mut x = [0u64; 29];
    x[0] = 10;
    x[1] = 11;
    x[2] = 12;
    x[3] = 13;
    let arm = RegisterContext::ARM64(Arm64Context { x, fp: 0, lr: 0, sp: 0, pc: 0 });
    assert!(matches!(read_first_four_args(&arm), FirstArguments::Registers([10, 11, 12, 13])));
    let x86 = RegisterContext::X86(X86Context { esp: 0x2000, ..Default::default() });
    match read_first_four_args(&x86) {
        FirstArguments::Stack(q) => assert_eq!(
            q,
            [
                MemoryRequest { address: 0x2004, size: 4 },
                MemoryRequest { address: 0x2008, size: 4 },
                MemoryRequest { address: 0x200c, size: 4 },
                MemoryRequest { address: 0x2010, size: 4 },
            ]
        ),
        FirstArguments::Registers(_) => panic!("x86 arguments are on the stack"),
    }
}

#[test]
fn stack_arguments_need_four_bytes() {
    assert_eq!(stack_argument(&[0xef, 0xbe, 0xad, 0xde]).unwrap(), 0xdead_beef);
    assert!(matches!(stack_argument(&[1, 2, 3]), Err(Error::ConversionError)));
    assert!(matches!(stack_argument(&[1, 2, 3, 4, 5, 6, 7, 8]), Err(Error::ConversionError)));
}

#[test]
fn indexing_exports_adds_every_address() {
    let mut map: HashMap<u64, ApiSymbol> = HashMap::new();
    map.insert(0x10, symbol("ntdll.dll", "Old"));
    map.insert(0x30, symbol("kernel32.dll", "Kept"));
    let symbols = vec![
        (0x10u64, "NtClose".to_string()),
        (0x20u64, "NtOpenFile".to_string()),
        (0x20u64, "NtOpenFileAgain".to_string()),
    ];
    assert_eq!(index_module_exports(&mut map, &"ntdll.dll".to_string(), &symbols), 3);
    assert_eq!(map.len(), 3);
    assert_eq!(map[&0x10].function, "NtClose");
    assert_eq!(map[&0x10].module, "ntdll.dll");
    assert_eq!(map[&0x20].module, "ntdll.dll");
    assert_eq!(map[&0x20].function, "NtOpenFileAgain");
    assert_eq!(map[&0x30].module, "kernel32.dll");
    assert_eq!(map[&0x30].function, "Kept");
}

#[test]
fn arming_watchpoints_counts_new_ones() {
    let engine = ReplayEngine::open(trace()).unwrap();
    let mut cursor = engine.cursor(true).unwrap();
    let mut map: HashMap<u64, ApiSymbol> = HashMap::new();
    map.insert(0x1000, symbol("kernel32.dll", "CreateFileW"));
    map.insert(0x2000, symbol("kernel32.dll", "ReadFile"));
    assert_eq!(arm_api_watchpoints(&mut cursor, &map), 2);
    assert_eq!(cursor.memory_watchpoint_count(), 2);
    assert_eq!(arm_api_watchpoints(&mut cursor, &map), 0);
    assert!(!cursor.add_memory_watchpoint(&execution_watchpoint(0x1000)).unwrap());
    assert!(!cursor.add_memory_watchpoint(&execution_watchpoint(0x2000)).unwrap());
}

#[test]
fn reports_of_known_entry_points() {
    let mut map: HashMap<u64, ApiSymbol> = HashMap::new();
    map.insert(0x7ffa_1000, symbol("kernel32.dll", "CreateFileW"));
    let position = ReplayPosition::new(0x2a, 0x1f);
    let report = api_call_report(&map, 1234, 0x1f4, &position, 0x7ffa_1000, &[0, 0x10, 0xdead_beef, 7]).unwrap();
    assert_eq!(report.pid, 1234);
    assert_eq!(report.thread_id, 0x1f4);
    assert_eq!(report.position, "2a:1f");
    assert_eq!(report.pc, "0x7ffa1000");
    assert_eq!(report.module, "kernel32.dll");
    assert_eq!(report.function, "CreateFileW");
    assert_eq!(report.args, vec!["0x0", "0x10", "0xdeadbeef", "0x7"]);
    assert!(api_call_report(&map, 1234, 1, &position, 0x7ffa_1001, &[0; 4]).is_none());
}
