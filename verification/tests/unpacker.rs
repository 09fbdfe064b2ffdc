use ttd::context::{RegisterContext, X64Context, X86Context};
use ttd::error::Error;
use ttd::events::{EventType, ModuleLoaded};
use ttd::module::ReplayModule;
use ttd::pe::PeExport;
use ttd::position::ReplayPosition;
use ttd::replay::{MemoryRequest, MemoryWatchpointData};
use ttd::unpack::{
    argument_reads, bitness, ends_with, execution_watchpoint, export_address, find_load_event_for_module,
    format_listing, get_module_base_address, le_u32, payload_file_name, payload_listing, payload_pc,
    scan_payload, unpack_start, unpack_step, ExportError, UnpackAction, UnpackEvent, UnpackState,
    PAGE_EXECUTE_READWRITE,
};

fn put16(img: &mut [u8], off: usize, v: u16) {
    img[off..off + 2].copy_from_slice(&v.to_le_bytes());
}

fn put32(img: &mut [u8], off: usize, v: u32) {
    img[off..off + 4].copy_from_slice(&v.to_le_bytes());
}

fn put_str(img: &mut [u8], off: usize, s: &str) {
    img[off..off + s.len()].copy_from_slice(s.as_bytes());
    img[off + s.len()] = 0;
}

/// A mapped 64-bit image exporting `Alpha` (rva 0x1000), `Beta` (forwarded
/// to `other.Func`) and `Gamma` (rva 0x1200).
fn test_image() -> Vec<u8> {
    let mut img = vec![0u8; 0x400];
    img[0] = b'M';
    img[1] = b'Z';
    put32(&mut img, 0x3c, 0x40);
    img[0x40..0x44].copy_from_slice(b"PE\0\0");
    put16(&mut img, 0x44, 0x8664);
    put16(&mut img, 0x54, 0xf0);
    put16(&mut img, 0x56, 0x2022);
    let opt = 0x58;
    put16(&mut img, opt, 0x20b);
    put32(&mut img, opt + 32, 0x1000);
    put32(&mut img, opt + 36, 0x200);
    put32(&mut img, opt + 56, 0x400);
    put32(&mut img, opt + 60, 0x200);
    put32(&mut img, opt + 108, 16);
    put32(&mut img, opt + 112, 0x200);
    put32(&mut img, opt + 116, 0x100);
    let dir = 0x200;
    put32(&mut img, dir + 12, 0x2c0);
    put32(&mut img, dir + 16, 1);
    put32(&mut img, dir + 20, 3);
    put32(&mut img, dir + 24, 3);
    put32(&mut img, dir + 28, 0x240);
    put32(&mut img, dir + 32, 0x250);
    put32(&mut img, dir + 36, 0x260);
    put32(&mut img, 0x240, 0x1000);
    put32(&mut img, 0x244, 0x2a0);
    put32(&mut img, 0x248, 0x1200);
    put32(&mut img, 0x250, 0x280);
    put32(&mut img, 0x254, 0x288);
    put32(&mut img, 0x258, 0x290);
    put16(&mut img, 0x260, 0);
    put16(&mut img, 0x262, 1);
    put16(&mut img, 0x264, 2);
    put_str(&mut img, 0x280, "Alpha");
    put_str(&mut img, 0x288, "Beta");
    put_str(&mut img, 0x290, "Gamma");
    put_str(&mut img, 0x2a0, "other.Func");
    put_str(&mut img, 0x2c0, "test.dll");
    img
}

fn loaded(name: &str, address: u64) -> ModuleLoaded {
    ModuleLoaded {
        position: ReplayPosition::new(0x20, 1),
        module: ReplayModule { name: name.to_string(), address, size: 0x400, checksum: 0, timestamp: 0 },
    }
}

#[test]
fn export_addresses_from_an_image() {
    let image = test_image();
    let event = loaded("C:\\Windows\\System32\\KernelBase.dll", 0x7ffa_0000_0000);
    assert_eq!(get_module_base_address(&event, &image, "Alpha"), Some(Ok(0x7ffa_0000_1000)));
    assert_eq!(get_module_base_address(&event, &image, "Gamma"), Some(Ok(0x7ffa_0000_1200)));
    assert_eq!(get_module_base_address(&event, &image, "Beta"), None);
    assert_eq!(get_module_base_address(&event, &image, "Delta"), Some(Err(ExportError::NotExported)));
    let mut malformed = image.clone();
    put32(&mut malformed, 0x58 + 116, 0xffff_ff00);
    assert_eq!(
        get_module_base_address(&event, &malformed, "Alpha"),
        Some(Err(ExportError::MalformedExportDirectory))
    );
}

#[test]
fn export_address_overflow_and_garbage() {
    let image = test_image();
    let high = loaded("kernelbase.dll", u64::MAX - 0x10);
    assert_eq!(get_module_base_address(&high, &image, "Alpha"), None);
    let garbage = vec![0u8; 0x400];
    let event = loaded("kernelbase.dll", 0x1000);
    assert_eq!(get_module_base_address(&event, &garbage, "Alpha"), Some(Err(ExportError::NotExported)));
}

#[test]
fn export_address_sums() {
    assert_eq!(export_address(0x1000, Some(PeExport::Symbol(0x234))), Ok(0x1234));
    assert_eq!(export_address(0x1000, None), Err(ExportError::NotExported));
}

#[test]
fn load_event_lookup_is_case_insensitive_suffix() {
    let events = vec![
        loaded("C:\\Windows\\System32\\ntdll.dll", 0x1000),
        loaded("C:\\Windows\\System32\\KERNELBASE.DLL", 0x2000),
        loaded("C:\\Windows\\System32\\kernelbase.dll", 0x3000),
    ];
    let found = find_load_event_for_module(events.clone(), "kernelbase.dll").unwrap();
    assert_eq!(found.module.address, 0x2000);
    assert_eq!(found.module.name, "C:\\Windows\\System32\\KERNELBASE.DLL");
    assert!(matches!(find_load_event_for_module(events.clone(), "user32.dll"), Err(Error::NotFound)));
    assert!(matches!(find_load_event_for_module(vec![], "ntdll.dll"), Err(Error::NotFound)));
}

#[test]
fn suffixes() {
    let s: Vec<char> = "kernelbase.dll".chars().collect();
    let t: Vec<char> = "base.dll".chars().collect();
    let u: Vec<char> = "xkernelbase.dll".chars().collect();
    assert!(ends_with(&s, &t));
    assert!(ends_with(&s, &s));
    assert!(!ends_with(&t, &s));
    assert!(!ends_with(&s, &u));
    assert!(ends_with(&s, &vec![]));
}

#[test]
fn little_endian_words() {
    assert_eq!(le_u32(&[0x78, 0x56, 0x34, 0x12]), 0x1234_5678);
    assert_eq!(le_u32(&[0xff, 0xff, 0xff, 0xff]), u32::MAX);
    assert_eq!(le_u32(&[0x40, 0, 0, 0]), PAGE_EXECUTE_READWRITE);
}

#[test]
fn argument_slots_by_architecture() {
    let x86 = RegisterContext::X86(X86Context { esp: 0x1000, eip: 0x401000, ..Default::default() });
    let reads = argument_reads(&x86, 4);
    let addresses: Vec<u64> = reads.iter().map(|r| r.address).collect();
    assert_eq!(addresses, vec![0x1004, 0x1008, 0x100c, 0x1010]);
    assert!(reads.iter().all(|r| r.size == 4));
    let x64 = RegisterContext::X64(X64Context { rcx: 1, rdx: 2, r8: 3, r9: 4, ..Default::default() });
    let reads: [MemoryRequest; 4] = argument_reads(&x64, 8);
    let addresses: Vec<u64> = reads.iter().map(|r| r.address).collect();
    assert_eq!(addresses, vec![1, 2, 3, 4]);
    assert_eq!(bitness(&x86), 32);
    assert_eq!(bitness(&x64), 64);
    assert_eq!(payload_pc(&x86), 0x401000);
}

#[test]
fn unpacker_follows_the_first_rwx_region() {
    let (state, action) = unpack_start(0x7ffa_0000_1000);
    let watch = execution_watchpoint(0x7ffa_0000_1000);
    assert_eq!(watch, MemoryWatchpointData { address: 0x7ffa_0000_1000, size: 1, access_mask: 4 });
    assert_eq!(state, UnpackState::WatchingVirtualProtect { watch });
    assert_eq!(action, UnpackAction::ReplayForward);

    let (state, action) = unpack_step(state, UnpackEvent::Stopped(EventType::MemoryWatchpoint));
    assert_eq!(state, UnpackState::ReadingArguments { watch });
    assert_eq!(action, UnpackAction::ReadArguments);

    // A read-only protection change is skipped.
    let (state, action) = unpack_step(state, UnpackEvent::Arguments([0x5000, 0x100, 0x02, 0]));
    assert_eq!(state, UnpackState::WatchingVirtualProtect { watch });
    assert_eq!(action, UnpackAction::ReplayForward);

    let (state, _) = unpack_step(state, UnpackEvent::Stopped(EventType::MemoryWatchpoint));
    let (state, action) = unpack_step(state, UnpackEvent::Arguments([0x5000, 0x100, 0x40, 0]));
    assert_eq!(state, UnpackState::WatchingPayload { size: 0x100 });
    assert_eq!(action, UnpackAction::Rewatch { remove: watch, add: execution_watchpoint(0x5000) });

    let (state, action) = unpack_step(state, UnpackEvent::PayloadReached(0x5010));
    assert_eq!(state, UnpackState::Finished);
    assert_eq!(action, UnpackAction::AnalysePayload { address: 0x5010, size: 0x100 });

    let (state, action) = unpack_step(state, UnpackEvent::Stopped(EventType::MemoryWatchpoint));
    assert_eq!(state, UnpackState::Finished);
    assert_eq!(action, UnpackAction::Stop);
}

#[test]
fn unpacker_stops_at_the_end_of_the_trace() {
    let (state, _) = unpack_start(0x1000);
    let (state, action) = unpack_step(state, UnpackEvent::Stopped(EventType::Position));
    assert_eq!(state, UnpackState::Finished);
    assert_eq!(action, UnpackAction::Stop);
}

#[test]
fn payload_dump_file_name() {
    assert_eq!(payload_file_name(&ReplayPosition::new(0x1a2b, 0x3f)), "Payload-1a2b_3f.dmp");
    assert_eq!(payload_file_name(&ReplayPosition::new(0, 0)), "Payload-0_0.dmp");
}

#[test]
fn payload_listing_of_short_code() {
    let lines = payload_listing(64, &[0x90, 0x31, 0xc0, 0xc3], 0x7ff6_0000_0000);
    assert_eq!(lines, vec!["0x7ff600000000 nop", "0x7ff600000001 xor eax,eax", "0x7ff600000003 ret"]);
    let lines = payload_listing(32, &[0x90, 0xc3], 0x401000);
    assert_eq!(lines, vec!["0x00401000 nop", "0x00401001 ret"]);
    assert!(payload_listing(32, &[], 0x401000).is_empty());
}

#[test]
fn payload_listing_is_cut_after_twenty_instructions() {
    let code = vec![0x90u8; 25];
    let lines = payload_listing(32, &code, 0x401000);
    assert_eq!(lines.len(), 21);
    assert_eq!(lines[0], "0x00401000 nop");
    assert_eq!(lines[19], "0x00401013 nop");
    assert_eq!(lines[20], "...");
    let exactly = payload_listing(32, &code[..20], 0x401000);
    assert_eq!(exactly.len(), 20);
    assert_eq!(exactly[19], "0x00401013 nop");
}

#[test]
fn listing_formats_given_instructions() {
    let instrs = vec![(0x10u64, "nop".to_string()), (0x1_0000_0000u64, "ret".to_string())];
    assert_eq!(format_listing(&instrs), vec!["0x00000010 nop", "0x100000000 ret"]);
}

#[test]
fn yara_scan_of_a_payload() {
    let rules = b"rule found_mz { strings: $a = \"MZ\" condition: $a }";
    assert_eq!(scan_payload(Some(rules), b"xxMZyy"), Some(vec!["found_mz".to_string()]));
    assert_eq!(scan_payload(Some(rules), b"nothing here"), Some(vec![]));
    assert_eq!(scan_payload(None, b"xxMZyy"), Some(vec![]));
    assert_eq!(scan_payload(Some(b"rule {"), b"xxMZyy"), None);
    let including = b"include \"other.yar\"\nrule found_mz { strings: $a = \"MZ\" condition: $a }";
    assert_eq!(scan_payload(Some(including), b"xxMZyy"), None);
}
