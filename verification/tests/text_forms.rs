use ttd::context::{Arm64Context, ProcessorArchitecture, RegisterContext, X64Context, X86Context};
use ttd::engine_info::{parse_banner_version, EngineInfo};
use ttd::events::{DataAccessMask, DataAccessType, EventType};
use ttd::flags::ReplayFlags;
use ttd::position::ReplayPosition;
use ttd::system_info::SystemInfo;
use ttd::utf16::{decode_utf16, encode_utf16};

#[test]
fn position_renders_in_hex() {
    let p = ReplayPosition::new(0x1a2b, 0);
    assert_eq!(p.to_string(), "1a2b:0");
    let q = ReplayPosition::new(u64::MAX, 255);
    assert_eq!(q.to_string(), "ffffffffffffffff:ff");
}

#[test]
fn position_step_arithmetic() {
    let p = ReplayPosition::new(3, 10);
    let q = p.add_steps(5);
    assert_eq!(q, ReplayPosition::new(3, 15));
    assert_eq!(q.sub_steps(5), p);
}

#[test]
fn utf16_round_trip_and_errors() {
    let s = "k\u{e9}rnel\u{1F600}32";
    let cs: Vec<char> = s.chars().collect();
    let units = encode_utf16(&cs);
    let expected: Vec<u16> = s.encode_utf16().collect();
    assert_eq!(units, expected);
    assert_eq!(decode_utf16(&units).unwrap(), s);
    // unpaired high surrogate, unpaired low surrogate
    assert!(decode_utf16(&[0x61, 0xD800]).is_none());
    assert!(decode_utf16(&[0xDC00, 0x61]).is_none());
    assert!(decode_utf16(&[0xD800, 0x61]).is_none());
    assert_eq!(decode_utf16(&[]).unwrap(), "");
}

fn x64() -> X64Context {
    X64Context {
        rax: 1, rbx: 2, rcx: 3, rdx: 4, rsi: 5, rdi: 6, rip: 0x7ff6_1234_5678, rsp: 8, rbp: 9,
        r8: 10, r9: 11, r10: 12, r11: 13, r12: 14, r13: 15, r14: 16, r15: 0xffff_ffff_ffff_ffff,
    }
}

#[test]
fn x64_context_text() {
    let ctx = RegisterContext::X64(x64());
    let expected = "rax=0000000000000001 rbx=0000000000000002 rcx=0000000000000003\n\
rdx=0000000000000004 rsi=0000000000000005 rdi=0000000000000006\n\
rip=00007ff612345678 rsp=0000000000000008 rbp=0000000000000009\n \
r8=000000000000000a  r9=000000000000000b r10=000000000000000c\n\
r11=000000000000000d r12=000000000000000e r13=000000000000000f\n\
r14=0000000000000010 r15=ffffffffffffffff";
    assert_eq!(ctx.to_string(), expected);
    assert_eq!(ctx.pc(), 0x7ff6_1234_5678);
    assert_eq!(ctx.sp(), 8);
    assert_eq!(ctx.fp(), 9);
    assert_eq!(ctx.architecture(), ProcessorArchitecture::X64);
}

#[test]
fn x86_context_text() {
    let ctx = RegisterContext::X86(X86Context {
        eax: 0xa, ebx: 0xb, ecx: 0xc, edx: 0xd, esi: 0x51, edi: 0xd1, eip: 0x401000, esp: 0x19ff70, ebp: 0x19ff80,
    });
    let expected = "eax=0000000a ebx=0000000b ecx=0000000c edx=0000000d esi=00000051 edi=000000d1\n\
eip=00401000 esp=0019ff70 ebp=0019ff80 ";
    assert_eq!(ctx.to_string(), expected);
    assert_eq!(ctx.pc(), 0x401000);
    assert_eq!(ctx.sp(), 0x19ff70);
    assert_eq!(ctx.fp(), 0x19ff80);
}

#[test]
fn arm64_context_text() {
    let mut x = [0u64; 29];
    for (i, v) in x.iter_mut().enumerate() {
        *v = i as u64;
    }
    let ctx = RegisterContext::ARM64(Arm64Context { x, fp: 0xf9, lr: 0x1e, sp: 0x5b, pc: 0xc0de });
    let text = ctx.to_string();
    let lines: Vec<&str> = text.split('\n').collect();
    assert_eq!(lines.len(), 9);
    assert_eq!(lines[0], "x0=0000000000000000   x1=0000000000000001   x2=0000000000000002   x3=0000000000000003");
    assert_eq!(lines[2], "x8=0000000000000008   x9=0000000000000009  x10=000000000000000a  x11=000000000000000b");
    assert_eq!(lines[7], "x28=000000000000001c   fp=00000000000000f9   lr=000000000000001e   sp=000000000000005b");
    assert_eq!(lines[8], " pc=000000000000c0de");
    assert_eq!(ctx.pc(), 0xc0de);
    assert_eq!(ctx.fp(), 0xf9);
}

#[test]
fn architecture_codes() {
    assert_eq!(ProcessorArchitecture::try_from(9).unwrap(), ProcessorArchitecture::X64);
    assert_eq!(ProcessorArchitecture::try_from(0).unwrap(), ProcessorArchitecture::X86);
    assert_eq!(ProcessorArchitecture::try_from(12).unwrap(), ProcessorArchitecture::ARM64);
    assert!(matches!(ProcessorArchitecture::try_from(5), Err(ttd::sys_error::Error::ConversionError)));
    assert_eq!(ProcessorArchitecture::ARM64.code(), 12);
    assert_eq!(ProcessorArchitecture::X86.pointer_size(), 4);
}

#[test]
fn system_info_text_repeats_major_version() {
    let mut info = SystemInfo::empty();
    info.process_id = 4242;
    info.major_version = 10;
    info.minor_version = 7;
    info.build_number = 19045;
    assert_eq!(info.to_string(), "SystemInfo(PID=4242, version=10.10.19045)");
    assert_eq!(info.pid().unwrap(), 4242);
}

#[test]
fn system_info_names_decode_whole_buffer() {
    let mut info = SystemInfo::empty();
    for (i, c) in "alice".encode_utf16().enumerate() {
        info.user_name[i] = c;
    }
    let name = info.user_name().unwrap();
    assert_eq!(name.chars().count(), 64);
    assert!(name.starts_with("alice\0"));
    info.system_name[3] = 0xDC00;
    assert!(matches!(info.system_name(), Err(ttd::error::Error::Utf16Error)));
}

#[test]
fn event_codes() {
    assert_eq!(EventType::from(0u8), EventType::MemoryWatchpoint);
    assert_eq!(EventType::from(6u8), EventType::Position);
    assert_eq!(EventType::from(7u8), EventType::Process);
    assert_eq!(EventType::from(10u8), EventType::Count);
    assert_eq!(EventType::from(11u8), EventType::Invalid);
    assert_eq!(EventType::from_code(255), EventType::Invalid);
    assert_eq!(EventType::Process.to_string(), "Process");
    assert_eq!(EventType::MemoryWatchpoint.to_string(), "MemoryWatchpoint");
}

#[test]
fn access_masks() {
    assert_eq!(DataAccessMask::execute().bits(), 4);
    assert_eq!(DataAccessMask::read().union(DataAccessMask::write()), DataAccessMask::read_write());
    assert!(DataAccessMask::all().contains(DataAccessType::RedundantData));
    assert!(!DataAccessMask::read_write().contains(DataAccessType::Execute));
    assert_eq!(DataAccessType::Execute.mask(), DataAccessMask::execute());
    assert_eq!(DataAccessType::CodeFetch.code(), 3);
    assert_eq!(DataAccessMask::none().bits(), 0);
}

#[test]
fn replay_flags_values() {
    assert_eq!(u32::from(ReplayFlags::ReplaySegmentsSequentially), 4);
    assert_eq!(ReplayFlags::from_bits(1), ReplayFlags::ReplayOnlyCurrentThread);
    assert_eq!(ReplayFlags::from_bits(0), ReplayFlags::NoFlags);
    assert_eq!(ReplayFlags::ReplayAllSegmentsWithoutFiltering.bits(), 2);
    assert_eq!(ReplayFlags::default(), ReplayFlags::NoFlags);
    assert_eq!(ReplayFlags::NoFlags.to_string(), "None");
}

#[test]
fn banner_versions() {
    assert_eq!(parse_banner_version("ttd_ffi v0.1.0"), (0, 1, 0));
    assert_eq!(parse_banner_version("ttd_ffi v12.34.56"), (12, 34, 56));
    assert_eq!(parse_banner_version("ttd_ffi v18446744073709551615.0.1"), (usize::MAX, 0, 1));
    assert_eq!(parse_banner_version("ttd_ffi v12.34.56.78"), (0, 0, 0));
    assert_eq!(parse_banner_version("ttd_ffi v+3.1.7"), (0, 0, 0));
    assert_eq!(parse_banner_version("ttd_ffi v1.02.3"), (0, 0, 0));
    assert_eq!(parse_banner_version("ttd_ffi v3.x.7"), (0, 0, 0));
    assert_eq!(parse_banner_version("ttd_ffi v2"), (0, 0, 0));
    assert_eq!(parse_banner_version("ttd_ffi v1.2."), (0, 0, 0));
    assert_eq!(parse_banner_version("ttd_ffi v1.99999999999999999999999.2"), (0, 0, 0));
    assert_eq!(parse_banner_version("x.2"), (0, 0, 0));
    assert_eq!(parse_banner_version("4.ttd_ffi v5.6"), (0, 0, 0));
    assert_eq!(parse_banner_version("something else"), (0, 0, 0));
    assert_eq!(parse_banner_version(""), (0, 0, 0));
}

#[test]
fn engine_info_from_parts() {
    let info = EngineInfo::from_parts("MIT", "someone", "ttd_ffi v2.3.4", "ttd_ffi");
    assert_eq!((info.major, info.minor, info.patch), (2, 3, 4));
    assert_eq!(info.license, "MIT");
    assert_eq!(info.author, "someone");
    assert_eq!(info.banner, "ttd_ffi v2.3.4");
    assert_eq!(info.name, "ttd_ffi");
    let odd = EngineInfo::from_parts("", "", "other v1.2.3", "");
    assert_eq!((odd.major, odd.minor, odd.patch), (0, 0, 0));
}

#[test]
fn default_engine_info_is_new() {
    let a = EngineInfo::default();
    let b = EngineInfo::new();
    assert_eq!((a.major, a.minor, a.patch), (b.major, b.minor, b.patch));
    assert_eq!(a.banner, b.banner);
    assert_eq!(a.name, b.name);
}
