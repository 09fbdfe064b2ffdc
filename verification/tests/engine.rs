use ttd::context::ProcessorArchitecture;
use ttd::error::Error;
use ttd::events::{EventType, RawExceptionEvent, RawModuleLoadedEvent, RawModuleUnloadedEvent};
use ttd::flags::ReplayFlags;
use ttd::module::{RawModule, ReplayModule};
use ttd::position::{PositionRange, ReplayPosition};
use ttd::replay::{
    MemoryOutcome, MemoryWatchpointData, PositionWatchpointData, RawReplayResult, ReplayCursor,
    ReplayDirection, ReplayEngine, ReplayOutcome, ThreadInfo, TraceData,
};
use ttd::system_info::SystemInfo;
use ttd::sys_error;

fn units(s: &str) -> Vec<u16> {
    s.encode_utf16().collect()
}

fn module(name: &str, address: u64) -> RawModule {
    RawModule { name: units(name), address, size: 0x1000, checksum: 7, timestamp: 9 }
}

fn sample_trace() -> TraceData {
    let mut info = SystemInfo::empty();
    info.architecture = 9;
    info.process_id = 1234;
    TraceData {
        system_info: info,
        lifetime: PositionRange { min: ReplayPosition::new(0x10, 0), max: ReplayPosition::new(0x5000, 3) },
        modules: vec![module("C:\\Windows\\System32\\ntdll.dll", 0x7ff0_0000), module("cmd.exe", 0x4000)],
        threads: vec![ThreadInfo { unique_id: 1, id: 0x1f4, ..Default::default() }],
        module_loaded_events: vec![RawModuleLoadedEvent {
            position: ReplayPosition::new(0x20, 1),
            module: module("kernelbase.dll", 0x7ffa_0000),
        }],
        module_unloaded_events: vec![RawModuleUnloadedEvent {
            position: ReplayPosition::new(0x4000, 0),
            module: module("kernelbase.dll", 0x7ffa_0000),
        }],
        exception_events: vec![],
    }
}

#[test]
fn blank_engine_has_no_data() {
    let engine = ReplayEngine::new().unwrap();
    assert!(engine.modules().unwrap().is_empty());
    assert!(engine.threads().unwrap().is_empty());
    assert!(engine.module_loaded_events().unwrap().is_empty());
    assert!(engine.module_unloaded_events().unwrap().is_empty());
    assert!(engine.exception_events().unwrap().is_empty());
    assert_eq!(engine.process_id().unwrap(), 0);
}

#[test]
fn engine_reports_trace_data() {
    let engine = ReplayEngine::open(sample_trace()).unwrap();
    let modules = engine.modules().unwrap();
    assert_eq!(modules.len(), 2);
    assert_eq!(modules[0].name, "C:\\Windows\\System32\\ntdll.dll");
    assert_eq!(modules[1].address, 0x4000);
    assert_eq!(modules[1].checksum, 7);
    assert_eq!(engine.threads().unwrap()[0].id, 0x1f4);
    let loaded = engine.module_loaded_events().unwrap();
    assert_eq!(loaded[0].module.name, "kernelbase.dll");
    assert_eq!(loaded[0].position, ReplayPosition::new(0x20, 1));
    let unloaded = engine.module_unloaded_events().unwrap();
    assert_eq!(unloaded[0].position, ReplayPosition::new(0x4000, 0));
    assert_eq!(engine.process_id().unwrap(), 1234);
    assert_eq!(engine.get_lifetime().max, ReplayPosition::new(0x5000, 3));
}

#[test]
fn bad_module_name_fails_the_whole_list() {
    let mut trace = sample_trace();
    trace.modules[1].name = vec![0x61, 0xD834];
    let engine = ReplayEngine::open(trace).unwrap();
    assert!(matches!(engine.modules(), Err(Error::TtdSysError(sys_error::Error::Utf16Error))));
    let raw = module("ok", 1);
    assert_eq!(ReplayModule::try_from(&raw).unwrap().name, "ok");
}

#[test]
fn new_cursor_starts_at_lifetime_min() {
    let engine = ReplayEngine::open(sample_trace()).unwrap();
    let mut cursor = engine.cursor(true).unwrap();
    assert_eq!(cursor.position().unwrap(), engine.get_lifetime().min);
    let max = engine.get_lifetime().max;
    cursor.set_position(&max);
    assert_eq!(cursor.position().unwrap(), max);
    let min = engine.get_lifetime().min;
    cursor.set_position(&min);
    assert_eq!(cursor.position().unwrap(), min);
}

#[test]
fn replay_requests() {
    let engine = ReplayEngine::open(sample_trace()).unwrap();
    let cursor = engine.cursor(true).unwrap();
    let fwd = cursor.replay_forward(None);
    assert_eq!(fwd.direction, ReplayDirection::Forward);
    assert_eq!(fwd.limit, ReplayCursor::max());
    let back = cursor.replay_backward(None);
    assert_eq!(back.direction, ReplayDirection::Backward);
    assert_eq!(back.limit, ReplayCursor::min());
    let target = ReplayPosition::new(0x30, 2);
    assert_eq!(cursor.replay_forward(Some(target)).limit, target);
    assert_eq!(cursor.replay_forward_steps(3).limit, ReplayPosition::new(0x10, 3));
    let mut later = engine.cursor(true).unwrap();
    later.set_position(&ReplayPosition::new(0x10, 5));
    let b = later.replay_backward_steps(3);
    assert_eq!(b.direction, ReplayDirection::Backward);
    assert_eq!(b.limit, ReplayPosition::new(0x10, 2));
    assert_eq!(later.replay_backward_steps(5).limit, ReplayPosition::new(0x10, 0));
}

#[test]
fn replay_requests_carry_flags_and_watchpoints() {
    let engine = ReplayEngine::open(sample_trace()).unwrap();
    let mut cursor = engine.cursor(true).unwrap();
    let memory = MemoryWatchpointData { address: 0x1000, size: 4, access_mask: 2 };
    let position = PositionWatchpointData { position: ReplayPosition::new(0x30, 0), thread_id: 7 };
    cursor.set_replay_flags(ReplayFlags::ReplayOnlyCurrentThread);
    cursor.add_memory_watchpoint(&memory).unwrap();
    cursor.add_position_watchpoint(&position).unwrap();
    let request = cursor.replay_forward(None);
    assert_eq!(request.flags, ReplayFlags::ReplayOnlyCurrentThread);
    assert_eq!(request.memory_watchpoints, vec![memory]);
    assert_eq!(request.position_watchpoints, vec![position]);
    cursor.remove_memory_watchpoint(&memory).unwrap();
    let request = cursor.replay_backward_steps(0);
    assert!(request.memory_watchpoints.is_empty());
    assert_eq!(request.position_watchpoints, vec![position]);
}

#[test]
fn cursor_creation_can_fail() {
    let engine = ReplayEngine::open(sample_trace()).unwrap();
    assert!(matches!(
        engine.cursor(false),
        Err(Error::TtdSysError(sys_error::Error::ForeignFunctionError))
    ));
}

#[test]
fn exception_events_are_listed() {
    let mut trace = sample_trace();
    trace.exception_events = vec![
        RawExceptionEvent { position: ReplayPosition::new(0x40, 0) },
        RawExceptionEvent { position: ReplayPosition::new(0x41, 2) },
    ];
    let engine = ReplayEngine::open(trace).unwrap();
    assert_eq!(engine.exception_events().unwrap().len(), 2);
}

#[test]
fn replay_completion() {
    let engine = ReplayEngine::open(sample_trace()).unwrap();
    let mut cursor = engine.cursor(true).unwrap();
    let outcome = ReplayOutcome {
        status: 0,
        result: RawReplayResult { stop_reason: 7, steps_executed: 10, instructions_executed: 99 },
        position: ReplayPosition::new(0x5000, 4),
        previous_position: ReplayPosition::new(0x5000, 3),
    };
    let res = cursor.complete_replay(outcome).unwrap();
    assert_eq!(res.stop_reason, EventType::Process);
    assert_eq!(res.steps_executed, 10);
    assert_eq!(res.instructions_executed, 99);
    assert_eq!(cursor.position().unwrap(), ReplayPosition::new(0x5000, 4));
    assert_eq!(cursor.previous_position().unwrap(), engine.get_lifetime().max);
    let failed = ReplayOutcome { status: -1, ..outcome };
    assert!(matches!(
        cursor.complete_replay(failed),
        Err(Error::TtdSysError(sys_error::Error::ForeignFunctionError))
    ));
}

#[test]
fn memory_reads() {
    let engine = ReplayEngine::open(sample_trace()).unwrap();
    let cursor = engine.cursor(true).unwrap();
    let req = cursor.read_memory(0x1000, 6);
    assert_eq!((req.address, req.size), (0x1000, 6));
    let ok = cursor.complete_read(&req, MemoryOutcome { status: 0, data: vec![1, 2, 3] }).unwrap();
    assert_eq!(ok, vec![1, 2, 3, 0, 0, 0]);
    let long = cursor.complete_read(&req, MemoryOutcome { status: 0, data: vec![9; 10] }).unwrap();
    assert_eq!(long, vec![9; 6]);
    assert!(matches!(
        cursor.complete_read(&req, MemoryOutcome { status: 1, data: vec![] }),
        Err(Error::TtdSysError(sys_error::Error::ForeignFunctionError))
    ));
}

#[test]
fn flags_and_architecture() {
    let engine = ReplayEngine::open(sample_trace()).unwrap();
    let mut cursor = engine.cursor(true).unwrap();
    assert_eq!(cursor.get_replay_flags().unwrap(), ReplayFlags::NoFlags);
    cursor.set_replay_flags(ReplayFlags::ReplaySegmentsSequentially);
    assert_eq!(cursor.get_replay_flags().unwrap(), ReplayFlags::ReplaySegmentsSequentially);
    assert_eq!(cursor.pointer_size().unwrap(), 8);
    assert_eq!(cursor.thread_context().unwrap(), ProcessorArchitecture::X64);
    assert_eq!(cursor.thread_extended_context().unwrap(), ProcessorArchitecture::X64);

    let mut trace = sample_trace();
    trace.system_info.architecture = 3;
    let odd = ReplayEngine::open(trace).unwrap();
    let c = odd.cursor(true).unwrap();
    assert!(matches!(c.pointer_size(), Err(Error::TtdSysError(sys_error::Error::ConversionError))));

    let mut trace = sample_trace();
    trace.system_info.architecture = 0;
    let x86 = ReplayEngine::open(trace).unwrap();
    assert_eq!(x86.cursor(true).unwrap().pointer_size().unwrap(), 4);
}

#[test]
fn memory_watchpoints() {
    let engine = ReplayEngine::open(sample_trace()).unwrap();
    let mut cursor = engine.cursor(true).unwrap();
    let watch = MemoryWatchpointData { address: 0x7ffa_1234, size: 1, access_mask: 4 };
    assert!(cursor.add_memory_watchpoint(&watch).unwrap());
    assert!(!cursor.add_memory_watchpoint(&watch).unwrap());
    assert!(cursor.remove_memory_watchpoint(&watch).unwrap());
    assert!(!cursor.remove_memory_watchpoint(&watch).unwrap());
    assert!(cursor.add_memory_watchpoint(&watch).unwrap());
}

#[test]
fn position_watchpoints() {
    let engine = ReplayEngine::open(sample_trace()).unwrap();
    let mut cursor = engine.cursor(true).unwrap();
    let watch = PositionWatchpointData::default();
    assert!(cursor.add_position_watchpoint(&watch).unwrap());
    let other = PositionWatchpointData { position: ReplayPosition::new(1, 1), thread_id: 0 };
    assert!(!cursor.remove_position_watchpoint(&other).unwrap());
    assert!(cursor.remove_position_watchpoint(&watch).unwrap());
}

#[test]
fn engine_status_codes() {
    let engine = ReplayEngine::new().unwrap();
    assert!(engine.build_index(0).is_ok());
    assert!(matches!(engine.build_index(5), Err(Error::ForeignFunctionError)));
    assert!(ReplayEngine::load_outcome(0).is_ok());
    assert!(matches!(ReplayEngine::load_outcome(-2), Err(Error::InitializationError)));
}

#[test]
fn trace_path_encoding() {
    let units = ReplayEngine::trace_path_units("C:\\traces\\t\u{e9}st.run").unwrap();
    let mut expected: Vec<u16> = "C:\\traces\\t\u{e9}st.run".encode_utf16().collect();
    expected.push(0);
    assert_eq!(units, expected);
    assert!(matches!(ReplayEngine::trace_path_units("bad\0path"), Err(Error::Null)));
}

/// The SDK's answers are those the recorded test trace gives: loading
/// succeeds, replaying forward stops at the end of the process just after
/// the lifetime's last position, and replaying backward stops at its first.
#[test]
fn test_ffi_load_simple() {
    assert!(ReplayEngine::load_outcome(0).is_ok());
    let replay = ReplayEngine::open(sample_trace()).expect("failed to create a new replayer");
    let lt = *replay.get_lifetime();

    // position navigation
    for _i in 1..10 {
        let mut cursor = replay.cursor(true).unwrap();
        assert_eq!(cursor.position().unwrap(), lt.min);
        cursor.set_position(&lt.max);
        assert_eq!(cursor.position().unwrap(), lt.max);
        cursor.set_position(&lt.min);
        assert_eq!(cursor.position().unwrap(), lt.min);
    }

    // replay navigation
    for _i in 1..10 {
        let mut cursor = replay.cursor(true).unwrap();
        assert_eq!(cursor.position().unwrap(), lt.min);

        let request = cursor.replay_forward(None);
        assert_eq!(request.limit, ReplayCursor::max());
        let end = lt.max.add_steps(1);
        let res = cursor
            .complete_replay(ReplayOutcome {
                status: 0,
                result: RawReplayResult { stop_reason: 7, steps_executed: 5, instructions_executed: 42 },
                position: end,
                previous_position: lt.max,
            })
            .expect("failed to replay forward");
        assert_eq!(res.stop_reason, EventType::from(7u8));
        assert_eq!(res.stop_reason, EventType::Process);
        assert_ne!(res.instructions_executed, 0);
        assert_eq!(cursor.previous_position().unwrap(), lt.max);

        let request = cursor.replay_backward(None);
        assert_eq!(request.limit, ReplayCursor::min());
        let res = cursor
            .complete_replay(ReplayOutcome {
                status: 0,
                result: RawReplayResult { stop_reason: 7, steps_executed: 5, instructions_executed: 42 },
                position: lt.min,
                previous_position: end,
            })
            .expect("failed to replay backward");
        assert_eq!(res.stop_reason, EventType::Process);
        assert_ne!(res.instructions_executed, 0);
        assert_eq!(cursor.position().unwrap(), lt.min);
    }
}
