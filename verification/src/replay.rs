//! The replay engine and its cursors.
//!
//! The replay itself runs in the TTD SDK. The engine holds, as plain
//! values, what the SDK reports about a loaded trace; a cursor holds the
//! navigation state the library keeps. Each step that needs the SDK is split
//! in two: a verified function decides what to ask the SDK, and a verified
//! function takes the SDK's answer and computes the result and the next
//! state.
use vstd::prelude::*;

use crate::context::{architecture_of_code, pointer_width, ProcessorArchitecture};
use crate::error::Error;
use crate::events::{
    converts_loaded, converts_unloaded, event_of_code, EventType, Exception, ModuleLoaded,
    ModuleUnloaded, RawExceptionEvent, RawModuleLoadedEvent, RawModuleUnloadedEvent,
};
use crate::flags::ReplayFlags;
use crate::module::{converts_module, module_name_decodes, RawModule, ReplayModule};
use crate::position::{steps_after, steps_before, PositionRange, ReplayPosition};
use crate::sys_error;
use crate::system_info::SystemInfo;
use crate::text::chars_of;
use crate::utf16::{encode_utf16, lemma_utf16_round_trip, utf16_decode, utf16_encode};

verus! {

broadcast use vstd::seq_lib::group_seq_properties;



/// A thread of the traced process.
#[derive(Clone, Copy, Debug, PartialEq, Eq, Structural, Default)]
pub struct ThreadInfo {
    pub unique_id: u64,
    pub id: u32,
    pub lifetime: PositionRange,
    pub active_time: PositionRange,
}

/// A thread together with the positions the replay has reached on it.
#[derive(Clone, Copy, Debug, PartialEq, Eq, Structural, Default)]
pub struct ActiveThreadInfo {
    pub thread: ThreadInfo,
    pub current_position: ReplayPosition,
    pub last_valid_position: ReplayPosition,
}

/// A watchpoint on a memory range, triggered by the access kinds of its mask.
#[derive(Clone, Copy, Debug, PartialEq, Eq, Structural, Default)]
pub struct MemoryWatchpointData {
    pub address: u64,
    pub size: u64,
    pub access_mask: u8,
}

/// A watchpoint on a position, optionally restricted to one thread.
#[derive(Clone, Copy, Debug, PartialEq, Eq, Structural, Default)]
pub struct PositionWatchpointData {
    pub position: ReplayPosition,
    pub thread_id: u64,
}

/// Why a replay stopped and how much it executed, as the SDK reports it.
#[derive(Clone, Copy, Debug, PartialEq, Eq, Structural, Default)]
pub struct RawReplayResult {
    pub stop_reason: u8,
    pub steps_executed: u64,
    pub instructions_executed: u64,
}

/// Why a replay stopped and how much it executed.
#[derive(Clone, Copy, Debug, PartialEq, Eq, Structural)]
pub struct ReplayResult {
    /// The event that stopped the replay.
    pub stop_reason: EventType,
    /// How many steps ran.
    pub steps_executed: u64,
    /// How many instructions ran.
    pub instructions_executed: u64,
}

/// The result the library reports for a raw SDK result.
pub open spec fn replay_result_of(raw: RawReplayResult) -> ReplayResult {
    ReplayResult {
        stop_reason: event_of_code(raw.stop_reason),
        steps_executed: raw.steps_executed,
        instructions_executed: raw.instructions_executed,
    }
}

impl From<RawReplayResult> for ReplayResult {
    fn from(value: RawReplayResult) -> (r: ReplayResult) {
        ReplayResult {
            stop_reason: EventType::from(value.stop_reason),
            steps_executed: value.steps_executed,
            instructions_executed: value.instructions_executed,
        }
    }
}

impl vstd::std_specs::convert::FromSpecImpl<RawReplayResult> for ReplayResult {
    open spec fn obeys_from_spec() -> bool {
        true
    }

    open spec fn from_spec(value: RawReplayResult) -> ReplayResult {
        replay_result_of(value)
    }
}

/// Everything the SDK reports about a loaded trace.
#[derive(Clone, Debug)]
pub struct TraceData {
    pub system_info: SystemInfo,
    pub lifetime: PositionRange,
    pub modules: Vec<RawModule>,
    pub threads: Vec<ThreadInfo>,
    pub module_loaded_events: Vec<RawModuleLoadedEvent>,
    pub module_unloaded_events: Vec<RawModuleUnloadedEvent>,
    pub exception_events: Vec<RawExceptionEvent>,
}

/// The state of an engine before any trace is loaded: zeroed system
/// information, an empty lifetime and no module, thread or event.
pub open spec fn is_blank_trace(t: TraceData) -> bool {
    &&& t.system_info.architecture == 0
    &&& t.system_info.major_version == 0
    &&& t.system_info.minor_version == 0
    &&& t.system_info.build_number == 0
    &&& t.system_info.process_id == 0
    &&& (forall|i: int| 0 <= i < 64 ==> t.system_info.user_name@[i] == 0 && t.system_info.system_name@[i] == 0)
    &&& t.lifetime == (PositionRange { min: min_position(), max: min_position() })
    &&& t.modules@.len() == 0
    &&& t.threads@.len() == 0
    &&& t.module_loaded_events@.len() == 0
    &&& t.module_unloaded_events@.len() == 0
    &&& t.exception_events@.len() == 0
}

/// Replay direction.
#[derive(Clone, Copy, Debug, PartialEq, Eq, Structural)]
pub enum ReplayDirection {
    Forward,
    Backward,
}

/// What to ask the SDK: replay in a direction until a limit position (or an
/// earlier stopping event), with the cursor's replay flags and with its
/// memory and position watchpoints armed.
#[derive(Clone, Debug)]
pub struct ReplayRequest {
    pub direction: ReplayDirection,
    pub limit: ReplayPosition,
    pub flags: ReplayFlags,
    pub memory_watchpoints: Vec<MemoryWatchpointData>,
    pub position_watchpoints: Vec<PositionWatchpointData>,
}

/// The request carries the cursor's flags and watchpoints.
pub open spec fn carries_cursor_state(r: ReplayRequest, c: ReplayCursor) -> bool {
    &&& r.flags == c.flags_spec()
    &&& r.memory_watchpoints@ == c.memory_watchpoints_spec()
    &&& r.position_watchpoints@ == c.position_watchpoints_spec()
}

/// What the SDK answers to a replay request: its status code (zero on
/// success), its raw result, and where the cursor stands afterwards.
#[derive(Clone, Copy, Debug, PartialEq, Eq, Structural)]
pub struct ReplayOutcome {
    pub status: i32,
    pub result: RawReplayResult,
    pub position: ReplayPosition,
    pub previous_position: ReplayPosition,
}

/// What to ask the SDK: the bytes of a memory range at the cursor's position.
#[derive(Clone, Copy, Debug, PartialEq, Eq, Structural)]
pub struct MemoryRequest {
    pub address: u64,
    pub size: usize,
}

/// What the SDK answers to a memory request: its status code (zero on
/// success) and the bytes it wrote at the start of the buffer.
#[derive(Clone, Debug)]
pub struct MemoryOutcome {
    pub status: i32,
    pub data: Vec<u8>,
}

/// The buffer a memory read returns: `size` bytes, those the SDK wrote
/// first, zeros after them.
pub open spec fn memory_buffer(data: Seq<u8>, size: nat) -> Seq<u8> {
    Seq::new(size, |i: int| if i < data.len() { data[i] } else { 0u8 })
}

/// The last position a trace can have.
pub open spec fn max_position() -> ReplayPosition {
    ReplayPosition { sequence: 0xFFFF_FFFF_FFFF_FFFE, steps: 0xFFFF_FFFF_FFFF_FFFE }
}

/// The first position a trace can have.
pub open spec fn min_position() -> ReplayPosition {
    ReplayPosition { sequence: 0, steps: 0 }
}

/// The watchpoints after adding `w`: unchanged if it is already there.
pub open spec fn with_watchpoint<T>(s: Seq<T>, w: T) -> Seq<T> {
    if s.contains(w) {
        s
    } else {
        s.push(w)
    }
}

/// The watchpoints after removing `w`: every occurrence of it goes.
pub open spec fn without_watchpoint<T>(s: Seq<T>, w: T) -> Seq<T> {
    s.filter(differs_from(w))
}

/// The predicate of being different from `w`.
pub open spec fn differs_from<T>(w: T) -> spec_fn(T) -> bool {
    |x: T| x != w
}

/// The error a failed SDK call becomes.
pub open spec fn sdk_call_failed() -> Error {
    Error::TtdSysError(sys_error::Error::ForeignFunctionError)
}

/// A handle to a trace loaded for replay.
pub struct ReplayEngine {
    trace: TraceData,
}

/// A position in a trace from which to replay, read memory and registers.
pub struct ReplayCursor {
    position: ReplayPosition,
    previous_position: ReplayPosition,
    architecture: u16,
    flags: ReplayFlags,
    memory_watchpoints: Vec<MemoryWatchpointData>,
    position_watchpoints: Vec<PositionWatchpointData>,
}

impl ReplayEngine {
    /// What the SDK reports about the loaded trace.
    pub closed spec fn trace(&self) -> TraceData {
        self.trace
    }

    /// A blank engine: no trace loaded yet.
    pub fn new() -> (r: Result<Self, Error>)
        ensures
            r matches Ok(e) && is_blank_trace(e.trace()),
    {
        let trace = TraceData {
            system_info: SystemInfo::empty(),
            lifetime: PositionRange { min: ReplayCursor::min(), max: ReplayCursor::min() },
            modules: Vec::new(),
            threads: Vec::new(),
            module_loaded_events: Vec::new(),
            module_unloaded_events: Vec::new(),
            exception_events: Vec::new(),
        };
        Ok(ReplayEngine { trace })
    }

    /// An engine over a trace the SDK has loaded.
    pub fn open(trace: TraceData) -> (r: Result<Self, Error>)
        ensures
            r matches Ok(e) && e.trace() == trace,
    {
        Ok(ReplayEngine { trace })
    }

    /// The path of a trace as the SDK takes it: its UTF-16 units followed by
    /// a terminating zero. A path with a NUL character in it is refused.
    pub fn trace_path_units(path: &str) -> (r: Result<Vec<u16>, Error>)
        ensures
            r is Err <==> path@.contains('\0'),
            r matches Ok(v) ==> v@ == utf16_encode(path@).push(0u16),
            r matches Err(e) ==> e == Error::Null,
    {
        let cs = chars_of(path);
        let n = cs.len();
        let mut i: usize = 0;
        while i < n
            invariant
                n == cs@.len(),
                cs@ == path@,
                i <= n,
                forall|j: int| 0 <= j < i ==> cs@[j] != '\0',
            decreases n - i,
        {
            if cs[i] == '\0' {
                assert(path@[i as int] == '\0');
                return Err(Error::Null);
            }
            i = i + 1;
        }
        let mut units = encode_utf16(&cs);
        units.push(0);
        Ok(units)
    }

    /// The outcome of loading a trace, from the SDK's status code.
    pub fn load_outcome(status: i32) -> (r: Result<(), Error>)
        ensures
            r is Ok <==> status == 0,
            r matches Err(e) ==> e == Error::InitializationError,
    {
        if status == 0 {
            Ok(())
        } else {
            Err(Error::InitializationError)
        }
    }

    /// A new cursor, at the start of the trace's lifetime, with no flag and
    /// no watchpoint, once the SDK has created its own cursor
    /// (`sdk_cursor_created`); a failure of the SDK is a foreign-function
    /// error.
    pub fn cursor(&self, sdk_cursor_created: bool) -> (r: Result<ReplayCursor, Error>)
        ensures
            r is Ok <==> sdk_cursor_created,
            r matches Err(e) ==> e == sdk_call_failed(),
            r matches Ok(c) ==> {
                &&& c.position_spec() == self.trace().lifetime.min
                &&& c.previous_position_spec() == self.trace().lifetime.min
                &&& c.architecture_spec() == self.trace().system_info.architecture
                &&& c.flags_spec() == ReplayFlags::NoFlags
                &&& c.memory_watchpoints_spec().len() == 0
                &&& c.position_watchpoints_spec().len() == 0
            },
    {
        if !sdk_cursor_created {
            return Err(Error::TtdSysError(sys_error::Error::ForeignFunctionError));
        }
        Ok(ReplayCursor {
            position: self.trace.lifetime.min,
            previous_position: self.trace.lifetime.min,
            architecture: self.trace.system_info.architecture,
            flags: ReplayFlags::NoFlags,
            memory_watchpoints: Vec::new(),
            position_watchpoints: Vec::new(),
        })
    }

    /// The first and last positions of the trace.
    pub fn get_lifetime(&self) -> (r: &PositionRange)
        ensures
            *r == self.trace().lifetime,
    {
        &self.trace.lifetime
    }

    /// The outcome of building the trace index, from the SDK's status code.
    pub fn build_index(&self, status: u32) -> (r: Result<(), Error>)
        ensures
            r is Ok <==> status == 0,
            r matches Err(e) ==> e == Error::ForeignFunctionError,
    {
        if status == 0 {
            Ok(())
        } else {
            Err(Error::ForeignFunctionError)
        }
    }

    /// The system information recorded in the trace.
    pub fn system_info(&self) -> (r: Result<SystemInfo, Error>)
        ensures
            r == Ok::<SystemInfo, Error>(self.trace().system_info),
    {
        Ok(self.trace.system_info)
    }

    /// The identifier of the traced process.
    pub fn process_id(&self) -> (r: Result<u32, Error>)
        ensures
            r == Ok::<u32, Error>(self.trace().system_info.process_id),
    {
        let info = self.system_info();
        match info {
            Ok(info) => info.pid(),
            Err(e) => Err(e),
        }
    }

    /// The modules of the trace, converted one by one; the first module
    /// whose name is not valid UTF-16 makes the whole call fail.
    pub fn modules(&self) -> (r: Result<Vec<ReplayModule>, Error>)
        ensures
            r is Ok <==> (forall|i: int|
                0 <= i < self.trace().modules@.len() ==> module_name_decodes(#[trigger] self.trace().modules@[i])),
            r matches Ok(v) ==> v@.len() == self.trace().modules@.len() && (forall|i: int|
                0 <= i < v@.len() ==> converts_module(#[trigger] self.trace().modules@[i], v@[i])),
            r matches Err(e) ==> e == Error::TtdSysError(sys_error::Error::Utf16Error),
    {
        let raw = &self.trace.modules;
        let n = raw.len();
        let mut res: Vec<ReplayModule> = Vec::with_capacity(n);
        let mut i: usize = 0;
        while i < n
            invariant
                n == raw@.len(),
                raw == &self.trace().modules,
                i <= n,
                res@.len() == i,
                forall|j: int| 0 <= j < i ==> module_name_decodes(#[trigger] raw@[j]),
                forall|j: int| 0 <= j < i ==> converts_module(#[trigger] raw@[j], res@[j]),
            decreases n - i,
        {
            match ReplayModule::try_from(&raw[i]) {
                Ok(m) => res.push(m),
                Err(e) => {
                    return Err(Error::TtdSysError(e));
                },
            }
            i = i + 1;
        }
        Ok(res)
    }

    /// The threads of the trace.
    pub fn threads(&self) -> (r: Result<Vec<ThreadInfo>, Error>)
        ensures
            r matches Ok(v) && v@ == self.trace().threads@,
    {
        let raw = &self.trace.threads;
        let n = raw.len();
        let mut res: Vec<ThreadInfo> = Vec::with_capacity(n);
        let mut i: usize = 0;
        while i < n
            invariant
                n == raw@.len(),
                raw == &self.trace().threads,
                i <= n,
                res@ == raw@.take(i as int),
            decreases n - i,
        {
            res.push(raw[i]);
            assert(raw@.take(i + 1) =~= raw@.take(i as int).push(raw@[i as int]));
            i = i + 1;
        }
        assert(raw@.take(n as int) =~= raw@);
        Ok(res)
    }

    /// The module load events of the trace, converted one by one; the first
    /// whose module name is not valid UTF-16 makes the whole call fail.
    pub fn module_loaded_events(&self) -> (r: Result<Vec<ModuleLoaded>, Error>)
        ensures
            r is Ok <==> (forall|i: int|
                0 <= i < self.trace().module_loaded_events@.len()
                    ==> module_name_decodes((#[trigger] self.trace().module_loaded_events@[i]).module)),
            r matches Ok(v) ==> v@.len() == self.trace().module_loaded_events@.len() && (forall|i: int|
                0 <= i < v@.len() ==> converts_loaded(#[trigger] self.trace().module_loaded_events@[i], v@[i])),
            r matches Err(e) ==> e == Error::TtdSysError(sys_error::Error::Utf16Error),
    {
        let raw = &self.trace.module_loaded_events;
        let n = raw.len();
        let mut res: Vec<ModuleLoaded> = Vec::with_capacity(n);
        let mut i: usize = 0;
        while i < n
            invariant
                n == raw@.len(),
                raw == &self.trace().module_loaded_events,
                i <= n,
                res@.len() == i,
                forall|j: int| 0 <= j < i ==> module_name_decodes((#[trigger] raw@[j]).module),
                forall|j: int| 0 <= j < i ==> converts_loaded(#[trigger] raw@[j], res@[j]),
            decreases n - i,
        {
            match ModuleLoaded::try_from(&raw[i]) {
                Ok(m) => res.push(m),
                Err(e) => {
                    return Err(Error::TtdSysError(e));
                },
            }
            i = i + 1;
        }
        Ok(res)
    }

    /// The module unload events of the trace, converted one by one; the
    /// first whose module name is not valid UTF-16 makes the whole call fail.
    pub fn module_unloaded_events(&self) -> (r: Result<Vec<ModuleUnloaded>, Error>)
        ensures
            r is Ok <==> (forall|i: int|
                0 <= i < self.trace().module_unloaded_events@.len()
                    ==> module_name_decodes((#[trigger] self.trace().module_unloaded_events@[i]).module)),
            r matches Ok(v) ==> v@.len() == self.trace().module_unloaded_events@.len() && (forall|i: int|
                0 <= i < v@.len() ==> converts_unloaded(#[trigger] self.trace().module_unloaded_events@[i], v@[i])),
            r matches Err(e) ==> e == Error::TtdSysError(sys_error::Error::Utf16Error),
    {
        let raw = &self.trace.module_unloaded_events;
        let n = raw.len();
        let mut res: Vec<ModuleUnloaded> = Vec::with_capacity(n);
        let mut i: usize = 0;
        while i < n
            invariant
                n == raw@.len(),
                raw == &self.trace().module_unloaded_events,
                i <= n,
                res@.len() == i,
                forall|j: int| 0 <= j < i ==> module_name_decodes((#[trigger] raw@[j]).module),
                forall|j: int| 0 <= j < i ==> converts_unloaded(#[trigger] raw@[j], res@[j]),
            decreases n - i,
        {
            match ModuleUnloaded::try_from(&raw[i]) {
                Ok(m) => res.push(m),
                Err(e) => {
                    return Err(Error::TtdSysError(e));
                },
            }
            i = i + 1;
        }
        Ok(res)
    }

    /// The exception events of the trace, one exception for each recorded
    /// event, in order.
    pub fn exception_events(&self) -> (r: Result<Vec<Exception>, Error>)
        ensures
            r matches Ok(v) && v@.len() == self.trace().exception_events@.len(),
    {
        let raw = &self.trace.exception_events;
        let n = raw.len();
        let mut res: Vec<Exception> = Vec::with_capacity(n);
        let mut i: usize = 0;
        while i < n
            invariant
                n == raw@.len(),
                raw == &self.trace().exception_events,
                i <= n,
                res@.len() == i,
            decreases n - i,
        {
            match Exception::try_from(&raw[i]) {
                Ok(e) => res.push(e),
                Err(e) => {
                    return Err(Error::TtdSysError(e));
                },
            }
            i = i + 1;
        }
        Ok(res)
    }
}

impl ReplayCursor {
    /// The cursor's current position.
    pub closed spec fn position_spec(&self) -> ReplayPosition {
        self.position
    }

    /// The position the cursor was at before its last replay.
    pub closed spec fn previous_position_spec(&self) -> ReplayPosition {
        self.previous_position
    }

    /// The raw architecture code of the trace.
    pub closed spec fn architecture_spec(&self) -> u16 {
        self.architecture
    }

    /// The replay flags in force.
    pub closed spec fn flags_spec(&self) -> ReplayFlags {
        self.flags
    }

    /// The memory watchpoints in force.
    pub closed spec fn memory_watchpoints_spec(&self) -> Seq<MemoryWatchpointData> {
        self.memory_watchpoints@
    }

    /// The position watchpoints in force.
    pub closed spec fn position_watchpoints_spec(&self) -> Seq<PositionWatchpointData> {
        self.position_watchpoints@
    }

    /// How many memory watchpoints are in force.
    pub fn memory_watchpoint_count(&self) -> (r: usize)
        ensures
            r == self.memory_watchpoints_spec().len(),
    {
        self.memory_watchpoints.len()
    }

    /// The last position a trace can have.
    pub fn max() -> (r: ReplayPosition)
        ensures
            r == max_position(),
    {
        ReplayPosition { sequence: 0xFFFF_FFFF_FFFF_FFFE, steps: 0xFFFF_FFFF_FFFF_FFFE }
    }

    /// The first position a trace can have.
    pub fn min() -> (r: ReplayPosition)
        ensures
            r == min_position(),
    {
        ReplayPosition { sequence: 0, steps: 0 }
    }

    /// The request that replays in `direction` until `limit`, with the
    /// cursor's flags and watchpoints.
    fn request(&self, direction: ReplayDirection, limit: ReplayPosition) -> (r: ReplayRequest)
        ensures
            r.direction == direction,
            r.limit == limit,
            carries_cursor_state(r, *self),
    {
        ReplayRequest {
            direction,
            limit,
            flags: self.flags,
            memory_watchpoints: self.memory_watchpoints.clone(),
            position_watchpoints: self.position_watchpoints.clone(),
        }
    }

    /// The request that replays forward until `until`, or until the end of
    /// the trace when no limit is given.
    pub fn replay_forward(&self, until: Option<ReplayPosition>) -> (r: ReplayRequest)
        ensures
            r.direction == ReplayDirection::Forward,
            r.limit == match until {
                Some(p) => p,
                None => max_position(),
            },
            carries_cursor_state(r, *self),
    {
        let limit = match until {
            Some(p) => p,
            None => Self::max(),
        };
        self.request(ReplayDirection::Forward, limit)
    }

    /// The request that replays backward until `until`, or until the start
    /// of the trace when no limit is given.
    pub fn replay_backward(&self, until: Option<ReplayPosition>) -> (r: ReplayRequest)
        ensures
            r.direction == ReplayDirection::Backward,
            r.limit == match until {
                Some(p) => p,
                None => min_position(),
            },
            carries_cursor_state(r, *self),
    {
        let limit = match until {
            Some(p) => p,
            None => Self::min(),
        };
        self.request(ReplayDirection::Backward, limit)
    }

    /// The request that replays forward by `steps` steps from the current
    /// position.
    pub fn replay_forward_steps(&self, steps: u64) -> (r: ReplayRequest)
        requires
            self.position_spec().steps + steps <= u64::MAX,
        ensures
            r.direction == ReplayDirection::Forward,
            r.limit == steps_after(self.position_spec(), steps),
            carries_cursor_state(r, *self),
    {
        let until = self.position.add_steps(steps);
        self.replay_forward(Some(until))
    }

    /// The request that replays backward by `steps` steps from the current
    /// position.
    pub fn replay_backward_steps(&self, steps: u64) -> (r: ReplayRequest)
        requires
            steps <= self.position_spec().steps,
        ensures
            r.direction == ReplayDirection::Backward,
            r.limit == steps_before(self.position_spec(), steps),
            carries_cursor_state(r, *self),
    {
        let until = self.position.sub_steps(steps);
        self.replay_backward(Some(until))
    }

    /// Takes the SDK's answer to a replay request: the cursor moves to where
    /// the SDK stopped, and the result is the converted raw result when the
    /// SDK's status is zero, a foreign-function error otherwise.
    pub fn complete_replay(&mut self, outcome: ReplayOutcome) -> (r: Result<ReplayResult, Error>)
        ensures
            final(self).position_spec() == outcome.position,
            final(self).previous_position_spec() == outcome.previous_position,
            final(self).architecture_spec() == old(self).architecture_spec(),
            final(self).flags_spec() == old(self).flags_spec(),
            final(self).memory_watchpoints_spec() == old(self).memory_watchpoints_spec(),
            final(self).position_watchpoints_spec() == old(self).position_watchpoints_spec(),
            r is Ok <==> outcome.status == 0,
            r matches Ok(res) ==> res == replay_result_of(outcome.result),
            r matches Err(e) ==> e == sdk_call_failed(),
    {
        self.position = outcome.position;
        self.previous_position = outcome.previous_position;
        if outcome.status != 0 {
            return Err(Error::TtdSysError(sys_error::Error::ForeignFunctionError));
        }
        Ok(ReplayResult::from(outcome.result))
    }

    /// Places the cursor at `pos` at once, ignoring any event in between.
    pub fn set_position(&mut self, pos: &ReplayPosition)
        ensures
            final(self).position_spec() == *pos,
            final(self).previous_position_spec() == old(self).previous_position_spec(),
            final(self).architecture_spec() == old(self).architecture_spec(),
            final(self).flags_spec() == old(self).flags_spec(),
            final(self).memory_watchpoints_spec() == old(self).memory_watchpoints_spec(),
            final(self).position_watchpoints_spec() == old(self).position_watchpoints_spec(),
    {
        self.position = *pos;
    }

    /// The cursor's current position.
    pub fn position(&self) -> (r: Result<ReplayPosition, Error>)
        ensures
            r == Ok::<ReplayPosition, Error>(self.position_spec()),
    {
        Ok(self.position)
    }

    /// The position the cursor was at before its last replay.
    pub fn previous_position(&self) -> (r: Result<ReplayPosition, Error>)
        ensures
            r == Ok::<ReplayPosition, Error>(self.previous_position_spec()),
    {
        Ok(self.previous_position)
    }

    /// Which register set to ask the SDK for: the one of the trace's
    /// architecture; an unknown architecture code is a conversion error.
    pub fn thread_context(&self) -> (r: Result<ProcessorArchitecture, Error>)
        ensures
            r is Ok <==> architecture_of_code(self.architecture_spec()) is Some,
            r matches Ok(a) ==> architecture_of_code(self.architecture_spec()) == Some(a),
            r matches Err(e) ==> e == Error::TtdSysError(sys_error::Error::ConversionError),
    {
        match ProcessorArchitecture::try_from(self.architecture) {
            Ok(a) => Ok(a),
            Err(e) => Err(Error::TtdSysError(e)),
        }
    }

    /// Which extended register set to ask the SDK for: the one of the
    /// trace's architecture; an unknown architecture code is a conversion
    /// error.
    pub fn thread_extended_context(&self) -> (r: Result<ProcessorArchitecture, Error>)
        ensures
            r is Ok <==> architecture_of_code(self.architecture_spec()) is Some,
            r matches Ok(a) ==> architecture_of_code(self.architecture_spec()) == Some(a),
            r matches Err(e) ==> e == Error::TtdSysError(sys_error::Error::ConversionError),
    {
        self.thread_context()
    }

    /// The size of a pointer in the traced process: 8 bytes on x64 and
    /// ARM64, 4 on x86.
    pub fn pointer_size(&self) -> (r: Result<usize, Error>)
        ensures
            r is Ok <==> architecture_of_code(self.architecture_spec()) is Some,
            r matches Ok(n) ==> n == pointer_width(architecture_of_code(self.architecture_spec())->0),
            r matches Err(e) ==> e == Error::TtdSysError(sys_error::Error::ConversionError),
    {
        match self.thread_context() {
            Ok(a) => Ok(a.pointer_size()),
            Err(e) => Err(e),
        }
    }

    /// The request for `size` bytes of memory at `address`.
    pub fn read_memory(&self, address: u64, size: usize) -> (r: MemoryRequest)
        ensures
            r.address == address,
            r.size == size,
    {
        MemoryRequest { address, size }
    }

    /// Takes the SDK's answer to a memory request: a buffer of the requested
    /// size holding what the SDK wrote, or a foreign-function error when its
    /// status is not zero.
    pub fn complete_read(&self, request: &MemoryRequest, outcome: MemoryOutcome) -> (r: Result<Vec<u8>, Error>)
        ensures
            r is Ok <==> outcome.status == 0,
            r matches Ok(v) ==> v@ == memory_buffer(outcome.data@, request.size as nat),
            r matches Err(e) ==> e == sdk_call_failed(),
    {
        if outcome.status != 0 {
            return Err(Error::TtdSysError(sys_error::Error::ForeignFunctionError));
        }
        let size = request.size;
        let data = &outcome.data;
        let mut buffer: Vec<u8> = Vec::with_capacity(size);
        let mut i: usize = 0;
        while i < size
            invariant
                i <= size,
                size == request.size,
                data == &outcome.data,
                buffer@ == memory_buffer(data@, size as nat).take(i as int),
            decreases size - i,
        {
            let b: u8 = if i < data.len() {
                data[i]
            } else {
                0
            };
            buffer.push(b);
            assert(buffer@ =~= memory_buffer(data@, size as nat).take(i + 1));
            i = i + 1;
        }
        assert(memory_buffer(data@, size as nat).take(size as int) =~= memory_buffer(data@, size as nat));
        Ok(buffer)
    }

    /// The replay flags in force.
    pub fn get_replay_flags(&self) -> (r: Result<ReplayFlags, Error>)
        ensures
            r == Ok::<ReplayFlags, Error>(self.flags_spec()),
    {
        Ok(self.flags)
    }

    /// Replaces the replay flags.
    pub fn set_replay_flags(&mut self, flags: ReplayFlags)
        ensures
            final(self).flags_spec() == flags,
            final(self).position_spec() == old(self).position_spec(),
            final(self).previous_position_spec() == old(self).previous_position_spec(),
            final(self).architecture_spec() == old(self).architecture_spec(),
            final(self).memory_watchpoints_spec() == old(self).memory_watchpoints_spec(),
            final(self).position_watchpoints_spec() == old(self).position_watchpoints_spec(),
    {
        self.flags = flags;
    }

    /// Adds a memory watchpoint; `true` when it was added, `false` when it
    /// was already present.
    pub fn add_memory_watchpoint(&mut self, watch_point: &MemoryWatchpointData) -> (r: Result<bool, Error>)
        ensures
            r == Ok::<bool, Error>(!old(self).memory_watchpoints_spec().contains(*watch_point)),
            final(self).memory_watchpoints_spec() == with_watchpoint(old(self).memory_watchpoints_spec(), *watch_point),
            final(self).position_watchpoints_spec() == old(self).position_watchpoints_spec(),
            final(self).position_spec() == old(self).position_spec(),
            final(self).previous_position_spec() == old(self).previous_position_spec(),
            final(self).architecture_spec() == old(self).architecture_spec(),
            final(self).flags_spec() == old(self).flags_spec(),
    {
        if find_watchpoint(&self.memory_watchpoints, watch_point) {
            Ok(false)
        } else {
            self.memory_watchpoints.push(*watch_point);
            Ok(true)
        }
    }

    /// Removes a memory watchpoint; `true` when it was present.
    pub fn remove_memory_watchpoint(&mut self, watch_point: &MemoryWatchpointData) -> (r: Result<bool, Error>)
        ensures
            r == Ok::<bool, Error>(old(self).memory_watchpoints_spec().contains(*watch_point)),
            final(self).memory_watchpoints_spec() == without_watchpoint(old(self).memory_watchpoints_spec(), *watch_point),
            final(self).position_watchpoints_spec() == old(self).position_watchpoints_spec(),
            final(self).position_spec() == old(self).position_spec(),
            final(self).previous_position_spec() == old(self).previous_position_spec(),
            final(self).architecture_spec() == old(self).architecture_spec(),
            final(self).flags_spec() == old(self).flags_spec(),
    {
        let (kept, found) = drop_watchpoint(&self.memory_watchpoints, watch_point);
        self.memory_watchpoints = kept;
        Ok(found)
    }

    /// Adds a position watchpoint; `true` when it was added, `false` when it
    /// was already present.
    pub fn add_position_watchpoint(&mut self, watch_point: &PositionWatchpointData) -> (r: Result<bool, Error>)
        ensures
            r == Ok::<bool, Error>(!old(self).position_watchpoints_spec().contains(*watch_point)),
            final(self).position_watchpoints_spec() == with_watchpoint(old(self).position_watchpoints_spec(), *watch_point),
            final(self).memory_watchpoints_spec() == old(self).memory_watchpoints_spec(),
            final(self).position_spec() == old(self).position_spec(),
            final(self).previous_position_spec() == old(self).previous_position_spec(),
            final(self).architecture_spec() == old(self).architecture_spec(),
            final(self).flags_spec() == old(self).flags_spec(),
    {
        if find_watchpoint(&self.position_watchpoints, watch_point) {
            Ok(false)
        } else {
            self.position_watchpoints.push(*watch_point);
            Ok(true)
        }
    }

    /// Removes a position watchpoint; `true` when it was present.
    pub fn remove_position_watchpoint(&mut self, watch_point: &PositionWatchpointData) -> (r: Result<bool, Error>)
        ensures
            r == Ok::<bool, Error>(old(self).position_watchpoints_spec().contains(*watch_point)),
            final(self).position_watchpoints_spec() == without_watchpoint(old(self).position_watchpoints_spec(), *watch_point),
            final(self).memory_watchpoints_spec() == old(self).memory_watchpoints_spec(),
            final(self).position_spec() == old(self).position_spec(),
            final(self).previous_position_spec() == old(self).previous_position_spec(),
            final(self).architecture_spec() == old(self).architecture_spec(),
            final(self).flags_spec() == old(self).flags_spec(),
    {
        let (kept, found) = drop_watchpoint(&self.position_watchpoints, watch_point);
        self.position_watchpoints = kept;
        Ok(found)
    }

}

/// A watchpoint kind whose values can be compared.
pub(crate) trait Watchpoint: Copy {
    /// Whether two watchpoints are the same.
    fn same(&self, other: &Self) -> (r: bool)
        ensures
            r == (*self == *other),
    ;
}

impl Watchpoint for MemoryWatchpointData {
    fn same(&self, other: &Self) -> (r: bool) {
        *self == *other
    }
}

impl Watchpoint for PositionWatchpointData {
    fn same(&self, other: &Self) -> (r: bool) {
        *self == *other
    }
}

/// Whether `w` is in the list.
fn find_watchpoint<T: Watchpoint>(list: &Vec<T>, w: &T) -> (r: bool)
    ensures
        r == list@.contains(*w),
{
    let n = list.len();
    let mut i: usize = 0;
    while i < n
        invariant
            n == list@.len(),
            i <= n,
            forall|j: int| 0 <= j < i ==> list@[j] != *w,
        decreases n - i,
    {
        if list[i].same(w) {
            assert(list@[i as int] == *w);
            return true;
        }
        i = i + 1;
    }
    false
}

/// The list without `w`, and whether `w` was in it.
fn drop_watchpoint<T: Watchpoint>(list: &Vec<T>, w: &T) -> (r: (Vec<T>, bool))
    ensures
        r.0@ == without_watchpoint(list@, *w),
        r.1 == list@.contains(*w),
{
    let ghost pred = differs_from(*w);
    let n = list.len();
    let mut kept: Vec<T> = Vec::new();
    let mut found = false;
    let mut i: usize = 0;
    while i < n
        invariant
            n == list@.len(),
            i <= n,
            kept@ == list@.take(i as int).filter(pred),
            found == list@.take(i as int).contains(*w),
            pred == differs_from(*w),
        decreases n - i,
    {
        let x = list[i];
        let ghost prefix = list@.take(i as int);
        assert(list@.take(i + 1) =~= prefix.push(x));
        proof {
            prefix.lemma_filter_push(x, pred);
        }
        if x.same(w) {
            found = true;
            assert(list@.take(i + 1)[i as int] == *w);
        } else {
            kept.push(x);
        }
        i = i + 1;
    }
    assert(list@.take(n as int) =~= list@);
    (kept, found)
}

/// The units handed to the SDK for a trace path, without their terminating
/// zero, decode back to the path.
pub proof fn lemma_trace_path_units_decode(path: Seq<char>)
    ensures
        utf16_decode(utf16_encode(path).push(0u16).drop_last()) == Some(path),
{
    assert(utf16_encode(path).push(0u16).drop_last() =~= utf16_encode(path));
    lemma_utf16_round_trip(path);
}

/// Adding a watchpoint that is not there and then removing it leaves the
/// watchpoints as they were.
pub proof fn lemma_add_then_remove_watchpoint<T>(s: Seq<T>, w: T)
    requires
        !s.contains(w),
    ensures
        without_watchpoint(with_watchpoint(s, w), w) == s,
{
    s.lemma_filter_push(w, differs_from(w));
    lemma_filter_keeps_all(s, w);
}

/// Filtering out an element that does not occur changes nothing.
proof fn lemma_filter_keeps_all<T>(s: Seq<T>, w: T)
    requires
        !s.contains(w),
    ensures
        s.filter(differs_from(w)) == s,
    decreases s.len(),
{
    if s.len() > 0 {
        let init = s.drop_last();
        assert(init.push(s.last()) =~= s);
        assert(!init.contains(w)) by {
            if init.contains(w) {
                let k = choose|k: int| 0 <= k < init.len() && init[k] == w;
                assert(s[k] == w);
            }
        }
        lemma_filter_keeps_all(init, w);
        init.lemma_filter_push(s.last(), differs_from(w));
    } else {
        assert(s.filter(differs_from(w)) =~= s);
    }
}

/// After a removal the watchpoint is gone, and every other watchpoint stays.
pub proof fn lemma_remove_watchpoint_effect<T>(s: Seq<T>, w: T, x: T)
    ensures
        !without_watchpoint(s, w).contains(w),
        x != w ==> (without_watchpoint(s, w).contains(x) <==> s.contains(x)),
{
    broadcast use vstd::seq_lib::group_filter_ensures;

    let f = without_watchpoint(s, w);
    if f.contains(w) {
        let k = choose|k: int| 0 <= k < f.len() && f[k] == w;
        s.lemma_filter_pred(differs_from(w), k);
    }
    if x != w && s.contains(x) {
        let k = choose|k: int| 0 <= k < s.len() && s[k] == x;
        s.lemma_filter_contains(differs_from(w), k);
    }
    if x != w && f.contains(x) {
        s.lemma_filter_contains_rev(differs_from(w), x);
    }
}

/// Once a memory watchpoint is removed from a cursor, the replay requests
/// the cursor makes no longer arm it.
pub proof fn lemma_removed_watchpoint_not_requested(
    before: Seq<MemoryWatchpointData>,
    w: MemoryWatchpointData,
    c: ReplayCursor,
    r: ReplayRequest,
)
    requires
        c.memory_watchpoints_spec() == without_watchpoint(before, w),
        carries_cursor_state(r, c),
    ensures
        !r.memory_watchpoints@.contains(w),
{
    lemma_remove_watchpoint_effect(before, w, w);
}

/// Adding a watchpoint makes it present, keeps every other one, and adding
/// it again changes nothing.
pub proof fn lemma_add_watchpoint_effect<T>(s: Seq<T>, w: T, x: T)
    ensures
        with_watchpoint(s, w).contains(w),
        x != w ==> (with_watchpoint(s, w).contains(x) <==> s.contains(x)),
        with_watchpoint(with_watchpoint(s, w), w) == with_watchpoint(s, w),
{
    let a = with_watchpoint(s, w);
    if !s.contains(w) {
        assert(a[s.len() as int] == w);
        if x != w && s.contains(x) {
            let k = choose|k: int| 0 <= k < s.len() && s[k] == x;
            assert(a[k] == x);
        }
        if x != w && a.contains(x) {
            let k = choose|k: int| 0 <= k < a.len() && a[k] == x;
            assert(s[k] == x);
        }
    }
}

} // verus!
