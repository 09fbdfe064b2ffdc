//! Replay events: why a replay stopped, data access kinds, and the module
//! load and unload events of a trace.
use vstd::prelude::*;

use crate::module::{converts_module, module_name_decodes, RawModule, ReplayModule};
use crate::position::ReplayPosition;
use crate::sys_error;
use crate::text::push_str;

verus! {

/// The kinds of event that stop a replay.
#[derive(Clone, Copy, Debug, PartialEq, Eq, Structural)]
pub enum EventType {
    MemoryWatchpoint,
    PositionWatchpoint,
    Exception,
    Gap,
    Thread,
    StepCount,
    Position,
    Process,
    Interrupted,
    Error,
    Count,
    Invalid,
}

/// The event kind of a raw SDK code; codes past the last kind are invalid.
pub open spec fn event_of_code(value: u8) -> EventType {
    if value == 0 {
        EventType::MemoryWatchpoint
    } else if value == 1 {
        EventType::PositionWatchpoint
    } else if value == 2 {
        EventType::Exception
    } else if value == 3 {
        EventType::Gap
    } else if value == 4 {
        EventType::Thread
    } else if value == 5 {
        EventType::StepCount
    } else if value == 6 {
        EventType::Position
    } else if value == 7 {
        EventType::Process
    } else if value == 8 {
        EventType::Interrupted
    } else if value == 9 {
        EventType::Error
    } else if value == 10 {
        EventType::Count
    } else {
        EventType::Invalid
    }
}

/// The displayed name of an event kind.
pub open spec fn event_name(e: EventType) -> Seq<char> {
    match e {
        EventType::MemoryWatchpoint => "MemoryWatchpoint"@,
        EventType::PositionWatchpoint => "PositionWatchpoint"@,
        EventType::Exception => "Exception"@,
        EventType::Gap => "Gap"@,
        EventType::Thread => "Thread"@,
        EventType::StepCount => "StepCount"@,
        EventType::Position => "Position"@,
        EventType::Process => "Process"@,
        EventType::Interrupted => "Interrupted"@,
        EventType::Error => "Error"@,
        EventType::Count => "Count"@,
        EventType::Invalid => "Invalid"@,
    }
}

impl From<u8> for EventType {
    fn from(value: u8) -> (r: EventType) {
        match value {
            0 => EventType::MemoryWatchpoint,
            1 => EventType::PositionWatchpoint,
            2 => EventType::Exception,
            3 => EventType::Gap,
            4 => EventType::Thread,
            5 => EventType::StepCount,
            6 => EventType::Position,
            7 => EventType::Process,
            8 => EventType::Interrupted,
            9 => EventType::Error,
            10 => EventType::Count,
            _ => EventType::Invalid,
        }
    }
}

impl vstd::std_specs::convert::FromSpecImpl<u8> for EventType {
    open spec fn obeys_from_spec() -> bool {
        true
    }

    open spec fn from_spec(value: u8) -> EventType {
        event_of_code(value)
    }
}

impl EventType {
    /// The event kind of a raw SDK code.
    pub fn from_code(value: u8) -> (r: EventType)
        ensures
            r == event_of_code(value),
    {
        EventType::from(value)
    }

    /// The kind's name.
    pub fn to_string(&self) -> (r: String)
        ensures
            r@ == event_name(*self),
    {
        let name = match self {
            EventType::MemoryWatchpoint => "MemoryWatchpoint",
            EventType::PositionWatchpoint => "PositionWatchpoint",
            EventType::Exception => "Exception",
            EventType::Gap => "Gap",
            EventType::Thread => "Thread",
            EventType::StepCount => "StepCount",
            EventType::Position => "Position",
            EventType::Process => "Process",
            EventType::Interrupted => "Interrupted",
            EventType::Error => "Error",
            EventType::Count => "Count",
            EventType::Invalid => "Invalid",
        };
        let mut s = String::new();
        push_str(&mut s, name);
        assert(s@ =~= event_name(*self));
        s
    }
}

/// The kinds of data access the SDK distinguishes.
#[derive(Clone, Copy, Debug, PartialEq, Eq, Structural)]
pub enum DataAccessType {
    Read,
    Write,
    Execute,
    CodeFetch,
    Overwrite,
    DataMismatch,
    NewData,
    RedundantData,
}

/// The raw code of an access kind.
pub open spec fn access_code(t: DataAccessType) -> u8 {
    match t {
        DataAccessType::Read => 0,
        DataAccessType::Write => 1,
        DataAccessType::Execute => 2,
        DataAccessType::CodeFetch => 3,
        DataAccessType::Overwrite => 4,
        DataAccessType::DataMismatch => 5,
        DataAccessType::NewData => 6,
        DataAccessType::RedundantData => 7,
    }
}

/// The mask bit of an access kind.
pub open spec fn access_bit(t: DataAccessType) -> u8 {
    match t {
        DataAccessType::Read => 1,
        DataAccessType::Write => 2,
        DataAccessType::Execute => 4,
        DataAccessType::CodeFetch => 8,
        DataAccessType::Overwrite => 16,
        DataAccessType::DataMismatch => 32,
        DataAccessType::NewData => 64,
        DataAccessType::RedundantData => 128,
    }
}

impl DataAccessType {
    /// The raw code of the access kind.
    pub fn code(self) -> (r: u8)
        ensures
            r == access_code(self),
    {
        match self {
            DataAccessType::Read => 0,
            DataAccessType::Write => 1,
            DataAccessType::Execute => 2,
            DataAccessType::CodeFetch => 3,
            DataAccessType::Overwrite => 4,
            DataAccessType::DataMismatch => 5,
            DataAccessType::NewData => 6,
            DataAccessType::RedundantData => 7,
        }
    }

    /// The mask that selects exactly this access kind.
    pub fn mask(self) -> (r: DataAccessMask)
        ensures
            r.bits == access_bit(self),
    {
        let bits: u8 = match self {
            DataAccessType::Read => 1,
            DataAccessType::Write => 2,
            DataAccessType::Execute => 4,
            DataAccessType::CodeFetch => 8,
            DataAccessType::Overwrite => 16,
            DataAccessType::DataMismatch => 32,
            DataAccessType::NewData => 64,
            DataAccessType::RedundantData => 128,
        };
        DataAccessMask { bits }
    }
}

/// A set of data access kinds, one bit per kind.
#[derive(Clone, Copy, Debug, PartialEq, Eq, Structural)]
pub struct DataAccessMask {
    pub bits: u8,
}

/// The mask bit of the kind is set.
pub open spec fn mask_has(m: DataAccessMask, t: DataAccessType) -> bool {
    m.bits & access_bit(t) != 0
}

impl DataAccessMask {
    /// No access kind.
    pub fn none() -> (r: Self)
        ensures
            r.bits == 0,
    {
        DataAccessMask { bits: 0 }
    }

    /// Reads.
    pub fn read() -> (r: Self)
        ensures
            r.bits == 1,
    {
        DataAccessMask { bits: 1 }
    }

    /// Writes.
    pub fn write() -> (r: Self)
        ensures
            r.bits == 2,
    {
        DataAccessMask { bits: 2 }
    }

    /// Execution.
    pub fn execute() -> (r: Self)
        ensures
            r.bits == 4,
    {
        DataAccessMask { bits: 4 }
    }

    /// Reads and writes.
    pub fn read_write() -> (r: Self)
        ensures
            r.bits == 3,
    {
        DataAccessMask { bits: 3 }
    }

    /// Every access kind.
    pub fn all() -> (r: Self)
        ensures
            r.bits == 0xff,
    {
        DataAccessMask { bits: 0xff }
    }

    /// The raw bits of the mask.
    pub fn bits(&self) -> (r: u8)
        ensures
            r == self.bits,
    {
        self.bits
    }

    /// The mask with the kinds of both masks.
    pub fn union(self, other: Self) -> (r: Self)
        ensures
            r.bits == self.bits | other.bits,
    {
        DataAccessMask { bits: self.bits | other.bits }
    }

    /// Whether the mask selects the access kind.
    pub fn contains(&self, t: DataAccessType) -> (r: bool)
        ensures
            r == mask_has(*self, t),
    {
        let bit = t.mask();
        self.bits & bit.bits != 0
    }
}

/// A union keeps every access kind of both masks, and no other.
pub proof fn lemma_mask_union(a: DataAccessMask, b: DataAccessMask, t: DataAccessType)
    ensures
        mask_has(DataAccessMask { bits: a.bits | b.bits }, t) <==> (mask_has(a, t) || mask_has(b, t)),
{
    let x = a.bits;
    let y = b.bits;
    let k = access_bit(t);
    assert(k == 1 || k == 2 || k == 4 || k == 8 || k == 16 || k == 32 || k == 64 || k == 128);
    assert((k == 1 || k == 2 || k == 4 || k == 8 || k == 16 || k == 32 || k == 64 || k == 128)
        ==> (((x | y) & k != 0) <==> ((x & k != 0) || (y & k != 0)))) by (bit_vector);
}

/// The mask of an access kind selects that kind and no other.
pub proof fn lemma_kind_mask_selects_only_itself(t: DataAccessType, u: DataAccessType)
    ensures
        mask_has(DataAccessMask { bits: access_bit(t) }, u) <==> t == u,
{
    let k = access_bit(t);
    let j = access_bit(u);
    assert(forall|p: u8, q: u8|
        (p == 1 || p == 2 || p == 4 || p == 8 || p == 16 || p == 32 || p == 64 || p == 128)
        && (q == 1 || q == 2 || q == 4 || q == 8 || q == 16 || q == 32 || q == 64 || q == 128)
        ==> ((#[trigger] (p & q) != 0) <==> p == q)) by (bit_vector);
    assert((k & j != 0) <==> k == j);
}

/// A module load as the SDK reports it.
#[derive(Clone, Debug)]
pub struct RawModuleLoadedEvent {
    pub position: ReplayPosition,
    pub module: RawModule,
}

/// A module unload as the SDK reports it.
#[derive(Clone, Debug)]
pub struct RawModuleUnloadedEvent {
    pub position: ReplayPosition,
    pub module: RawModule,
}

/// An exception as the SDK reports it.
#[derive(Clone, Copy, Debug)]
pub struct RawExceptionEvent {
    pub position: ReplayPosition,
}

/// A module load: where in the trace it happened and the module.
#[derive(Clone, Debug)]
pub struct ModuleLoaded {
    pub position: ReplayPosition,
    pub module: ReplayModule,
}

/// A module unload: where in the trace it happened and the module.
#[derive(Clone, Debug)]
pub struct ModuleUnloaded {
    pub position: ReplayPosition,
    pub module: ReplayModule,
}

/// An exception raised in the traced process.
#[derive(Clone, Copy, Debug)]
pub struct Exception {}

impl Exception {
    /// The exception of a raw exception event (it carries no data yet).
    pub fn try_from(_value: &RawExceptionEvent) -> (r: Result<Exception, sys_error::Error>)
        ensures
            r is Ok,
    {
        Ok(Exception {})
    }
}

/// `e` is the conversion of the raw load event `raw`.
pub open spec fn converts_loaded(raw: RawModuleLoadedEvent, e: ModuleLoaded) -> bool {
    e.position == raw.position && converts_module(raw.module, e.module)
}

/// `e` is the conversion of the raw unload event `raw`.
pub open spec fn converts_unloaded(raw: RawModuleUnloadedEvent, e: ModuleUnloaded) -> bool {
    e.position == raw.position && converts_module(raw.module, e.module)
}

impl ModuleLoaded {
    /// Converts a load event; fails when the module's name is not valid
    /// UTF-16.
    pub fn try_from(value: &RawModuleLoadedEvent) -> (r: Result<ModuleLoaded, sys_error::Error>)
        ensures
            r is Ok <==> module_name_decodes(value.module),
            r matches Ok(e) ==> converts_loaded(*value, e),
            r matches Err(e) ==> e == sys_error::Error::Utf16Error,
    {
        match ReplayModule::try_from(&value.module) {
            Ok(module) => Ok(ModuleLoaded { position: value.position, module }),
            Err(e) => Err(e),
        }
    }
}

impl ModuleUnloaded {
    /// Converts an unload event; fails when the module's name is not valid
    /// UTF-16.
    pub fn try_from(value: &RawModuleUnloadedEvent) -> (r: Result<ModuleUnloaded, sys_error::Error>)
        ensures
            r is Ok <==> module_name_decodes(value.module),
            r matches Ok(e) ==> converts_unloaded(*value, e),
            r matches Err(e) ==> e == sys_error::Error::Utf16Error,
    {
        match ReplayModule::try_from(&value.module) {
            Ok(module) => Ok(ModuleUnloaded { position: value.position, module }),
            Err(e) => Err(e),
        }
    }
}

/// The SDK numbers its event kinds in this order, from zero:
/// memory watchpoint, position watchpoint, exception, gap, thread, step
/// count, position, process, interrupted, error, count; any larger code is
/// no kind.
pub proof fn lemma_sdk_event_codes(v: u8)
    ensures
        event_of_code(0) == EventType::MemoryWatchpoint,
        event_of_code(1) == EventType::PositionWatchpoint,
        event_of_code(2) == EventType::Exception,
        event_of_code(3) == EventType::Gap,
        event_of_code(4) == EventType::Thread,
        event_of_code(5) == EventType::StepCount,
        event_of_code(6) == EventType::Position,
        event_of_code(7) == EventType::Process,
        event_of_code(8) == EventType::Interrupted,
        event_of_code(9) == EventType::Error,
        event_of_code(10) == EventType::Count,
        v > 10 ==> event_of_code(v) == EventType::Invalid,
{
}

/// Two different SDK codes of real kinds never name the same kind, and a
/// code names a real kind exactly when it is at most ten.
pub proof fn lemma_event_codes_distinct(a: u8, b: u8)
    ensures
        a <= 10 && b <= 10 && a != b ==> event_of_code(a) != event_of_code(b),
        event_of_code(a) != EventType::Invalid <==> a <= 10,
{
}

/// The mask bit of an access kind is two to the power of its code; reads,
/// writes and executions are the three lowest bits.
pub proof fn lemma_access_bit_is_power_of_code(t: DataAccessType)
    ensures
        access_bit(t) as nat == vstd::arithmetic::power2::pow2(access_code(t) as nat),
        access_bit(DataAccessType::Read) == 1,
        access_bit(DataAccessType::Write) == 2,
        access_bit(DataAccessType::Execute) == 4,
{
    vstd::arithmetic::power2::lemma2_to64();
}

/// Each event kind is displayed by its own name.
pub proof fn lemma_event_names()
    ensures
        event_name(EventType::MemoryWatchpoint) == "MemoryWatchpoint"@,
        event_name(EventType::PositionWatchpoint) == "PositionWatchpoint"@,
        event_name(EventType::Exception) == "Exception"@,
        event_name(EventType::Gap) == "Gap"@,
        event_name(EventType::Thread) == "Thread"@,
        event_name(EventType::StepCount) == "StepCount"@,
        event_name(EventType::Position) == "Position"@,
        event_name(EventType::Process) == "Process"@,
        event_name(EventType::Interrupted) == "Interrupted"@,
        event_name(EventType::Error) == "Error"@,
        event_name(EventType::Count) == "Count"@,
        event_name(EventType::Invalid) == "Invalid"@,
{
}

/// The raw codes of the access kinds, in the SDK's order from zero: read,
/// write, execute, code fetch, overwrite, data mismatch, new data, redundant
/// data.
pub proof fn lemma_access_codes()
    ensures
        access_code(DataAccessType::Read) == 0,
        access_code(DataAccessType::Write) == 1,
        access_code(DataAccessType::Execute) == 2,
        access_code(DataAccessType::CodeFetch) == 3,
        access_code(DataAccessType::Overwrite) == 4,
        access_code(DataAccessType::DataMismatch) == 5,
        access_code(DataAccessType::NewData) == 6,
        access_code(DataAccessType::RedundantData) == 7,
{
}

} // verus!
