//! Modules (images) observed in a trace.
use vstd::prelude::*;

use crate::sys_error;
use crate::utf16::{decode_utf16, utf16_decode};

verus! {

/// A module as the SDK reports it: its name still in UTF-16 units.
#[derive(Clone, Debug)]
pub struct RawModule {
    pub name: Vec<u16>,
    pub address: u64,
    pub size: u64,
    pub checksum: u32,
    pub timestamp: u32,
}

/// A module (binary image) observed in a trace.
#[derive(Clone, Debug)]
pub struct ReplayModule {
    pub name: String,
    pub address: u64,
    pub size: u64,
    pub checksum: u32,
    pub timestamp: u32,
}

/// One instance of a module in the process: the module and the times at
/// which it was loaded and unloaded.
#[derive(Clone, Debug)]
pub struct ModuleInstance {
    pub module: ReplayModule,
    pub load_time: u64,
    pub unload_time: u64,
}

/// `m` is what converting `raw` gives: the decoded name and the same
/// numbers.
pub open spec fn converts_module(raw: RawModule, m: ReplayModule) -> bool {
    &&& utf16_decode(raw.name@) == Some(m.name@)
    &&& m.address == raw.address
    &&& m.size == raw.size
    &&& m.checksum == raw.checksum
    &&& m.timestamp == raw.timestamp
}

/// The module's name is valid UTF-16.
pub open spec fn module_name_decodes(raw: RawModule) -> bool {
    utf16_decode(raw.name@) is Some
}

impl ReplayModule {
    /// Converts a module as reported by the SDK; fails when its name is not
    /// valid UTF-16.
    pub fn try_from(value: &RawModule) -> (r: Result<ReplayModule, sys_error::Error>)
        ensures
            r is Ok <==> module_name_decodes(*value),
            r matches Ok(m) ==> converts_module(*value, m),
            r matches Err(e) ==> e == sys_error::Error::Utf16Error,
    {
        match decode_utf16(value.name.as_slice()) {
            Some(name) => Ok(ReplayModule {
                name,
                address: value.address,
                size: value.size,
                checksum: value.checksum,
                timestamp: value.timestamp,
            }),
            None => Err(sys_error::Error::Utf16Error),
        }
    }
}

} // verus!
