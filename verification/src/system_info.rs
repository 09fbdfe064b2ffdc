//! The system information a trace records about the traced process.
use vstd::prelude::*;

use crate::error::Error;
use crate::text::{decimal_text, push_decimal, push_str};
use crate::utf16::{decode_utf16, utf16_decode};

verus! {

/// What a trace records about the system and process it was taken on.
#[derive(Clone, Copy, Debug)]
pub struct SystemInfo {
    /// The raw processor architecture code.
    pub architecture: u16,
    pub major_version: u32,
    pub minor_version: u32,
    pub build_number: u32,
    pub process_id: u32,
    /// The user name, in a fixed buffer of UTF-16 units.
    pub user_name: [u16; 64],
    /// The host name, in a fixed buffer of UTF-16 units.
    pub system_name: [u16; 64],
}

/// The one-line summary of a system information record:
/// `SystemInfo(PID=<pid>, version=<major>.<major>.<build>)`; the major
/// version stands in both of the first two places.
pub open spec fn system_info_text(info: SystemInfo) -> Seq<char> {
    "SystemInfo(PID="@ + decimal_text(info.process_id as nat) + ", version="@
        + decimal_text(info.major_version as nat) + "."@ + decimal_text(info.major_version as nat)
        + "."@ + decimal_text(info.build_number as nat) + ")"@
}

impl SystemInfo {
    /// The record of an engine with no trace loaded: every field zero.
    pub fn empty() -> (r: Self)
        ensures
            r.architecture == 0,
            r.major_version == 0,
            r.minor_version == 0,
            r.build_number == 0,
            r.process_id == 0,
            forall|i: int| 0 <= i < 64 ==> r.user_name@[i] == 0 && r.system_name@[i] == 0,
    {
        SystemInfo {
            architecture: 0,
            major_version: 0,
            minor_version: 0,
            build_number: 0,
            process_id: 0,
            user_name: [0u16; 64],
            system_name: [0u16; 64],
        }
    }

    /// The user name recorded in the trace: the whole buffer decoded from
    /// UTF-16.
    pub fn user_name(&self) -> (r: Result<String, Error>)
        ensures
            r is Ok <==> utf16_decode(self.user_name@) is Some,
            r matches Ok(s) ==> utf16_decode(self.user_name@) == Some(s@),
            r matches Err(e) ==> e == Error::Utf16Error,
    {
        match decode_utf16(&self.user_name) {
            Some(s) => Ok(s),
            None => Err(Error::Utf16Error),
        }
    }

    /// The host name recorded in the trace: the whole buffer decoded from
    /// UTF-16.
    pub fn system_name(&self) -> (r: Result<String, Error>)
        ensures
            r is Ok <==> utf16_decode(self.system_name@) is Some,
            r matches Ok(s) ==> utf16_decode(self.system_name@) == Some(s@),
            r matches Err(e) ==> e == Error::Utf16Error,
    {
        match decode_utf16(&self.system_name) {
            Some(s) => Ok(s),
            None => Err(Error::Utf16Error),
        }
    }

    /// The identifier of the traced process.
    pub fn pid(&self) -> (r: Result<u32, Error>)
        ensures
            r == Ok::<u32, Error>(self.process_id),
    {
        Ok(self.process_id)
    }

    /// The one-line summary `SystemInfo(PID=…, version=…)`.
    pub fn to_string(&self) -> (r: String)
        ensures
            r@ == system_info_text(*self),
    {
        let mut s = String::new();
        push_str(&mut s, "SystemInfo(PID=");
        push_decimal(&mut s, self.process_id as u64);
        push_str(&mut s, ", version=");
        push_decimal(&mut s, self.major_version as u64);
        push_str(&mut s, ".");
        push_decimal(&mut s, self.major_version as u64);
        push_str(&mut s, ".");
        push_decimal(&mut s, self.build_number as u64);
        push_str(&mut s, ")");
        assert(s@ =~= system_info_text(*self));
        s
    }
}

} // verus!
