//! Replay behaviour flags.
use vstd::prelude::*;

use crate::text::push_str;

verus! {

/// Options that change how the SDK replays a trace.
#[derive(Clone, Copy, Debug, PartialEq, Eq, Structural)]
pub enum ReplayFlags {
    NoFlags,
    ReplayOnlyCurrentThread,
    ReplayAllSegmentsWithoutFiltering,
    ReplaySegmentsSequentially,
}

/// The raw values the SDK uses for the flags.
pub open spec fn flag_bits(f: ReplayFlags) -> u32 {
    match f {
        ReplayFlags::NoFlags => 0,
        ReplayFlags::ReplayOnlyCurrentThread => 1,
        ReplayFlags::ReplayAllSegmentsWithoutFiltering => 2,
        ReplayFlags::ReplaySegmentsSequentially => 4,
    }
}

/// The raw values that name a flag.
pub open spec fn is_flag_value(v: u32) -> bool {
    v == 0 || v == 1 || v == 2 || v == 4
}

/// The flag named by a raw value.
pub open spec fn flag_of_bits(v: u32) -> ReplayFlags {
    if v == 1 {
        ReplayFlags::ReplayOnlyCurrentThread
    } else if v == 2 {
        ReplayFlags::ReplayAllSegmentsWithoutFiltering
    } else if v == 4 {
        ReplayFlags::ReplaySegmentsSequentially
    } else {
        ReplayFlags::NoFlags
    }
}

/// The name of each flag, as it is displayed.
pub open spec fn flag_name(f: ReplayFlags) -> Seq<char> {
    match f {
        ReplayFlags::NoFlags => "None"@,
        ReplayFlags::ReplayOnlyCurrentThread => "ReplayOnlyCurrentThread"@,
        ReplayFlags::ReplayAllSegmentsWithoutFiltering => "ReplayAllSegmentsWithoutFiltering"@,
        ReplayFlags::ReplaySegmentsSequentially => "ReplaySegmentsSequentially"@,
    }
}

impl Default for ReplayFlags {
    fn default() -> (r: Self)
        ensures
            r == ReplayFlags::NoFlags,
    {
        ReplayFlags::NoFlags
    }
}

impl From<ReplayFlags> for u32 {
    fn from(val: ReplayFlags) -> (r: u32) {
        match val {
            ReplayFlags::NoFlags => 0,
            ReplayFlags::ReplayOnlyCurrentThread => 1,
            ReplayFlags::ReplayAllSegmentsWithoutFiltering => 2,
            ReplayFlags::ReplaySegmentsSequentially => 4,
        }
    }
}

impl vstd::std_specs::convert::FromSpecImpl<ReplayFlags> for u32 {
    open spec fn obeys_from_spec() -> bool {
        true
    }

    open spec fn from_spec(val: ReplayFlags) -> u32 {
        flag_bits(val)
    }
}

impl ReplayFlags {
    /// The raw SDK value of the flag.
    pub fn bits(self) -> (r: u32)
        ensures
            r == flag_bits(self),
    {
        u32::from(self)
    }

    /// The flag for a raw SDK value; the SDK only hands out the four values
    /// that name a flag.
    pub fn from_bits(value: u32) -> (r: Self)
        requires
            is_flag_value(value),
        ensures
            r == flag_of_bits(value),
            flag_bits(r) == value,
    {
        if value == 1 {
            ReplayFlags::ReplayOnlyCurrentThread
        } else if value == 2 {
            ReplayFlags::ReplayAllSegmentsWithoutFiltering
        } else if value == 4 {
            ReplayFlags::ReplaySegmentsSequentially
        } else {
            ReplayFlags::NoFlags
        }
    }

    /// The flag's name.
    pub fn to_string(&self) -> (r: String)
        ensures
            r@ == flag_name(*self),
    {
        let mut s = String::new();
        let name = match self {
            ReplayFlags::NoFlags => "None",
            ReplayFlags::ReplayOnlyCurrentThread => "ReplayOnlyCurrentThread",
            ReplayFlags::ReplayAllSegmentsWithoutFiltering => "ReplayAllSegmentsWithoutFiltering",
            ReplayFlags::ReplaySegmentsSequentially => "ReplaySegmentsSequentially",
        };
        push_str(&mut s, name);
        assert(s@ =~= flag_name(*self));
        s
    }
}

/// Converting a flag to its raw value and back gives the same flag.
pub proof fn lemma_flag_bits_round_trip(f: ReplayFlags)
    ensures
        is_flag_value(flag_bits(f)),
        flag_of_bits(flag_bits(f)) == f,
{
}

/// The SDK values of the replay flags: none is 0, and the three flags are
/// the bits 1, 2 and 4; each flag is displayed by its name, `None` for no
/// flag.
pub proof fn lemma_flag_values(v: u32)
    ensures
        flag_bits(ReplayFlags::NoFlags) == 0,
        flag_bits(ReplayFlags::ReplayOnlyCurrentThread) == 1,
        flag_bits(ReplayFlags::ReplayAllSegmentsWithoutFiltering) == 2,
        flag_bits(ReplayFlags::ReplaySegmentsSequentially) == 4,
        is_flag_value(v) ==> flag_bits(flag_of_bits(v)) == v,
        flag_name(ReplayFlags::NoFlags) == "None"@,
        flag_name(ReplayFlags::ReplayOnlyCurrentThread) == "ReplayOnlyCurrentThread"@,
        flag_name(ReplayFlags::ReplayAllSegmentsWithoutFiltering) == "ReplayAllSegmentsWithoutFiltering"@,
        flag_name(ReplayFlags::ReplaySegmentsSequentially) == "ReplaySegmentsSequentially"@,
{
}

} // verus!
