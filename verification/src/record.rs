//! The recording side of the SDK: an engine named by its caller, and the
//! recorders it hands out. Starting, stopping and saving a recording are
//! SDK calls made by the caller; what is kept here is the engine's name.
use vstd::prelude::*;
use vstd::utf8::{decode_utf8, encode_utf8, valid_utf8};

use crate::sys_error::Error;
use crate::text::{push_char, push_str};
use crate::utf8::decode_utf8_bytes;

verus! {

/// A recording engine, known by the name it was created with.
pub struct RecorderEngine {
    name: String,
}

/// A recorder handed out by a `RecorderEngine`, which it borrows.
pub struct Recorder<'a> {
    engine: &'a RecorderEngine,
}

/// The text form of a recording engine: `RecorderEngine(<name>)`.
pub open spec fn recorder_engine_text(name: Seq<char>) -> Seq<char> {
    "RecorderEngine("@ + name + seq![')']
}

impl RecorderEngine {
    /// The engine's name.
    pub closed spec fn name_spec(&self) -> Seq<char> {
        self.name@
    }

    /// Creates an engine named by the UTF-8 bytes `name`; a name that is not
    /// UTF-8 is refused.
    pub fn new(name: &[u8]) -> (r: Result<RecorderEngine, Error>)
        ensures
            r is Ok <==> valid_utf8(name@),
            r matches Ok(e) ==> e.name_spec() == decode_utf8(name@),
            r matches Err(e) ==> e == Error::Utf8Error,
    {
        match decode_utf8_bytes(name) {
            Some(name) => Ok(RecorderEngine { name }),
            None => Err(Error::Utf8Error),
        }
    }

    /// A recorder of this engine.
    pub fn recorder(&self) -> (r: Result<Recorder<'_>, Error>)
        ensures
            r matches Ok(rec) && rec.engine_spec() == *self,
    {
        Ok(Recorder { engine: self })
    }

    /// The text form `RecorderEngine(<name>)`.
    pub fn to_string(&self) -> (r: String)
        ensures
            r@ == recorder_engine_text(self.name_spec()),
    {
        let mut s = String::new();
        push_str(&mut s, "RecorderEngine(");
        push_str(&mut s, self.name.as_str());
        push_char(&mut s, ')');
        assert(s@ =~= recorder_engine_text(self.name_spec()));
        s
    }
}

/// Any name given as its UTF-8 bytes is accepted, and the engine then
/// carries exactly that name.
pub proof fn lemma_engine_name_round_trip(name: Seq<char>)
    ensures
        valid_utf8(encode_utf8(name)),
        decode_utf8(encode_utf8(name)) == name,
{
    vstd::utf8::encode_utf8_valid_utf8(name);
    vstd::utf8::encode_utf8_decode_utf8(name);
}

impl<'a> Recorder<'a> {
    /// The engine this recorder belongs to.
    pub closed spec fn engine_spec(&self) -> RecorderEngine {
        *self.engine
    }
}

} // verus!
