use vstd::prelude::*;
use crate::bootstrap::Symbol;
use crate::error::Error;
use crate::value::{tag_byte, RawValue, Value, ValueTag};

verus! {

/// An entry of the host's string table, named by its id. Two references are
/// equal exactly when their ids are.
#[derive(Clone, Copy, Debug, PartialEq, Eq, Structural)]
pub struct StringRef {
    pub id: u32,
}

impl StringRef {
    /// A reference to an entry the host already holds; no host call.
    pub fn from_id(id: u32) -> (r: StringRef)
        ensures
            r.id == id,
    {
        StringRef { id }
    }

    /// Takes the host's answer to a request to intern some text: the id it
    /// found or made, or none when the host could not intern it.
    pub fn from_intern_result(answer: Option<u32>) -> (r: Result<StringRef, Error>)
        ensures
            match answer {
                Some(id) => r == Ok::<StringRef, Error>(StringRef { id }),
                None => r == Err::<StringRef, Error>(Error::HostCallFailed(Symbol::GetStringId)),
            },
    {
        match answer {
            Some(id) => Ok(StringRef { id }),
            None => Err(Error::HostCallFailed(Symbol::GetStringId)),
        }
    }

    /// Takes the host's answer to a request for the text of this entry.
    pub fn text_from_entry(&self, entry: Option<String>) -> (r: Result<String, Error>)
        ensures
            match entry {
                Some(t) => r matches Ok(s) && s@ == t@,
                None => r matches Err(e) && e == Error::HostCallFailed(Symbol::GetStringTableEntry),
            },
    {
        match entry {
            Some(t) => Ok(t),
            None => Err(Error::HostCallFailed(Symbol::GetStringTableEntry)),
        }
    }

    /// The host value that stands for this string.
    pub fn to_value(&self) -> (r: Value)
        ensures
            r.tag_spec() == ValueTag::String,
            r.raw_spec() == (RawValue { tag: tag_byte(ValueTag::String), data: self.id }),
    {
        Value::string_id(self.id)
    }

    /// The string a value holds, if it is a string.
    pub fn from_value(v: &Value) -> (r: Option<StringRef>)
        ensures
            match r {
                Some(s) => v.tag_spec() == ValueTag::String && s.id == v.data_spec(),
                None => v.tag_spec() != ValueTag::String,
            },
    {
        match v.tag() {
            ValueTag::String => Some(StringRef { id: v.data() }),
            _ => None,
        }
    }
}

} // verus!
