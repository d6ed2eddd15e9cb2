use vstd::prelude::*;
use crate::bootstrap::Symbol;

verus! {

/// Everything that can go wrong while attaching to the host or talking to it.
#[derive(Clone, Debug)]
pub enum Error {
    /// The host module could not be located.
    ModuleNotFound,
    /// The signature of this symbol matched nowhere usable in the module.
    SignatureNotFound(Symbol),
    /// The host knows no proc of this name.
    ProcNotFound(String),
    /// A signature text is malformed or empty.
    InvalidSignatureText,
    /// A raw host value carries a type tag this library does not know.
    UnrecognizedValueTag(u8),
    /// A call into the host through this capability failed.
    HostCallFailed(Symbol),
}

} // verus!
