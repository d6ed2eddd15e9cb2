use vstd::prelude::*;
use crate::bootstrap::{resolve_all, resolve_all_spec, symbol_index, Symbol, SYMBOL_COUNT};
use crate::error::Error;

verus! {

/// The reason text of a failed attach.
pub open spec fn failure_text(e: Error) -> Seq<char> {
    match e {
        Error::ModuleNotFound => "FAILED (Couldn't find the host module)"@,
        Error::SignatureNotFound(s) => match s {
            Symbol::StringTable => "FAILED (Couldn't find StringTable)"@,
            Symbol::GetProcArrayEntry => "FAILED (Couldn't find GetProcArrayEntry)"@,
            Symbol::GetStringId => "FAILED (Couldn't find GetStringId)"@,
            Symbol::CallProcById => "FAILED (Couldn't find CallProcById)"@,
            Symbol::GetVariable => "FAILED (Couldn't find GetVariable)"@,
            Symbol::SetVariable => "FAILED (Couldn't find SetVariable)"@,
            Symbol::GetStringTableEntry => "FAILED (Couldn't find GetStringTableEntry)"@,
            Symbol::CallDatumProcByName => "FAILED (Couldn't find CallDatumProcByName)"@,
            Symbol::DecRefCount => "FAILED (Couldn't find DecRefCount)"@,
            Symbol::IncRefCount => "FAILED (Couldn't find IncRefCount)"@,
        },
        Error::InvalidSignatureText => "FAILED (Invalid signature text)"@,
        _ => "FAILED (Host call failed)"@,
    }
}

/// Published symbols and status text after an attach from the given state:
/// an already published state is kept as it is, and nothing is resolved again.
pub open spec fn attach_spec(state: Option<Seq<u32>>, image: Option<Seq<u8>>, base: u32) -> (Option<Seq<u32>>, Seq<char>) {
    if state is Some {
        (state, "SUCCESS"@)
    } else {
        match image {
            None => (None, failure_text(Error::ModuleNotFound)),
            Some(img) => match resolve_all_spec(img, base) {
                Ok(a) => (Some(a), "SUCCESS"@),
                Err(e) => (None, failure_text(e)),
            },
        }
    }
}

pub open spec fn image_view(image: Option<&[u8]>) -> Option<Seq<u8>> {
    match image {
        Some(i) => Some(i@),
        None => None,
    }
}

/// The text for a failed attach.
pub fn failure_message(e: &Error) -> (r: &'static str)
    ensures
        r@ == failure_text(*e),
{
    match e {
        Error::ModuleNotFound => "FAILED (Couldn't find the host module)",
        Error::SignatureNotFound(s) => match s {
            Symbol::StringTable => "FAILED (Couldn't find StringTable)",
            Symbol::GetProcArrayEntry => "FAILED (Couldn't find GetProcArrayEntry)",
            Symbol::GetStringId => "FAILED (Couldn't find GetStringId)",
            Symbol::CallProcById => "FAILED (Couldn't find CallProcById)",
            Symbol::GetVariable => "FAILED (Couldn't find GetVariable)",
            Symbol::SetVariable => "FAILED (Couldn't find SetVariable)",
            Symbol::GetStringTableEntry => "FAILED (Couldn't find GetStringTableEntry)",
            Symbol::CallDatumProcByName => "FAILED (Couldn't find CallDatumProcByName)",
            Symbol::DecRefCount => "FAILED (Couldn't find DecRefCount)",
            Symbol::IncRefCount => "FAILED (Couldn't find IncRefCount)",
        },
        Error::InvalidSignatureText => "FAILED (Invalid signature text)",
        _ => "FAILED (Host call failed)",
    }
}

/// The process-wide record of resolved host capabilities. The addresses are
/// published at most once and all together; afterwards only the execution
/// context slot changes.
pub struct Runtime {
    symbols: Option<Vec<u32>>,
    execution_context: Option<u32>,
}

impl Runtime {
    /// The published capability addresses, in the bootstrap's order.
    pub closed spec fn symbols(&self) -> Option<Seq<u32>> {
        match self.symbols {
            Some(v) => Some(v@),
            None => None,
        }
    }

    /// The host execution context of the call in flight, if any.
    pub closed spec fn context(&self) -> Option<u32> {
        self.execution_context
    }

    pub open spec fn wf(&self) -> bool {
        self.symbols() matches Some(a) ==> a.len() == SYMBOL_COUNT
    }

    /// A runtime with nothing published.
    pub fn new() -> (r: Runtime)
        ensures
            r.wf(),
            r.symbols() is None,
            r.context() is None,
    {
        Runtime { symbols: None, execution_context: None }
    }

    pub fn is_initialized(&self) -> (r: bool)
        ensures
            r == self.symbols() is Some,
    {
        self.symbols.is_some()
    }

    /// The address of a capability; none until the runtime is initialized.
    pub fn address(&self, s: Symbol) -> (r: Option<u32>)
        requires
            self.wf(),
        ensures
            r == match self.symbols() {
                Some(a) => Some(a[symbol_index(s)]),
                None => None::<u32>,
            },
    {
        match &self.symbols {
            Some(v) => Some(v[s.index()]),
            None => None,
        }
    }

    /// Attaches to the host module whose image is given and which is loaded
    /// at `base`; `None` stands for a module that could not be found.
    /// Returns `"SUCCESS"` or `"FAILED (<reason>)"`.
    pub fn attach(&mut self, image: Option<&[u8]>, base: u32) -> (r: String)
        requires
            old(self).wf(),
        ensures
            final(self).wf(),
            (final(self).symbols(), r@) == attach_spec(old(self).symbols(), image_view(image), base),
            final(self).context() == old(self).context(),
    {
        if self.symbols.is_some() {
            return "SUCCESS".to_owned();
        }
        match image {
            None => failure_message(&Error::ModuleNotFound).to_owned(),
            Some(img) => match resolve_all(img, base) {
                Ok(a) => {
                    self.symbols = Some(a);
                    "SUCCESS".to_owned()
                },
                Err(e) => failure_message(&e).to_owned(),
            },
        }
    }

    /// Records the host execution context of a call that is now in flight.
    pub fn enter_context(&mut self, ctx: u32)
        ensures
            final(self).symbols() == old(self).symbols(),
            final(self).context() == Some(ctx),
    {
        self.execution_context = Some(ctx);
    }

    /// Clears the execution context once the call has returned.
    pub fn leave_context(&mut self)
        ensures
            final(self).symbols() == old(self).symbols(),
            final(self).context() is None,
    {
        self.execution_context = None;
    }
}

/// Once an attach has succeeded, attaching again reports success and changes
/// nothing, whatever image it is given: nothing is resolved a second time.
pub proof fn lemma_attach_idempotent(
    state: Option<Seq<u32>>,
    image: Option<Seq<u8>>,
    base: u32,
    image2: Option<Seq<u8>>,
    base2: u32,
)
    requires
        attach_spec(state, image, base).1 == "SUCCESS"@,
    ensures
        attach_spec(state, image, base).0 is Some,
        attach_spec(attach_spec(state, image, base).0, image2, base2) == attach_spec(state, image, base),
{
    reveal_strlit("SUCCESS");
    if state is None {
        match image {
            None => {
                reveal_strlit("FAILED (Couldn't find the host module)");
                assert(failure_text(Error::ModuleNotFound)[0] != "SUCCESS"@[0]);
            },
            Some(img) => match resolve_all_spec(img, base) {
                Ok(a) => {},
                Err(e) => {
                    lemma_failure_text_is_not_success(e);
                },
            },
        }
    }
}

/// Every failure text starts differently from the success text.
pub proof fn lemma_failure_text_is_not_success(e: Error)
    ensures
        failure_text(e) != "SUCCESS"@,
        failure_text(e)[0] == 'F',
{
    reveal_strlit("SUCCESS");
    reveal_strlit("FAILED (Couldn't find the host module)");
    reveal_strlit("FAILED (Couldn't find StringTable)");
    reveal_strlit("FAILED (Couldn't find GetProcArrayEntry)");
    reveal_strlit("FAILED (Couldn't find GetStringId)");
    reveal_strlit("FAILED (Couldn't find CallProcById)");
    reveal_strlit("FAILED (Couldn't find GetVariable)");
    reveal_strlit("FAILED (Couldn't find SetVariable)");
    reveal_strlit("FAILED (Couldn't find GetStringTableEntry)");
    reveal_strlit("FAILED (Couldn't find CallDatumProcByName)");
    reveal_strlit("FAILED (Couldn't find DecRefCount)");
    reveal_strlit("FAILED (Couldn't find IncRefCount)");
    reveal_strlit("FAILED (Invalid signature text)");
    reveal_strlit("FAILED (Host call failed)");
    assert(failure_text(e)[0] != "SUCCESS"@[0]);
}

/// An attach that fails publishes nothing: none of the symbols that did
/// resolve become visible.
pub proof fn lemma_attach_atomic(state: Option<Seq<u32>>, image: Option<Seq<u8>>, base: u32)
    requires
        state is None,
        attach_spec(state, image, base).1 != "SUCCESS"@,
    ensures
        attach_spec(state, image, base).0 is None,
{
}

} // verus!
