use vstd::prelude::*;
use crate::error::Error;
use crate::string::StringRef;
use crate::value::{acquire_ops, tag_byte, tag_of_byte, RawValue, RefLedger, RefOp, Value, ValueTag};

verus! {

/// The host execution context a hooked call arrives with.
#[derive(Clone, Copy, Debug, PartialEq, Eq, Structural)]
pub struct DMContext {
    pub handle: u32,
}

/// `r` is the id of the first proc of this name, or none when no proc has it.
pub open spec fn is_first_proc(names: Seq<Seq<char>>, name: Seq<char>, r: Option<u32>) -> bool {
    match r {
        Some(id) => id < names.len() && names[id as int] == name && forall|j: int|
            0 <= j < id ==> #[trigger] names[j] != name,
        None => forall|j: int| 0 <= j < names.len() ==> #[trigger] names[j] != name,
    }
}

/// The host's procs by name; a proc's id is its position.
pub struct ProcTable {
    names: Vec<String>,
}

impl View for ProcTable {
    type V = Seq<Seq<char>>;

    closed spec fn view(&self) -> Seq<Seq<char>> {
        self.names@.map_values(|s: String| s@)
    }
}

impl ProcTable {
    pub open spec fn wf(&self) -> bool {
        self@.len() <= u32::MAX
    }

    pub fn new() -> (r: ProcTable)
        ensures
            r@ == Seq::<Seq<char>>::empty(),
            r.wf(),
    {
        ProcTable { names: Vec::new() }
    }

    pub fn len(&self) -> (r: usize)
        ensures
            r == self@.len(),
    {
        self.names.len()
    }

    /// Records the next proc of the host; its id is returned.
    pub fn add(&mut self, name: String) -> (id: u32)
        requires
            old(self)@.len() < u32::MAX,
        ensures
            final(self)@ == old(self)@.push(name@),
            id == old(self)@.len(),
            final(self).wf(),
    {
        let id = self.names.len() as u32;
        let ghost n = name@;
        self.names.push(name);
        assert(self@ =~= old(self)@.push(n));
        id
    }

    /// The id of the first proc of this name.
    pub fn find(&self, name: &str) -> (r: Option<u32>)
        requires
            self.wf(),
        ensures
            is_first_proc(self@, name@, r),
    {
        let key = name.to_owned();
        let mut i: usize = 0;
        while i < self.names.len()
            invariant
                self.wf(),
                key@ == name@,
                i <= self@.len(),
                forall|j: int| 0 <= j < i ==> #[trigger] self@[j] != name@,
            decreases self@.len() - i,
        {
            if self.names[i] == key {
                return Some(i as u32);
            }
            i = i + 1;
        }
        None
    }
}

/// The handler registered last for `id` among `entries`.
pub open spec fn lookup<H>(entries: Seq<(u32, H)>, id: u32) -> Option<H>
    decreases entries.len(),
{
    if entries.len() == 0 {
        None
    } else if entries.last().0 == id {
        Some(entries.last().1)
    } else {
        lookup(entries.drop_last(), id)
    }
}

/// Maps host proc ids to the handlers that replace them.
pub struct HookRegistry<H> {
    entries: Vec<(u32, H)>,
}

impl<H: Copy> HookRegistry<H> {
    /// The handler in force for each hooked proc id.
    pub closed spec fn handlers(&self) -> Map<u32, H> {
        Map::new(|id: u32| lookup(self.entries@, id) is Some, |id: u32| lookup(self.entries@, id)->Some_0)
    }

    pub fn new() -> (r: HookRegistry<H>)
        ensures
            r.handlers() == Map::<u32, H>::empty(),
    {
        let r = HookRegistry { entries: Vec::new() };
        assert(r.handlers() =~= Map::<u32, H>::empty());
        r
    }

    /// Redirects the proc of this name to `handler`, replacing any handler it
    /// had; fails, changing nothing, when the host knows no such proc.
    pub fn hook(&mut self, procs: &ProcTable, name: &str, handler: H) -> (r: Result<(), Error>)
        requires
            procs.wf(),
        ensures
            match r {
                Ok(()) => exists|id: u32|
                    is_first_proc(procs@, name@, Some(id))
                        && final(self).handlers() == old(self).handlers().insert(id, handler),
                Err(e) => is_first_proc(procs@, name@, None) && (e matches Error::ProcNotFound(n) && n@
                    == name@) && final(self).handlers() == old(self).handlers(),
            },
    {
        match procs.find(name) {
            Some(id) => {
                self.entries.push((id, handler));
                assert(self.entries@.drop_last() =~= old(self).entries@);
                assert(self.handlers() =~= old(self).handlers().insert(id, handler));
                Ok(())
            },
            None => Err(Error::ProcNotFound(name.to_owned())),
        }
    }

    /// The handler that a call of proc `id` goes to, if it is hooked.
    pub fn handler_for(&self, id: u32) -> (r: Option<H>)
        ensures
            r == (if self.handlers().contains_key(id) {
                Some(self.handlers()[id])
            } else {
                None
            }),
    {
        let mut i: usize = self.entries.len();
        assert(self.entries@.subrange(0, i as int) =~= self.entries@);
        while i > 0
            invariant
                i <= self.entries@.len(),
                lookup(self.entries@, id) == lookup(self.entries@.subrange(0, i as int), id),
            decreases i,
        {
            let ghost s = self.entries@.subrange(0, i as int);
            assert(s.drop_last() =~= self.entries@.subrange(0, i - 1));
            if self.entries[i - 1].0 == id {
                return Some(self.entries[i - 1].1);
            }
            i = i - 1;
        }
        None
    }
}

/// The operations that taking a reference to each value in turn issues.
pub open spec fn acquire_all(vals: Seq<Value>) -> Seq<RefOp>
    decreases vals.len(),
{
    if vals.len() == 0 {
        Seq::empty()
    } else {
        acquire_all(vals.drop_last()) + acquire_ops(vals.last())
    }
}

/// Wraps the raw arguments of a hooked call, taking a reference to each. An
/// unknown tag fails the whole call at the first argument that has one, and
/// then nothing is counted.
pub fn unpack_args(raw: &[RawValue], ledger: &mut RefLedger) -> (r: Result<Vec<Value>, Error>)
    ensures
        match r {
            Ok(vals) => vals@.len() == raw@.len() && (forall|i: int|
                0 <= i < raw@.len() ==> #[trigger] vals@[i].raw_spec() == raw@[i])
                && final(ledger)@ == old(ledger)@ + acquire_all(vals@),
            Err(e) => (exists|k: int|
                0 <= k < raw@.len() && tag_of_byte(#[trigger] raw@[k].tag) is None
                    && e == Error::UnrecognizedValueTag(raw@[k].tag) && forall|j: int|
                    0 <= j < k ==> tag_of_byte(#[trigger] raw@[j].tag) is Some)
                && final(ledger)@ == old(ledger)@,
        },
{
    let mut k: usize = 0;
    while k < raw.len()
        invariant
            k <= raw@.len(),
            forall|j: int| 0 <= j < k ==> tag_of_byte(#[trigger] raw@[j].tag) is Some,
        decreases raw@.len() - k,
    {
        if ValueTag::from_byte(raw[k].tag).is_none() {
            return Err(Error::UnrecognizedValueTag(raw[k].tag));
        }
        k = k + 1;
    }
    let mut vals: Vec<Value> = Vec::new();
    let mut i: usize = 0;
    assert(old(ledger)@ + acquire_all(vals@) =~= old(ledger)@);
    while i < raw.len()
        invariant
            i <= raw@.len(),
            vals@.len() == i,
            forall|j: int| 0 <= j < raw@.len() ==> tag_of_byte(#[trigger] raw@[j].tag) is Some,
            forall|j: int| 0 <= j < i ==> #[trigger] vals@[j].raw_spec() == raw@[j],
            ledger@ == old(ledger)@ + acquire_all(vals@),
        decreases raw@.len() - i,
    {
        let ghost before = ledger@;
        match Value::new(raw[i], ledger) {
            Ok(v) => {
                let ghost pv = vals@;
                vals.push(v);
                assert(vals@.drop_last() =~= pv);
                assert(ledger@ =~= old(ledger)@ + acquire_all(vals@));
            },
            Err(e) => {
                assert(tag_of_byte(raw@[i as int].tag) is Some);
                return Err(e);
            },
        }
        i = i + 1;
    }
    Ok(vals)
}

/// The raw form a handler's result goes back to the host in; the reference
/// the value owned passes to the host's caller with it.
pub fn encode_return(v: Value) -> (r: RawValue)
    ensures
        r == v.raw_spec(),
{
    v.to_raw()
}

/// A sample handler: whatever it is called with, it answers with the given
/// string.
pub fn hello_proc_hook(ctx: &DMContext, src: &Value, usr: &Value, args: &Vec<Value>, greeting: StringRef) -> (r: Value)
    ensures
        r.raw_spec() == (RawValue { tag: tag_byte(ValueTag::String), data: greeting.id }),
{
    greeting.to_value()
}

/// Hooking one proc twice leaves only the second handler in force for it,
/// and every other proc as it was.
pub proof fn lemma_last_hook_wins<H>(handlers: Map<u32, H>, id: u32, first: H, second: H)
    ensures
        handlers.insert(id, first).insert(id, second)[id] == second,
        handlers.insert(id, first).insert(id, second) == handlers.insert(id, second),
{
    assert(handlers.insert(id, first).insert(id, second) =~= handlers.insert(id, second));
}

} // verus!
