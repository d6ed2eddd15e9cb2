use vstd::prelude::*;
use crate::error::Error;

verus! {

/// A host value as the host passes it: a type tag byte and a 32-bit payload.
#[derive(Clone, Copy, Debug, PartialEq, Eq, Structural)]
pub struct RawValue {
    pub tag: u8,
    pub data: u32,
}

/// The kinds of host value this library understands.
#[derive(Clone, Copy, Debug, PartialEq, Eq, Structural)]
pub enum ValueTag {
    Null,
    Turf,
    Obj,
    Mob,
    Area,
    Client,
    String,
    World,
    List,
    Datum,
    Number,
}

pub open spec fn tag_byte(t: ValueTag) -> u8 {
    match t {
        ValueTag::Null => 0x00,
        ValueTag::Turf => 0x01,
        ValueTag::Obj => 0x02,
        ValueTag::Mob => 0x03,
        ValueTag::Area => 0x04,
        ValueTag::Client => 0x05,
        ValueTag::String => 0x06,
        ValueTag::World => 0x0E,
        ValueTag::List => 0x0F,
        ValueTag::Datum => 0x21,
        ValueTag::Number => 0x2A,
    }
}

/// The kind a tag byte names, if it names one.
pub open spec fn tag_of_byte(b: u8) -> Option<ValueTag> {
    if b == 0x00 {
        Some(ValueTag::Null)
    } else if b == 0x01 {
        Some(ValueTag::Turf)
    } else if b == 0x02 {
        Some(ValueTag::Obj)
    } else if b == 0x03 {
        Some(ValueTag::Mob)
    } else if b == 0x04 {
        Some(ValueTag::Area)
    } else if b == 0x05 {
        Some(ValueTag::Client)
    } else if b == 0x06 {
        Some(ValueTag::String)
    } else if b == 0x0E {
        Some(ValueTag::World)
    } else if b == 0x0F {
        Some(ValueTag::List)
    } else if b == 0x21 {
        Some(ValueTag::Datum)
    } else if b == 0x2A {
        Some(ValueTag::Number)
    } else {
        None
    }
}

/// Null, numbers and string ids are plain data; every other kind is an object
/// whose lifetime the host tracks with a reference count.
pub open spec fn is_counted(t: ValueTag) -> bool {
    !(t == ValueTag::Null || t == ValueTag::Number || t == ValueTag::String)
}

impl ValueTag {
    pub fn from_byte(b: u8) -> (r: Option<ValueTag>)
        ensures
            r == tag_of_byte(b),
    {
        if b == 0x00 {
            Some(ValueTag::Null)
        } else if b == 0x01 {
            Some(ValueTag::Turf)
        } else if b == 0x02 {
            Some(ValueTag::Obj)
        } else if b == 0x03 {
            Some(ValueTag::Mob)
        } else if b == 0x04 {
            Some(ValueTag::Area)
        } else if b == 0x05 {
            Some(ValueTag::Client)
        } else if b == 0x06 {
            Some(ValueTag::String)
        } else if b == 0x0E {
            Some(ValueTag::World)
        } else if b == 0x0F {
            Some(ValueTag::List)
        } else if b == 0x21 {
            Some(ValueTag::Datum)
        } else if b == 0x2A {
            Some(ValueTag::Number)
        } else {
            None
        }
    }

    pub fn to_byte(&self) -> (r: u8)
        ensures
            r == tag_byte(*self),
    {
        match self {
            ValueTag::Null => 0x00,
            ValueTag::Turf => 0x01,
            ValueTag::Obj => 0x02,
            ValueTag::Mob => 0x03,
            ValueTag::Area => 0x04,
            ValueTag::Client => 0x05,
            ValueTag::String => 0x06,
            ValueTag::World => 0x0E,
            ValueTag::List => 0x0F,
            ValueTag::Datum => 0x21,
            ValueTag::Number => 0x2A,
        }
    }

    pub fn is_counted(&self) -> (r: bool)
        ensures
            r == is_counted(*self),
    {
        !matches!(self, ValueTag::Null | ValueTag::Number | ValueTag::String)
    }
}

/// One call to the host's reference-count mutator.
#[derive(Clone, Copy, Debug, PartialEq, Eq, Structural)]
pub enum RefOp {
    Inc(RawValue),
    Dec(RawValue),
}

/// The change one operation makes to the count of `h`.
pub open spec fn ref_delta(op: RefOp, h: RawValue) -> int {
    match op {
        RefOp::Inc(x) => if x == h { 1 } else { 0 },
        RefOp::Dec(x) => if x == h { -1 } else { 0 },
    }
}

/// The net change that a run of operations makes to the count of `h`.
pub open spec fn net_effect(ops: Seq<RefOp>, h: RawValue) -> int
    decreases ops.len(),
{
    if ops.len() == 0 {
        0
    } else {
        net_effect(ops.drop_last(), h) + ref_delta(ops.last(), h)
    }
}

/// The reference-count operations issued so far, in order, for the host to
/// carry out: the only record through which a value touches the host's count.
pub struct RefLedger {
    ops: Vec<RefOp>,
}

impl View for RefLedger {
    type V = Seq<RefOp>;

    closed spec fn view(&self) -> Seq<RefOp> {
        self.ops@
    }
}

impl RefLedger {
    pub fn new() -> (r: RefLedger)
        ensures
            r@ == Seq::<RefOp>::empty(),
    {
        RefLedger { ops: Vec::new() }
    }

    pub fn len(&self) -> (r: usize)
        ensures
            r == self@.len(),
    {
        self.ops.len()
    }

    /// The operation at position `i`.
    pub fn get(&self, i: usize) -> (r: RefOp)
        requires
            i < self@.len(),
        ensures
            r == self@[i as int],
    {
        self.ops[i]
    }

    /// Hands the recorded operations over to be carried out, leaving none.
    pub fn take(&mut self) -> (r: Vec<RefOp>)
        ensures
            r@ == old(self)@,
            final(self)@ == Seq::<RefOp>::empty(),
    {
        let mut taken: Vec<RefOp> = Vec::new();
        std::mem::swap(&mut self.ops, &mut taken);
        taken
    }

    fn record(&mut self, op: RefOp)
        ensures
            final(self)@ == old(self)@.push(op),
    {
        self.ops.push(op);
    }
}

/// A host value held by this library. A value of a counted kind owns one
/// reference: it was counted up when the value was made, and is counted down
/// when the value is released.
#[derive(Debug, PartialEq, Eq, Structural)]
pub struct Value {
    tag: ValueTag,
    data: u32,
}

/// The operations that taking a new reference to `v` issues.
pub open spec fn acquire_ops(v: Value) -> Seq<RefOp> {
    if is_counted(v.tag_spec()) {
        seq![RefOp::Inc(v.raw_spec())]
    } else {
        Seq::empty()
    }
}

/// The operations that giving up a reference to `v` issues.
pub open spec fn release_ops(v: Value) -> Seq<RefOp> {
    if is_counted(v.tag_spec()) {
        seq![RefOp::Dec(v.raw_spec())]
    } else {
        Seq::empty()
    }
}

/// Decodes a raw value without taking a reference.
pub closed spec fn decode_spec(raw: RawValue) -> Option<Value> {
    match tag_of_byte(raw.tag) {
        Some(t) => Some(Value { tag: t, data: raw.data }),
        None => None,
    }
}

impl Value {
    pub closed spec fn tag_spec(&self) -> ValueTag {
        self.tag
    }

    pub closed spec fn data_spec(&self) -> u32 {
        self.data
    }

    pub open spec fn raw_spec(&self) -> RawValue {
        RawValue { tag: tag_byte(self.tag_spec()), data: self.data_spec() }
    }

    pub fn null() -> (r: Value)
        ensures
            r.tag_spec() == ValueTag::Null,
            r.data_spec() == 0,
    {
        Value { tag: ValueTag::Null, data: 0 }
    }

    /// A number, given as the bits of the host's 32-bit float.
    pub fn number(bits: u32) -> (r: Value)
        ensures
            r.tag_spec() == ValueTag::Number,
            r.data_spec() == bits,
    {
        Value { tag: ValueTag::Number, data: bits }
    }

    /// A string, given as its id in the host's string table.
    pub fn string_id(id: u32) -> (r: Value)
        ensures
            r.tag_spec() == ValueTag::String,
            r.data_spec() == id,
    {
        Value { tag: ValueTag::String, data: id }
    }

    pub fn tag(&self) -> (r: ValueTag)
        ensures
            r == self.tag_spec(),
    {
        self.tag
    }

    pub fn data(&self) -> (r: u32)
        ensures
            r == self.data_spec(),
    {
        self.data
    }

    /// The raw form of the value; ownership of its reference stays here.
    pub fn to_raw(&self) -> (r: RawValue)
        ensures
            r == self.raw_spec(),
    {
        RawValue { tag: self.tag.to_byte(), data: self.data }
    }

    /// Takes a raw value from the host, counting its reference up when it is
    /// of a counted kind; an unknown tag is refused and nothing is counted.
    pub fn new(raw: RawValue, ledger: &mut RefLedger) -> (r: Result<Value, Error>)
        ensures
            match r {
                Ok(v) => decode_spec(raw) == Some(v) && v.raw_spec() == raw
                    && final(ledger)@ == old(ledger)@ + acquire_ops(v),
                Err(e) => decode_spec(raw) is None && tag_of_byte(raw.tag) is None && e == Error::UnrecognizedValueTag(raw.tag)
                    && final(ledger)@ == old(ledger)@,
            },
    {
        match ValueTag::from_byte(raw.tag) {
            Some(t) => {
                let v = Value { tag: t, data: raw.data };
                v.acquire(ledger);
                Ok(v)
            },
            None => Err(Error::UnrecognizedValueTag(raw.tag)),
        }
    }

    fn acquire(&self, ledger: &mut RefLedger)
        ensures
            final(ledger)@ == old(ledger)@ + acquire_ops(*self),
    {
        if self.tag.is_counted() {
            ledger.record(RefOp::Inc(self.to_raw()));
        } else {
            assert(old(ledger)@ + Seq::<RefOp>::empty() =~= old(ledger)@);
        }
        proof {
            if is_counted(self.tag) {
                assert(old(ledger)@.push(RefOp::Inc(self.raw_spec())) =~= old(ledger)@ + acquire_ops(*self));
            }
        }
    }

    /// A second handle to the same host value, counted up before it is returned.
    pub fn copy(&self, ledger: &mut RefLedger) -> (r: Value)
        ensures
            r == *self,
            final(ledger)@ == old(ledger)@ + acquire_ops(*self),
    {
        self.acquire(ledger);
        Value { tag: self.tag, data: self.data }
    }

    /// Gives the value up, counting its reference down.
    pub fn release(self, ledger: &mut RefLedger)
        ensures
            final(ledger)@ == old(ledger)@ + release_ops(self),
    {
        if self.tag.is_counted() {
            ledger.record(RefOp::Dec(self.to_raw()));
            assert(old(ledger)@.push(RefOp::Dec(self.raw_spec())) =~= old(ledger)@ + release_ops(self));
        } else {
            assert(old(ledger)@ + Seq::<RefOp>::empty() =~= old(ledger)@);
        }
    }
}

/// The net effect of two runs one after the other is the sum of theirs.
pub proof fn lemma_net_effect_append(a: Seq<RefOp>, b: Seq<RefOp>, h: RawValue)
    ensures
        net_effect(a + b, h) == net_effect(a, h) + net_effect(b, h),
    decreases b.len(),
{
    if b.len() == 0 {
        assert(a + b =~= a);
    } else {
        assert((a + b).drop_last() =~= a + b.drop_last());
        lemma_net_effect_append(a, b.drop_last(), h);
    }
}

/// A value made, copied three times, and all four handles released leave
/// the host's count of every object as it was.
pub proof fn lemma_copies_balance(ops: Seq<RefOp>, v: Value, h: RawValue)
    ensures
        net_effect(
            ops + acquire_ops(v) + acquire_ops(v) + acquire_ops(v) + acquire_ops(v)
                + release_ops(v) + release_ops(v) + release_ops(v) + release_ops(v),
            h,
        ) == net_effect(ops, h),
{
    let a = acquire_ops(v);
    let r = release_ops(v);
    lemma_acquire_release_cancel(v, h);
    lemma_net_effect_append(ops + a + a + a + a + r + r + r, r, h);
    lemma_net_effect_append(ops + a + a + a + a + r + r, r, h);
    lemma_net_effect_append(ops + a + a + a + a + r, r, h);
    lemma_net_effect_append(ops + a + a + a + a, r, h);
    lemma_net_effect_append(ops + a + a + a, a, h);
    lemma_net_effect_append(ops + a + a, a, h);
    lemma_net_effect_append(ops + a, a, h);
    lemma_net_effect_append(ops, a, h);
}

/// Taking a reference and giving it up again has no net effect on any count.
pub proof fn lemma_acquire_release_cancel(v: Value, h: RawValue)
    ensures
        net_effect(acquire_ops(v), h) + net_effect(release_ops(v), h) == 0,
{
    let a = acquire_ops(v);
    let r = release_ops(v);
    if is_counted(v.tag) {
        assert(a.drop_last() =~= Seq::<RefOp>::empty());
        assert(r.drop_last() =~= Seq::<RefOp>::empty());
        assert(net_effect(Seq::<RefOp>::empty(), h) == 0);
        assert(net_effect(a, h) == ref_delta(a.last(), h));
        assert(net_effect(r, h) == ref_delta(r.last(), h));
    } else {
        assert(net_effect(a, h) == 0);
        assert(net_effect(r, h) == 0);
    }
}

/// Decoding the raw form of a value gives the value back.
pub proof fn lemma_decode_raw(v: Value)
    ensures
        decode_spec(v.raw_spec()) == Some(v),
{
}

/// Encoding a decoded raw value gives the raw value back.
pub proof fn lemma_raw_decode(raw: RawValue)
    ensures
        decode_spec(raw) is Some <==> tag_of_byte(raw.tag) is Some,
        decode_spec(raw) is Some ==>
        decode_spec(raw)->Some_0.raw_spec() == raw,
{
}

} // verus!
