use vstd::prelude::*;
use vstd::arithmetic::div_mod::lemma_add_mod_noop_right;
use crate::error::Error;
use crate::scanner::{find, first_match, lemma_first_match};
use crate::signature::{compile_signature, compile_spec, ByteMatcher};

verus! {

/// A host capability resolved from the host module by signature.
#[derive(Clone, Copy, Debug, PartialEq, Eq, Structural)]
pub enum Symbol {
    StringTable,
    GetProcArrayEntry,
    GetStringId,
    CallProcById,
    GetVariable,
    SetVariable,
    GetStringTableEntry,
    CallDatumProcByName,
    DecRefCount,
    IncRefCount,
}

/// How many symbols the bootstrap resolves.
pub const SYMBOL_COUNT: usize = 10;

/// How a match address becomes the address of the capability.
#[derive(Clone, Copy, Debug, PartialEq, Eq, Structural)]
pub enum Rule {
    /// The match is the entry point itself.
    Direct,
    /// The 4-byte little-endian address stored this many bytes into the match.
    Deref(usize),
    /// A call instruction's 4-byte displacement stored this many bytes into the
    /// match: the target is the address right after the displacement plus it.
    RelativeCall(usize),
}

/// The symbols in the order the bootstrap resolves them.
pub open spec fn symbol_at(i: int) -> Symbol {
    if i == 0 {
        Symbol::StringTable
    } else if i == 1 {
        Symbol::GetProcArrayEntry
    } else if i == 2 {
        Symbol::GetStringId
    } else if i == 3 {
        Symbol::CallProcById
    } else if i == 4 {
        Symbol::GetVariable
    } else if i == 5 {
        Symbol::SetVariable
    } else if i == 6 {
        Symbol::GetStringTableEntry
    } else if i == 7 {
        Symbol::CallDatumProcByName
    } else if i == 8 {
        Symbol::DecRefCount
    } else {
        Symbol::IncRefCount
    }
}

pub open spec fn symbol_index(s: Symbol) -> int {
    match s {
        Symbol::StringTable => 0,
        Symbol::GetProcArrayEntry => 1,
        Symbol::GetStringId => 2,
        Symbol::CallProcById => 3,
        Symbol::GetVariable => 4,
        Symbol::SetVariable => 5,
        Symbol::GetStringTableEntry => 6,
        Symbol::CallDatumProcByName => 7,
        Symbol::DecRefCount => 8,
        Symbol::IncRefCount => 9,
    }
}

/// The reference-count functions are reached through the call instruction
/// that ends their signatures: its displacement follows the signature.
pub open spec fn rule_of(s: Symbol) -> Rule {
    match s {
        Symbol::StringTable => Rule::Deref(1),
        Symbol::GetProcArrayEntry => Rule::RelativeCall(1),
        Symbol::DecRefCount => Rule::RelativeCall(20),
        Symbol::IncRefCount => Rule::RelativeCall(17),
        _ => Rule::Direct,
    }
}

/// The name under which the symbol's signature is filed in the table.
pub open spec fn symbol_key(s: Symbol) -> Seq<char> {
    match s {
        Symbol::StringTable => "string_table"@,
        Symbol::GetProcArrayEntry => "get_proc_array_entry"@,
        Symbol::GetStringId => "get_string_id"@,
        Symbol::CallProcById => "call_proc_by_id"@,
        Symbol::GetVariable => "get_variable"@,
        Symbol::SetVariable => "set_variable"@,
        Symbol::GetStringTableEntry => "get_string_table_entry"@,
        Symbol::CallDatumProcByName => "call_datum_proc_by_name"@,
        Symbol::DecRefCount => "dec_ref_count"@,
        Symbol::IncRefCount => "inc_ref_count"@,
    }
}

pub open spec fn signature_text_spec(s: Symbol) -> Seq<char> {
    match s {
        Symbol::StringTable => "A1 ?? ?? ?? ?? 8B 04 ?? 85 C0 0F 84 ?? ?? ?? ?? 80 3D ?? ?? ?? ?? 00 8B 18"@,
        Symbol::GetProcArrayEntry => "E8 ?? ?? ?? ?? 8B C8 8D 45 ?? 6A 01 50 FF 76 ?? 8A 46 ?? FF 76 ?? FE C0"@,
        Symbol::GetStringId => "55 8B EC 8B 45 ?? 83 EC ?? 53 56 8B 35"@,
        Symbol::CallProcById => "55 8B EC 81 EC ?? ?? ?? ?? A1 ?? ?? ?? ?? 33 C5 89 45 ?? 8B 55 ?? 8B 45"@,
        Symbol::GetVariable => "55 8B EC 8B 4D ?? 0F B6 C1 48 83 F8 ?? 0F 87 ?? ?? ?? ?? 0F B6 80 ?? ?? ?? ?? FF 24 85 ?? ?? ?? ?? FF 75 ?? FF 75 ?? E8"@,
        Symbol::SetVariable => "55 8B EC 8B 4D 08 0F B6 C1 48 57 8B 7D 10 83 F8 53 0F ?? ?? ?? ?? ?? 0F B6 80 ?? ?? ?? ?? FF 24 85 ?? ?? ?? ?? FF 75 18 FF 75 14 57 FF 75 0C E8 ?? ?? ?? ?? 83 C4 10 5F 5D C3"@,
        Symbol::GetStringTableEntry => "55 8B EC 8B 4D 08 3B 0D ?? ?? ?? ?? 73 10 A1"@,
        Symbol::CallDatumProcByName => "55 8B EC 83 EC 0C 53 8B 5D 10 8D 45 FF 56 8B 75 14 57 6A 01 50 FF 75 1C C6 45 FF 00 FF 75 18 6A 00 56 53"@,
        Symbol::DecRefCount => "3D ?? ?? ?? ?? 74 14 50 E8 ?? ?? ?? ?? FF 75 0C FF 75 08 E8"@,
        Symbol::IncRefCount => "FF 75 10 E8 ?? ?? ?? ?? FF 75 0C 8B F8 FF 75 08 E8 ?? ?? ?? ?? 57"@,
    }
}

impl Symbol {
    /// The symbol resolved at position `i` of the bootstrap.
    pub fn at(i: usize) -> (s: Symbol)
        requires
            i < SYMBOL_COUNT,
        ensures
            s == symbol_at(i as int),
            symbol_index(s) == i,
    {
        if i == 0 {
            Symbol::StringTable
        } else if i == 1 {
            Symbol::GetProcArrayEntry
        } else if i == 2 {
            Symbol::GetStringId
        } else if i == 3 {
            Symbol::CallProcById
        } else if i == 4 {
            Symbol::GetVariable
        } else if i == 5 {
            Symbol::SetVariable
        } else if i == 6 {
            Symbol::GetStringTableEntry
        } else if i == 7 {
            Symbol::CallDatumProcByName
        } else if i == 8 {
            Symbol::DecRefCount
        } else {
            Symbol::IncRefCount
        }
    }

    /// The position of the symbol in the bootstrap's order.
    pub fn index(&self) -> (i: usize)
        ensures
            i == symbol_index(*self),
            i < SYMBOL_COUNT,
            symbol_at(i as int) == *self,
    {
        match self {
            Symbol::StringTable => 0,
            Symbol::GetProcArrayEntry => 1,
            Symbol::GetStringId => 2,
            Symbol::CallProcById => 3,
            Symbol::GetVariable => 4,
            Symbol::SetVariable => 5,
            Symbol::GetStringTableEntry => 6,
            Symbol::CallDatumProcByName => 7,
            Symbol::DecRefCount => 8,
            Symbol::IncRefCount => 9,
        }
    }

    /// How the symbol's match address turns into its capability address.
    pub fn rule(&self) -> (r: Rule)
        ensures
            r == rule_of(*self),
    {
        match self {
            Symbol::StringTable => Rule::Deref(1),
            Symbol::GetProcArrayEntry => Rule::RelativeCall(1),
            Symbol::DecRefCount => Rule::RelativeCall(20),
            Symbol::IncRefCount => Rule::RelativeCall(17),
            _ => Rule::Direct,
        }
    }

    /// The name under which the symbol's signature is filed.
    pub fn key(&self) -> (r: &'static str)
        ensures
            r@ == symbol_key(*self),
    {
        match self {
            Symbol::StringTable => "string_table",
            Symbol::GetProcArrayEntry => "get_proc_array_entry",
            Symbol::GetStringId => "get_string_id",
            Symbol::CallProcById => "call_proc_by_id",
            Symbol::GetVariable => "get_variable",
            Symbol::SetVariable => "set_variable",
            Symbol::GetStringTableEntry => "get_string_table_entry",
            Symbol::CallDatumProcByName => "call_datum_proc_by_name",
            Symbol::DecRefCount => "dec_ref_count",
            Symbol::IncRefCount => "inc_ref_count",
        }
    }

    /// The symbol filed under `name` in the signature table, if any.
    pub fn from_key(name: &str) -> (r: Option<Symbol>)
        ensures
            match r {
                Some(s) => symbol_key(s) == name@,
                None => forall|i: int| 0 <= i < SYMBOL_COUNT ==> symbol_key(#[trigger] symbol_at(i)) != name@,
            },
    {
        let wanted = name.to_owned();
        let mut i: usize = 0;
        while i < SYMBOL_COUNT
            invariant
                i <= SYMBOL_COUNT,
                wanted@ == name@,
                forall|j: int| 0 <= j < i ==> symbol_key(#[trigger] symbol_at(j)) != name@,
            decreases SYMBOL_COUNT - i,
        {
            let s = Symbol::at(i);
            if s.key().to_owned() == wanted {
                return Some(s);
            }
            i = i + 1;
        }
        None
    }

    /// The symbol's entry in the signature table.
    pub fn signature_text(&self) -> (r: &'static str)
        ensures
            r@ == signature_text_spec(*self),
    {
        match self {
            Symbol::StringTable => "A1 ?? ?? ?? ?? 8B 04 ?? 85 C0 0F 84 ?? ?? ?? ?? 80 3D ?? ?? ?? ?? 00 8B 18",
            Symbol::GetProcArrayEntry => "E8 ?? ?? ?? ?? 8B C8 8D 45 ?? 6A 01 50 FF 76 ?? 8A 46 ?? FF 76 ?? FE C0",
            Symbol::GetStringId => "55 8B EC 8B 45 ?? 83 EC ?? 53 56 8B 35",
            Symbol::CallProcById => "55 8B EC 81 EC ?? ?? ?? ?? A1 ?? ?? ?? ?? 33 C5 89 45 ?? 8B 55 ?? 8B 45",
            Symbol::GetVariable => "55 8B EC 8B 4D ?? 0F B6 C1 48 83 F8 ?? 0F 87 ?? ?? ?? ?? 0F B6 80 ?? ?? ?? ?? FF 24 85 ?? ?? ?? ?? FF 75 ?? FF 75 ?? E8",
            Symbol::SetVariable => "55 8B EC 8B 4D 08 0F B6 C1 48 57 8B 7D 10 83 F8 53 0F ?? ?? ?? ?? ?? 0F B6 80 ?? ?? ?? ?? FF 24 85 ?? ?? ?? ?? FF 75 18 FF 75 14 57 FF 75 0C E8 ?? ?? ?? ?? 83 C4 10 5F 5D C3",
            Symbol::GetStringTableEntry => "55 8B EC 8B 4D 08 3B 0D ?? ?? ?? ?? 73 10 A1",
            Symbol::CallDatumProcByName => "55 8B EC 83 EC 0C 53 8B 5D 10 8D 45 FF 56 8B 75 14 57 6A 01 50 FF 75 1C C6 45 FF 00 FF 75 18 6A 00 56 53",
            Symbol::DecRefCount => "3D ?? ?? ?? ?? 74 14 50 E8 ?? ?? ?? ?? FF 75 0C FF 75 08 E8",
            Symbol::IncRefCount => "FF 75 10 E8 ?? ?? ?? ?? FF 75 0C 8B F8 FF 75 08 E8 ?? ?? ?? ?? 57",
        }
    }
}

/// The 32-bit host address space wraps around at this size.
pub const ADDRESS_SPACE: u64 = 0x1_0000_0000;

/// The unsigned 32-bit little-endian integer stored at `at`.
pub open spec fn u32_le(b: Seq<u8>, at: int) -> int {
    b[at] + b[at + 1] * 256 + b[at + 2] * 65536 + b[at + 3] * 16777216
}

/// The capability address that a rule gives for a match at offset `m` of an
/// image loaded at `base`; none where the rule would read past the image.
pub open spec fn apply_rule_spec(rule: Rule, image: Seq<u8>, base: u32, m: int) -> Option<u32> {
    match rule {
        Rule::Direct => Some(((base + m) % (ADDRESS_SPACE as int)) as u32),
        Rule::Deref(k) => if m + k + 4 <= image.len() {
            Some(u32_le(image, m + k) as u32)
        } else {
            None
        },
        Rule::RelativeCall(k) => if m + k + 4 <= image.len() {
            Some(((base + m + k + 4 + u32_le(image, m + k)) % (ADDRESS_SPACE as int)) as u32)
        } else {
            None
        },
    }
}

/// The address of one symbol, or why it could not be had.
pub open spec fn resolve_symbol_spec(s: Symbol, image: Seq<u8>, base: u32) -> Result<u32, Error> {
    match compile_spec(signature_text_spec(s)) {
        Some(sig) => if sig.len() == 0 {
            Err(Error::InvalidSignatureText)
        } else {
            match first_match(sig, image) {
                Some(m) => match apply_rule_spec(rule_of(s), image, base, m) {
                    Some(a) => Ok(a),
                    None => Err(Error::SignatureNotFound(s)),
                },
                None => Err(Error::SignatureNotFound(s)),
            }
        },
        None => Err(Error::InvalidSignatureText),
    }
}

/// The addresses of the symbols from position `i` on, or the first failure.
pub open spec fn resolve_from(image: Seq<u8>, base: u32, i: int) -> Result<Seq<u32>, Error>
    decreases SYMBOL_COUNT - i,
{
    if i < 0 || i >= SYMBOL_COUNT {
        Ok(Seq::empty())
    } else {
        match resolve_symbol_spec(symbol_at(i), image, base) {
            Ok(a) => match resolve_from(image, base, i + 1) {
                Ok(rest) => Ok(seq![a] + rest),
                Err(e) => Err(e),
            },
            Err(e) => Err(e),
        }
    }
}

/// The addresses of all symbols in order, or the first failure.
pub open spec fn resolve_all_spec(image: Seq<u8>, base: u32) -> Result<Seq<u32>, Error> {
    resolve_from(image, base, 0)
}

pub proof fn lemma_resolve_from_len(image: Seq<u8>, base: u32, i: int)
    requires
        0 <= i <= SYMBOL_COUNT,
    ensures
        resolve_from(image, base, i) matches Ok(a) ==> a.len() == SYMBOL_COUNT - i,
    decreases SYMBOL_COUNT - i,
{
    if i < SYMBOL_COUNT {
        lemma_resolve_from_len(image, base, i + 1);
    }
}

/// Reads the unsigned 32-bit little-endian integer stored at `at`.
pub fn read_u32_le(image: &[u8], at: usize) -> (r: u32)
    requires
        at + 4 <= image@.len(),
    ensures
        r == u32_le(image@, at as int),
{
    let b0 = image[at] as u32;
    let b1 = image[at + 1] as u32;
    let b2 = image[at + 2] as u32;
    let b3 = image[at + 3] as u32;
    b0 + b1 * 256 + b2 * 65536 + b3 * 16777216
}

/// Applies a symbol's rule to a match at offset `m` of an image loaded at `base`.
pub fn apply_rule(rule: Rule, image: &[u8], base: u32, m: usize) -> (r: Option<u32>)
    requires
        m <= image@.len(),
    ensures
        r == apply_rule_spec(rule, image@, base, m as int),
{
    match rule {
        Rule::Direct => {
            let q = (m as u64) % ADDRESS_SPACE;
            proof {
                lemma_add_mod_noop_right(base as int, m as int, ADDRESS_SPACE as int);
            }
            Some(((base as u64 + q) % ADDRESS_SPACE) as u32)
        },
        Rule::Deref(k) => {
            if k <= image.len() - m && 4 <= image.len() - m - k {
                Some(read_u32_le(image, m + k))
            } else {
                None
            }
        },
        Rule::RelativeCall(k) => {
            if k <= image.len() - m && 4 <= image.len() - m - k {
                let d = read_u32_le(image, m + k) as u64;
                let q = ((m + k + 4) as u64) % ADDRESS_SPACE;
                proof {
                    lemma_add_mod_noop_right(base + d, m + k + 4, ADDRESS_SPACE as int);
                }
                Some(((base as u64 + d + q) % ADDRESS_SPACE) as u32)
            } else {
                None
            }
        },
    }
}

/// Resolves one symbol against an image loaded at `base`.
pub fn resolve_symbol(s: Symbol, image: &[u8], base: u32) -> (r: Result<u32, Error>)
    ensures
        r == resolve_symbol_spec(s, image@, base),
{
    let sig: Vec<ByteMatcher> = match compile_signature(s.signature_text()) {
        Ok(v) => v,
        Err(e) => return Err(e),
    };
    let found = match find(image, sig.as_slice()) {
        Ok(f) => f,
        Err(e) => return Err(e),
    };
    proof {
        lemma_first_match(sig@, image@, found);
    }
    match found {
        Some(m) => match apply_rule(s.rule(), image, base, m) {
            Some(a) => Ok(a),
            None => Err(Error::SignatureNotFound(s)),
        },
        None => Err(Error::SignatureNotFound(s)),
    }
}

/// Resolves every symbol in order, stopping at the first that fails.
pub fn resolve_all(image: &[u8], base: u32) -> (r: Result<Vec<u32>, Error>)
    ensures
        match r {
            Ok(a) => resolve_all_spec(image@, base) == Ok::<Seq<u32>, Error>(a@),
            Err(e) => resolve_all_spec(image@, base) == Err::<Seq<u32>, Error>(e),
        },
        r matches Ok(a) ==> a@.len() == SYMBOL_COUNT,
{
    let mut out: Vec<u32> = Vec::new();
    let mut i: usize = 0;
    proof {
        lemma_resolve_from_len(image@, base, 0);
        if let Ok(rest) = resolve_from(image@, base, 0) {
            assert(out@ + rest =~= rest);
        }
    }
    while i < SYMBOL_COUNT
        invariant
            i <= SYMBOL_COUNT,
            out@.len() == i,
            match resolve_from(image@, base, i as int) {
                Ok(rest) => resolve_all_spec(image@, base) == Ok::<Seq<u32>, Error>(out@ + rest),
                Err(e) => resolve_all_spec(image@, base) == Err::<Seq<u32>, Error>(e),
            },
        decreases SYMBOL_COUNT - i,
    {
        let s = Symbol::at(i);
        match resolve_symbol(s, image, base) {
            Ok(a) => {
                proof {
                    if let Ok(rest) = resolve_from(image@, base, i + 1) {
                        assert(out@.push(a) + rest =~= out@ + (seq![a] + rest));
                    }
                }
                out.push(a);
                i = i + 1;
            },
            Err(e) => {
                return Err(e);
            },
        }
    }
    assert(out@ + Seq::<u32>::empty() =~= out@);
    Ok(out)
}

} // verus!
