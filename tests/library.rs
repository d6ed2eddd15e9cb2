use dm::bootstrap::{apply_rule, read_u32_le, resolve_symbol, Rule, Symbol, SYMBOL_COUNT};
use dm::error::Error;
use dm::hooks::{encode_return, hello_proc_hook, unpack_args, DMContext, HookRegistry, ProcTable};
use dm::runtime::Runtime;
use dm::scanner::find;
use dm::signature::{compile_signature, ByteMatcher};
use dm::string::StringRef;
use dm::value::{RawValue, RefLedger, RefOp, Value, ValueTag};

#[test]
fn test() {}

#[test]
fn compiles_wildcard_signature() {
    let sig = compile_signature("AA ?? BB").unwrap();
    assert_eq!(sig, vec![ByteMatcher::Exact(0xAA), ByteMatcher::Wildcard, ByteMatcher::Exact(0xBB)]);
}

#[test]
fn compiles_lower_case_and_extra_spaces() {
    let sig = compile_signature("  0f ??  e8 ").unwrap();
    assert_eq!(sig, vec![ByteMatcher::Exact(0x0F), ByteMatcher::Wildcard, ByteMatcher::Exact(0xE8)]);
}

#[test]
fn rejects_odd_length_token() {
    assert!(matches!(compile_signature("AA B"), Err(Error::InvalidSignatureText)));
    assert!(matches!(compile_signature("AAB"), Err(Error::InvalidSignatureText)));
}

#[test]
fn rejects_non_hex_text() {
    assert!(matches!(compile_signature("AA GG"), Err(Error::InvalidSignatureText)));
    assert!(matches!(compile_signature("?A"), Err(Error::InvalidSignatureText)));
}

#[test]
fn rejects_empty_signature_text() {
    assert!(matches!(compile_signature(""), Err(Error::InvalidSignatureText)));
    assert!(matches!(compile_signature("   "), Err(Error::InvalidSignatureText)));
}

#[test]
fn every_table_signature_compiles() {
    for i in 0..SYMBOL_COUNT {
        let s = Symbol::at(i);
        assert_eq!(s.index(), i);
        assert!(compile_signature(s.signature_text()).is_ok());
    }
}

#[test]
fn finds_first_match_offset() {
    let image = [0x90u8, 0xAA, 0x12, 0xBB, 0x90];
    let sig = compile_signature("AA ?? BB").unwrap();
    assert_eq!(find(&image, &sig).unwrap(), Some(1));
}

#[test]
fn finds_earliest_of_two_matches() {
    let image = [0xAAu8, 0x01, 0xBB, 0xAA, 0x02, 0xBB];
    let sig = compile_signature("AA ?? BB").unwrap();
    assert_eq!(find(&image, &sig).unwrap(), Some(0));
}

#[test]
fn absent_pattern_is_not_found() {
    let image = [0x90u8, 0xAA, 0x12, 0xBC, 0x90];
    let sig = compile_signature("AA ?? BB").unwrap();
    assert_eq!(find(&image, &sig).unwrap(), None);
}

#[test]
fn partial_match_at_end_is_not_found() {
    let image = [0x90u8, 0x90, 0x90, 0xAA, 0x12];
    let sig = compile_signature("AA ?? BB").unwrap();
    assert_eq!(find(&image, &sig).unwrap(), None);
    let sig2 = compile_signature("AA ??").unwrap();
    assert_eq!(find(&image, &sig2).unwrap(), Some(3));
}

#[test]
fn empty_signature_is_refused_by_scanner() {
    let image = [0x90u8, 0xAA];
    assert!(matches!(find(&image, &[]), Err(Error::InvalidSignatureText)));
}

#[test]
fn reads_little_endian_u32() {
    assert_eq!(read_u32_le(&[0x00, 0x78, 0x56, 0x34, 0x12], 1), 0x12345678);
}

#[test]
fn direct_rule_adds_base() {
    assert_eq!(apply_rule(Rule::Direct, &[0u8; 8], 0x0040_0000, 3), Some(0x0040_0003));
}

#[test]
fn deref_rule_reads_embedded_address() {
    let image = [0xA1u8, 0x78, 0x56, 0x34, 0x12];
    assert_eq!(apply_rule(Rule::Deref(1), &image, 0x1000, 0), Some(0x12345678));
    assert_eq!(apply_rule(Rule::Deref(2), &image, 0x1000, 0), None);
}

#[test]
fn relative_call_rule_follows_displacement() {
    let forward = [0xE8u8, 0x10, 0x00, 0x00, 0x00];
    assert_eq!(apply_rule(Rule::RelativeCall(1), &forward, 0x1000, 0), Some(0x1015));
    let backward = [0x90u8, 0xE8, 0xF0, 0xFF, 0xFF, 0xFF];
    assert_eq!(apply_rule(Rule::RelativeCall(1), &backward, 0x1000, 1), Some(0x1006 - 0x10));
    assert_eq!(apply_rule(Rule::RelativeCall(2), &backward, 0x1000, 1), None);
}

/// An image in which every table signature appears once, wildcards as zero,
/// each followed by four bytes of room for a trailing displacement.
fn full_image() -> (Vec<u8>, Vec<usize>) {
    let mut image = vec![0xCCu8; 4];
    let mut starts = Vec::new();
    for i in 0..SYMBOL_COUNT {
        let sig = compile_signature(Symbol::at(i).signature_text()).unwrap();
        starts.push(image.len());
        for m in sig {
            image.push(match m {
                ByteMatcher::Exact(b) => b,
                ByteMatcher::Wildcard => 0,
            });
        }
        image.extend_from_slice(&[0, 0, 0, 0, 0xCC, 0xCC]);
    }
    (image, starts)
}

#[test]
fn resolves_direct_symbol_at_its_match() {
    let (image, starts) = full_image();
    let at = resolve_symbol(Symbol::GetStringId, &image, 0x1000_0000).unwrap();
    assert_eq!(at as usize, 0x1000_0000 + starts[Symbol::GetStringId.index()]);
}

#[test]
fn attach_twice_succeeds_and_resolves_once() {
    let (image, _) = full_image();
    let mut rt = Runtime::new();
    assert!(!rt.is_initialized());
    assert_eq!(rt.attach(Some(&image), 0x1000_0000), "SUCCESS");
    let first = rt.address(Symbol::GetVariable);
    assert!(first.is_some());
    // The second attach resolves nothing: even without the module it succeeds
    // and keeps the addresses published by the first.
    assert_eq!(rt.attach(None, 0), "SUCCESS");
    assert_eq!(rt.address(Symbol::GetVariable), first);
}

#[test]
fn failed_symbol_publishes_nothing() {
    let (mut image, starts) = full_image();
    // Break the signature of GetVariable only.
    let at = starts[Symbol::GetVariable.index()];
    image[at] = 0x00;
    let mut rt = Runtime::new();
    assert_eq!(rt.attach(Some(&image), 0x1000_0000), "FAILED (Couldn't find GetVariable)");
    assert!(!rt.is_initialized());
    assert_eq!(rt.address(Symbol::StringTable), None);
    assert_eq!(rt.address(Symbol::GetStringId), None);
}

#[test]
fn missing_module_is_reported() {
    let mut rt = Runtime::new();
    assert_eq!(rt.attach(None, 0), "FAILED (Couldn't find the host module)");
    assert!(!rt.is_initialized());
}

#[test]
fn execution_context_slot() {
    let mut rt = Runtime::new();
    rt.enter_context(7);
    rt.leave_context();
    assert!(!rt.is_initialized());
}

#[test]
fn copies_and_releases_balance_reference_count() {
    let mut ledger = RefLedger::new();
    let handle = RawValue { tag: 0x21, data: 77 };
    let v = Value::new(handle, &mut ledger).unwrap();
    let c1 = v.copy(&mut ledger);
    let c2 = v.copy(&mut ledger);
    let c3 = c1.copy(&mut ledger);
    assert_eq!(c3, v);
    v.release(&mut ledger);
    c1.release(&mut ledger);
    c2.release(&mut ledger);
    c3.release(&mut ledger);
    let ops = ledger.take();
    assert_eq!(ops.len(), 8);
    let incs = ops.iter().filter(|o| **o == RefOp::Inc(handle)).count();
    let decs = ops.iter().filter(|o| **o == RefOp::Dec(handle)).count();
    assert_eq!(incs, 4);
    assert_eq!(decs, 4);
    assert!(matches!(ops[0], RefOp::Inc(_)));
    assert!(matches!(ops[7], RefOp::Dec(_)));
    assert_eq!(ledger.len(), 0);
}

#[test]
fn primitive_values_touch_no_count() {
    let mut ledger = RefLedger::new();
    let n = Value::new(RawValue { tag: 0x2A, data: 42.0f32.to_bits() }, &mut ledger).unwrap();
    let s = Value::new(RawValue { tag: 0x06, data: 3 }, &mut ledger).unwrap();
    let n2 = n.copy(&mut ledger);
    n.release(&mut ledger);
    n2.release(&mut ledger);
    s.release(&mut ledger);
    Value::null().release(&mut ledger);
    assert_eq!(ledger.len(), 0);
}

#[test]
fn unknown_tag_is_refused() {
    let mut ledger = RefLedger::new();
    assert!(matches!(Value::new(RawValue { tag: 0x77, data: 1 }, &mut ledger), Err(Error::UnrecognizedValueTag(0x77))));
    let args = [RawValue { tag: 0x21, data: 1 }, RawValue { tag: 0x77, data: 1 }];
    assert!(matches!(unpack_args(&args, &mut ledger), Err(Error::UnrecognizedValueTag(0x77))));
    assert_eq!(ledger.len(), 0);
}

#[test]
fn values_compare_by_kind_and_identity() {
    let mut ledger = RefLedger::new();
    let a = Value::new(RawValue { tag: 0x02, data: 9 }, &mut ledger).unwrap();
    let b = Value::new(RawValue { tag: 0x02, data: 9 }, &mut ledger).unwrap();
    let c = Value::new(RawValue { tag: 0x03, data: 9 }, &mut ledger).unwrap();
    assert_eq!(a, b);
    assert_ne!(a, c);
    assert_eq!(Value::number(5), Value::number(5));
    assert_ne!(Value::number(5), Value::string_id(5));
    assert_eq!(ValueTag::from_byte(0x0F), Some(ValueTag::List));
    assert_eq!(ValueTag::Datum.to_byte(), 0x21);
}

#[test]
fn string_refs() {
    let s = StringRef::from_intern_result(Some(12)).unwrap();
    assert_eq!(s, StringRef::from_id(12));
    assert_ne!(s, StringRef::from_id(13));
    assert!(matches!(StringRef::from_intern_result(None), Err(Error::HostCallFailed(Symbol::GetStringId))));
    let v = s.to_value();
    assert_eq!(v.to_raw(), RawValue { tag: 0x06, data: 12 });
    assert_eq!(StringRef::from_value(&v), Some(s));
    assert_eq!(StringRef::from_value(&Value::null()), None);
    assert_eq!(s.text_from_entry(Some("x".to_string())).unwrap(), "x");
    assert!(matches!(s.text_from_entry(None), Err(Error::HostCallFailed(Symbol::GetStringTableEntry))));
}

type Handler = fn(&DMContext, &Value, &Value, &Vec<Value>) -> Value;

fn echo_first(_ctx: &DMContext, _src: &Value, _usr: &Value, args: &Vec<Value>) -> Value {
    Value::number(args[0].data())
}

fn answer_one(_ctx: &DMContext, _src: &Value, _usr: &Value, _args: &Vec<Value>) -> Value {
    Value::number(1.0f32.to_bits())
}

fn answer_two(_ctx: &DMContext, _src: &Value, _usr: &Value, _args: &Vec<Value>) -> Value {
    Value::number(2.0f32.to_bits())
}

fn procs() -> ProcTable {
    let mut procs = ProcTable::new();
    procs.add("/proc/other".to_string());
    procs.add("/proc/test".to_string());
    procs
}

#[test]
fn hooked_call_round_trips_values() {
    let procs = procs();
    let mut hooks: HookRegistry<Handler> = HookRegistry::new();
    hooks.hook(&procs, "/proc/test", echo_first).unwrap();
    let id = procs.find("/proc/test").unwrap();
    assert_eq!(id, 1);

    // The host dispatcher calls proc 1 with [42, "x"], where "x" has id 5.
    let mut ledger = RefLedger::new();
    let raw_args = [RawValue { tag: 0x2A, data: 42.0f32.to_bits() }, RawValue { tag: 0x06, data: 5 }];
    let src = Value::new(RawValue { tag: 0x21, data: 3 }, &mut ledger).unwrap();
    let usr = Value::new(RawValue { tag: 0x03, data: 4 }, &mut ledger).unwrap();
    let args = unpack_args(&raw_args, &mut ledger).unwrap();
    assert_eq!(args[0].tag(), ValueTag::Number);
    assert_eq!(f32::from_bits(args[0].data()), 42.0);
    assert_eq!(StringRef::from_value(&args[1]), Some(StringRef::from_id(5)));
    assert_eq!(src.to_raw(), RawValue { tag: 0x21, data: 3 });
    assert_eq!(usr.to_raw(), RawValue { tag: 0x03, data: 4 });

    let handler = hooks.handler_for(id).unwrap();
    let ret = handler(&DMContext { handle: 9 }, &src, &usr, &args);
    assert_eq!(encode_return(ret), RawValue { tag: 0x2A, data: 42.0f32.to_bits() });
    assert_eq!(hooks.handler_for(0).is_none(), true);
}

#[test]
fn rehooking_replaces_handler() {
    let procs = procs();
    let mut hooks: HookRegistry<Handler> = HookRegistry::new();
    hooks.hook(&procs, "/proc/test", answer_one).unwrap();
    hooks.hook(&procs, "/proc/test", answer_two).unwrap();
    let handler = hooks.handler_for(1).unwrap();
    let ret = handler(&DMContext { handle: 0 }, &Value::null(), &Value::null(), &vec![]);
    assert_eq!(f32::from_bits(ret.data()), 2.0);
}

#[test]
fn hooking_unknown_proc_fails() {
    let procs = procs();
    let mut hooks: HookRegistry<Handler> = HookRegistry::new();
    match hooks.hook(&procs, "/proc/missing", answer_one) {
        Err(Error::ProcNotFound(name)) => assert_eq!(name, "/proc/missing"),
        _ => panic!("expected ProcNotFound"),
    }
    assert!(hooks.handler_for(0).is_none());
    assert!(hooks.handler_for(1).is_none());
}

#[test]
fn sample_handler_answers_with_greeting() {
    let args = vec![Value::number(0)];
    let r = hello_proc_hook(&DMContext { handle: 1 }, &Value::null(), &Value::null(), &args, StringRef::from_id(40));
    assert_eq!(r.to_raw(), RawValue { tag: 0x06, data: 40 });
}

#[test]
fn signature_table_is_keyed_by_name() {
    assert_eq!(Symbol::from_key("get_variable"), Some(Symbol::GetVariable));
    assert_eq!(Symbol::from_key("string_table"), Some(Symbol::StringTable));
    assert_eq!(Symbol::from_key("dec_ref_count_call"), None);
    for i in 0..SYMBOL_COUNT {
        let s = Symbol::at(i);
        assert_eq!(Symbol::from_key(s.key()), Some(s));
    }
}
