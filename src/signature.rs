use vstd::prelude::*;
use vstd::string::StrSliceExecFns;
use crate::error::Error;

verus! {

/// One position of a signature: a byte that must be equal, or any byte.
#[derive(Clone, Copy, Debug, PartialEq, Eq, Structural)]
pub enum ByteMatcher {
    Exact(u8),
    Wildcard,
}

/// The value of a hexadecimal digit, in either case.
pub open spec fn hex_digit_spec(c: char) -> Option<u8> {
    if '0' <= c && c <= '9' {
        Some((c as u32 - '0' as u32) as u8)
    } else if 'A' <= c && c <= 'F' {
        Some((c as u32 - 'A' as u32 + 10) as u8)
    } else if 'a' <= c && c <= 'f' {
        Some((c as u32 - 'a' as u32 + 10) as u8)
    } else {
        None
    }
}

/// The matcher that a two-character token stands for: `??`, or two hex digits.
pub open spec fn token_spec(a: char, b: char) -> Option<ByteMatcher> {
    if a == '?' && b == '?' {
        Some(ByteMatcher::Wildcard)
    } else {
        match (hex_digit_spec(a), hex_digit_spec(b)) {
            (Some(hi), Some(lo)) => Some(ByteMatcher::Exact((hi * 16 + lo) as u8)),
            _ => None,
        }
    }
}

/// Signature text read from the left: spaces separate tokens, and each token
/// is exactly two characters followed by a space or the end of the text.
pub open spec fn compile_spec(s: Seq<char>) -> Option<Seq<ByteMatcher>>
    decreases s.len(),
{
    if s.len() == 0 {
        Some(Seq::empty())
    } else if s[0] == ' ' {
        compile_spec(s.drop_first())
    } else if s.len() >= 2 && (s.len() == 2 || s[2] == ' ') {
        match token_spec(s[0], s[1]) {
            Some(m) => match compile_spec(s.subrange(2, s.len() as int)) {
                Some(rest) => Some(seq![m] + rest),
                None => None,
            },
            None => None,
        }
    } else {
        None
    }
}

/// A text is a valid signature when it reads as tokens and holds at least one.
pub open spec fn valid_signature_text(s: Seq<char>) -> bool {
    match compile_spec(s) {
        Some(m) => m.len() > 0,
        None => false,
    }
}

fn hex_digit(c: char) -> (r: Option<u8>)
    ensures
        r == hex_digit_spec(c),
{
    if '0' <= c && c <= '9' {
        Some((c as u32 - '0' as u32) as u8)
    } else if 'A' <= c && c <= 'F' {
        Some((c as u32 - 'A' as u32 + 10) as u8)
    } else if 'a' <= c && c <= 'f' {
        Some((c as u32 - 'a' as u32 + 10) as u8)
    } else {
        None
    }
}

fn token(a: char, b: char) -> (r: Option<ByteMatcher>)
    ensures
        r == token_spec(a, b),
{
    if a == '?' && b == '?' {
        Some(ByteMatcher::Wildcard)
    } else {
        match (hex_digit(a), hex_digit(b)) {
            (Some(hi), Some(lo)) => Some(ByteMatcher::Exact(hi * 16 + lo)),
            _ => None,
        }
    }
}

/// Compiles signature text such as `"AA ?? BB"` into its matchers.
pub fn compile_signature(text: &str) -> (r: Result<Vec<ByteMatcher>, Error>)
    ensures
        match r {
            Ok(v) => compile_spec(text@) == Some(v@) && v@.len() > 0,
            Err(e) => e == Error::InvalidSignatureText && !valid_signature_text(text@),
        },
{
    let n = text.unicode_len();
    let ghost s = text@;
    let mut out: Vec<ByteMatcher> = Vec::new();
    let mut i: usize = 0;
    assert(s.subrange(0, n as int) =~= s);
    proof {
        if let Some(rest) = compile_spec(s) {
            assert(out@ + rest =~= rest);
        }
    }
    while i < n
        invariant
            n == s.len(),
            s == text@,
            i <= n,
            match compile_spec(s.subrange(i as int, n as int)) {
                Some(rest) => compile_spec(s) == Some(out@ + rest),
                None => compile_spec(s) is None,
            },
        decreases n - i,
    {
        let ghost t = s.subrange(i as int, n as int);
        let c = text.get_char(i);
        if c == ' ' {
            assert(t.drop_first() =~= s.subrange(i + 1, n as int));
            i = i + 1;
        } else if n - i >= 2 && (n - i == 2 || text.get_char(i + 2) == ' ') {
            let d = text.get_char(i + 1);
            assert(t.subrange(2, t.len() as int) =~= s.subrange(i + 2, n as int));
            match token(c, d) {
                Some(m) => {
                    proof {
                        let tail = s.subrange(i + 2, n as int);
                        if let Some(rest) = compile_spec(tail) {
                            assert(out@.push(m) + rest =~= out@ + (seq![m] + rest));
                        }
                    }
                    out.push(m);
                    i = i + 2;
                },
                None => {
                    return Err(Error::InvalidSignatureText);
                },
            }
        } else {
            return Err(Error::InvalidSignatureText);
        }
    }
    assert(s.subrange(n as int, n as int) =~= Seq::<char>::empty());
    assert(out@ + Seq::<ByteMatcher>::empty() =~= out@);
    if out.len() == 0 {
        return Err(Error::InvalidSignatureText);
    }
    Ok(out)
}

} // verus!
