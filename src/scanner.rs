use vstd::prelude::*;
use crate::error::Error;
use crate::signature::ByteMatcher;

verus! {

/// Whether a matcher accepts a byte: a wildcard accepts every byte.
pub open spec fn accepts(m: ByteMatcher, b: u8) -> bool {
    match m {
        ByteMatcher::Exact(x) => x == b,
        ByteMatcher::Wildcard => true,
    }
}

/// The signature matches the image at offset `i`, wholly inside the image.
pub open spec fn matches_at(sig: Seq<ByteMatcher>, image: Seq<u8>, i: int) -> bool {
    0 <= i && i + sig.len() <= image.len() && forall|j: int|
        0 <= j < sig.len() ==> #[trigger] accepts(sig[j], image[i + j])
}

/// `r` is the first offset at which the signature matches, or none if none does.
pub open spec fn is_first_match(sig: Seq<ByteMatcher>, image: Seq<u8>, r: Option<usize>) -> bool {
    match r {
        Some(i) => matches_at(sig, image, i as int) && forall|k: int|
            0 <= k < i ==> !#[trigger] matches_at(sig, image, k),
        None => forall|k: int| !#[trigger] matches_at(sig, image, k),
    }
}

/// The first offset at which the signature matches, if any does.
pub open spec fn first_match(sig: Seq<ByteMatcher>, image: Seq<u8>) -> Option<int> {
    if exists|k: int| is_least_match(sig, image, k) {
        Some(choose|k: int| is_least_match(sig, image, k))
    } else {
        None
    }
}

pub open spec fn is_least_match(sig: Seq<ByteMatcher>, image: Seq<u8>, k: int) -> bool {
    matches_at(sig, image, k) && forall|j: int| 0 <= j < k ==> !#[trigger] matches_at(sig, image, j)
}

/// A first match found by a scan is the one `first_match` names.
pub proof fn lemma_first_match(sig: Seq<ByteMatcher>, image: Seq<u8>, r: Option<usize>)
    requires
        is_first_match(sig, image, r),
    ensures
        first_match(sig, image) == match r {
            Some(i) => Some(i as int),
            None => None::<int>,
        },
{
    match r {
        Some(i) => {
            assert(is_least_match(sig, image, i as int));
            let k = choose|k: int| is_least_match(sig, image, k);
            if k < i {
                assert(!matches_at(sig, image, k));
            }
            if i < k {
                assert(!matches_at(sig, image, i as int));
            }
        },
        None => {
            if exists|k: int| is_least_match(sig, image, k) {
                let k = choose|k: int| is_least_match(sig, image, k);
                assert(matches_at(sig, image, k));
            }
        },
    }
}

/// The same matcher in the form the scanning crate takes: `None` is a wildcard.
pub open spec fn as_option(m: ByteMatcher) -> Option<u8> {
    match m {
        ByteMatcher::Exact(x) => Some(x),
        ByteMatcher::Wildcard => None,
    }
}

pub open spec fn option_matches_at(p: Seq<Option<u8>>, image: Seq<u8>, i: int) -> bool {
    0 <= i && i + p.len() <= image.len() && forall|j: int|
        0 <= j < p.len() ==> (#[trigger] p[j] is None || p[j] == Some(image[i + j]))
}

pub open spec fn is_first_option_match(p: Seq<Option<u8>>, image: Seq<u8>, r: Option<usize>) -> bool {
    match r {
        Some(i) => option_matches_at(p, image, i as int) && forall|k: int|
            0 <= k < i ==> !#[trigger] option_matches_at(p, image, k),
        None => forall|k: int| !#[trigger] option_matches_at(p, image, k),
    }
}

/// Relies on sigscan::scan: it walks the windows of the pattern's length in
/// order and returns the index of the first window in which every position is
/// `None` or equal to the byte. `slice::windows` panics on an empty pattern.
#[verifier::external_body]
fn scan_bytes(pattern: &Vec<Option<u8>>, image: &[u8]) -> (r: Option<usize>)
    requires
        pattern@.len() > 0,
    ensures
        is_first_option_match(pattern@, image@, r),
{
    sigscan::scan(pattern.as_slice(), image)
}

/// Finds the first offset of the image at which the signature matches.
/// An empty signature is refused rather than matching everywhere.
pub fn find(image: &[u8], sig: &[ByteMatcher]) -> (r: Result<Option<usize>, Error>)
    ensures
        match r {
            Ok(found) => sig@.len() > 0 && is_first_match(sig@, image@, found),
            Err(e) => sig@.len() == 0 && e == Error::InvalidSignatureText,
        },
        r matches Ok(Some(i)) ==> i + sig@.len() <= image@.len(),
{
    if sig.len() == 0 {
        return Err(Error::InvalidSignatureText);
    }
    let mut pattern: Vec<Option<u8>> = Vec::new();
    let mut j: usize = 0;
    while j < sig.len()
        invariant
            j <= sig@.len(),
            pattern@.len() == j,
            forall|k: int| 0 <= k < j ==> #[trigger] pattern@[k] == as_option(sig@[k]),
        decreases sig@.len() - j,
    {
        let o = match sig[j] {
            ByteMatcher::Exact(x) => Some(x),
            ByteMatcher::Wildcard => None,
        };
        pattern.push(o);
        j = j + 1;
    }
    let found = scan_bytes(&pattern, image);
    assert forall|k: int| #[trigger] matches_at(sig@, image@, k) == option_matches_at(pattern@, image@, k) by {
        if matches_at(sig@, image@, k) {
            assert forall|j: int| 0 <= j < pattern@.len() implies (#[trigger] pattern@[j] is None || pattern@[j] == Some(image@[k + j])) by {
                assert(accepts(sig@[j], image@[k + j]));
            }
        }
        if option_matches_at(pattern@, image@, k) {
            assert forall|j: int| 0 <= j < sig@.len() implies #[trigger] accepts(sig@[j], image@[k + j]) by {
                assert(pattern@[j] is None || pattern@[j] == Some(image@[k + j]));
            }
        }
    }
    Ok(found)
}

} // verus!
