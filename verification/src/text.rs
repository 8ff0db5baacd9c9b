//! Text as the overlay takes it: a byte sequence that a zero byte ends.

use crate::status::NotificationError;
use vstd::prelude::*;
use vstd::string::StringSliceAdditionalSpecFns;

verus! {

/// `i` is the place of the first zero byte of `bytes`.
pub open spec fn is_first_zero(bytes: Seq<u8>, i: int) -> bool {
    &&& 0 <= i < bytes.len()
    &&& bytes[i] == 0
    &&& forall|j: int| 0 <= j < i ==> bytes[j] != 0
}

/// The place of the first zero byte of `bytes`, where there is one.
pub open spec fn zero_position(bytes: Seq<u8>) -> int {
    choose|i: int| is_first_zero(bytes, i)
}

/// What the overlay is handed for `bytes`: the bytes and a closing zero, or
/// the error that names the first zero byte inside them.
pub open spec fn terminated(bytes: Seq<u8>) -> Result<Seq<u8>, NotificationError> {
    if bytes.contains(0u8) {
        Err(NotificationError::InternalZeroByte(zero_position(bytes) as usize))
    } else {
        Ok(bytes.push(0u8))
    }
}

/// A byte sequence has at most one first zero byte.
pub proof fn lemma_first_zero_unique(bytes: Seq<u8>, i: int, k: int)
    requires
        is_first_zero(bytes, i),
        is_first_zero(bytes, k),
    ensures
        i == k,
{
    if i < k {
        assert(bytes[i] != 0);
    } else if k < i {
        assert(bytes[k] != 0);
    }
}

/// A text that holds no zero byte is accepted, and what comes out ends in the
/// only zero byte it has; a text that holds one is refused.
pub proof fn lemma_terminated(bytes: Seq<u8>)
    ensures
        terminated(bytes) is Ok <==> !bytes.contains(0u8),
        terminated(bytes) matches Ok(out) ==> is_first_zero(out, bytes.len() as int),
        terminated(bytes) matches Err(e) ==> e is InternalZeroByte,
{
    if !bytes.contains(0u8) {
        let out = bytes.push(0u8);
        assert forall|j: int| 0 <= j < bytes.len() implies out[j] != 0 by {
            assert(bytes[j] == out[j]);
            if bytes[j] == 0 {
                assert(bytes.contains(0u8));
            }
        }
    }
}

/// Converts `text` to the zero-terminated bytes of its UTF-8 encoding. Fails
/// with `InternalZeroByte` and the place of the first zero byte if the text
/// holds one.
pub fn c_string(text: &str) -> (r: Result<Vec<u8>, NotificationError>)
    ensures
        match r {
            Ok(out) => Ok::<Seq<u8>, NotificationError>(out@) == terminated(text.spec_bytes()),
            Err(e) => Err::<Seq<u8>, NotificationError>(e) == terminated(text.spec_bytes()),
        },
        r is Ok <==> !text.spec_bytes().contains(0u8),
        r matches Ok(out) ==> out@ == text.spec_bytes().push(0u8),
        r matches Err(e) ==> exists|i: int|
            is_first_zero(text.spec_bytes(), i) && e == NotificationError::InternalZeroByte(
                i as usize,
            ),
{
    let bytes = text.as_bytes();
    let ghost spec_bytes = text.spec_bytes();
    let n: usize = bytes.len();
    let mut out: Vec<u8> = Vec::new();
    let mut i: usize = 0;
    while i < n
        invariant
            bytes@ == spec_bytes,
            spec_bytes == text.spec_bytes(),
            n == spec_bytes.len(),
            0 <= i <= n,
            out@ == spec_bytes.subrange(0, i as int),
            forall|j: int| 0 <= j < i ==> spec_bytes[j] != 0,
        decreases n - i,
    {
        let b: u8 = bytes[i];
        if b == 0 {
            proof {
                assert(is_first_zero(spec_bytes, i as int));
                assert(spec_bytes.contains(0u8));
                lemma_first_zero_unique(spec_bytes, i as int, zero_position(spec_bytes));
            }
            return Err(NotificationError::InternalZeroByte(i));
        }
        out.push(b);
        assert(out@ == spec_bytes.subrange(0, i + 1));
        i = i + 1;
    }
    proof {
        assert(out@ == spec_bytes);
        if spec_bytes.contains(0u8) {
            let k = choose|k: int| 0 <= k < spec_bytes.len() && spec_bytes[k] == 0u8;
            assert(spec_bytes[k] != 0);
        }
    }
    out.push(0);
    Ok(out)
}

} // verus!
