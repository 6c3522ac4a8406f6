//! Byte strings as the capture engine hands them over, and their text.

use vstd::prelude::*;
use vstd::string::{StrSliceExecFns, StringSliceAdditionalSpecFns};
use vstd::utf8::{decode_utf8, valid_utf8};

verus! {

/// The text that a lossy UTF-8 decoding makes of `bytes`: the text they
/// encode where they are well formed, and otherwise that text with U+FFFD
/// in place of each ill-formed stretch.
pub uninterp spec fn lossy_utf8(bytes: Seq<u8>) -> Seq<char>;

/// Trusted: `String::from_utf8_lossy`, its result taken into a `String`.
///
/// The call never fails. Its result is a function of the bytes alone, named
/// [`lossy_utf8`]; on well-formed UTF-8 it is the text the bytes encode.
#[verifier::external_body]
pub(crate) fn decode_lossy(bytes: &[u8]) -> (text: String)
    ensures
        text@ == lossy_utf8(bytes@),
        valid_utf8(bytes@) ==> text@ == decode_utf8(bytes@),
{
    String::from_utf8_lossy(bytes).into_owned()
}

/// Lossy decoding keeps well-formed text: where `bytes` are well-formed
/// UTF-8, `text` is the text that they encode.
pub open spec fn keeps_well_formed(bytes: Seq<u8>, text: Seq<char>) -> bool {
    valid_utf8(bytes) ==> text == decode_utf8(bytes)
}

/// Whether a zero byte occurs in `bytes`.
pub open spec fn has_nul(bytes: Seq<u8>) -> bool {
    exists|i: int| 0 <= i < bytes.len() && bytes[i] == 0
}

/// The bytes that stand before the first zero byte; all of them where there
/// is none.
pub open spec fn until_nul(bytes: Seq<u8>) -> Seq<u8>
    decreases bytes.len(),
{
    if bytes.len() == 0 || bytes[0] == 0 {
        Seq::empty()
    } else {
        seq![bytes[0]] + until_nul(bytes.drop_first())
    }
}

/// `until_nul` cuts at `n` when no zero stands before `n` and one stands at
/// `n`, or `n` is the end.
pub proof fn lemma_until_nul_is_prefix(bytes: Seq<u8>, n: int)
    requires
        0 <= n <= bytes.len(),
        forall|j: int| 0 <= j < n ==> bytes[j] != 0,
        n < bytes.len() ==> bytes[n] == 0,
    ensures
        until_nul(bytes) == bytes.take(n),
    decreases n,
{
    if n == 0 {
        assert(bytes.take(0) =~= Seq::<u8>::empty());
    } else {
        let rest = bytes.drop_first();
        assert forall|j: int| 0 <= j < n - 1 implies rest[j] != 0 by {
            assert(rest[j] == bytes[j + 1]);
        }
        lemma_until_nul_is_prefix(rest, n - 1);
        assert(bytes.take(n) =~= seq![bytes[0]] + rest.take(n - 1));
    }
}

/// The position of the first zero byte, if there is one.
pub fn find_nul(bytes: &[u8]) -> (found: Option<usize>)
    ensures
        found is Some <==> has_nul(bytes@),
        found matches Some(n) ==> {
            &&& n < bytes@.len()
            &&& bytes@[n as int] == 0
            &&& forall|j: int| 0 <= j < n ==> bytes@[j] != 0
            &&& bytes@.take(n as int) == until_nul(bytes@)
        },
        found is None ==> until_nul(bytes@) == bytes@,
{
    let mut i: usize = 0;
    while i < bytes.len()
        invariant
            i <= bytes@.len(),
            forall|j: int| 0 <= j < i ==> bytes@[j] != 0,
        decreases bytes@.len() - i,
    {
        if bytes[i] == 0 {
            proof {
                lemma_until_nul_is_prefix(bytes@, i as int);
            }
            return Some(i);
        }
        i += 1;
    }
    proof {
        lemma_until_nul_is_prefix(bytes@, bytes@.len() as int);
        assert(bytes@.take(bytes@.len() as int) =~= bytes@);
    }
    None
}

/// Reads `bytes` as a C string: the bytes before the first zero byte, or
/// nothing where no zero byte ends them.
pub fn c_str_bytes(bytes: &[u8]) -> (r: Option<&[u8]>)
    ensures
        r is Some <==> has_nul(bytes@),
        r matches Some(s) ==> s@ == until_nul(bytes@),
{
    match find_nul(bytes) {
        Some(n) => {
            let prefix = &bytes[0..n];
            assert(prefix@ =~= bytes@.take(n as int));
            Some(prefix)
        },
        None => None,
    }
}

/// Whether `text` can go to the engine as a C string: no zero byte stands
/// among its bytes.
pub fn is_c_text(text: &str) -> (r: bool)
    ensures
        r == !has_nul(text.spec_bytes()),
{
    find_nul(text.as_bytes()).is_none()
}

/// The C string of `text`: its bytes, and the zero byte that ends them.
/// Text with a zero byte of its own has no C string; to hand such text to
/// the engine is a mistake of the caller.
pub fn c_string(text: &str) -> (r: Vec<u8>)
    requires
        !has_nul(text.spec_bytes()),
    ensures
        r@ == text.spec_bytes().push(0),
        until_nul(r@) == text.spec_bytes(),
{
    let mut bytes = text.as_bytes_vec();
    bytes.push(0u8);
    proof {
        lemma_until_nul_is_prefix(bytes@, text.spec_bytes().len() as int);
        assert(bytes@.take(text.spec_bytes().len() as int) =~= text.spec_bytes());
    }
    bytes
}

} // verus!
