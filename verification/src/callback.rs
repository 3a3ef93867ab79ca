//! Classification of the raw word that an OCaml callback returns.
use vstd::prelude::*;

verus! {

/// An OCaml callback result is an exception result when its two low bits are `10`.
pub open spec fn marks_exception(v: isize) -> bool {
    (v as usize) & 3usize == 2usize
}

/// The exception value carried by an exception result: the word with its two
/// low bits cleared.
pub open spec fn exception_payload(v: isize) -> isize {
    v & !3isize
}

/// `ocaml_sys::is_exception_result` tests the two low bits of the word for `10`.
pub assume_specification[ ocaml_sys::is_exception_result ](val: ocaml_sys::Value) -> (r: bool)
    ensures
        r == marks_exception(val),
;

/// `ocaml_sys::extract_exception` clears the two low bits of the word.
pub assume_specification[ ocaml_sys::extract_exception ](val: ocaml_sys::Value) -> (r: ocaml_sys::Value)
    ensures
        r == exception_payload(val),
;

/// What a callback into OCaml came back with.
#[derive(Debug, PartialEq, Eq, Clone, Copy)]
pub enum CallOutcome {
    /// The closure returned this value.
    Returned(isize),
    /// The closure raised this exception value.
    Raised(isize),
}

/// Decides whether a raw callback result is a returned value or a raised
/// exception, and extracts the exception value in the second case.
pub fn classify_call_result(result: isize) -> (out: CallOutcome)
    ensures
        marks_exception(result) ==> out == CallOutcome::Raised(exception_payload(result)),
        !marks_exception(result) ==> out == CallOutcome::Returned(result),
        (result as usize) & 3usize == 2usize ==> out == CallOutcome::Raised(result & !3isize),
        (result as usize) & 3usize != 2usize ==> out == CallOutcome::Returned(result),
{
    if ocaml_sys::is_exception_result(result) {
        CallOutcome::Raised(ocaml_sys::extract_exception(result))
    } else {
        CallOutcome::Returned(result)
    }
}

/// Every word whose two low bits are `10` is an exception result, whatever its
/// magnitude or sign, and no other word is; its exception value is the word
/// with those two bits cleared.
pub proof fn lemma_exception_mark_is_low_bits(v: isize)
    ensures
        marks_exception(v) <==> (v as usize) & 3usize == 2usize,
        exception_payload(v) == v & !3isize,
{
}

/// The exception value taken out of an exception result carries no mark of
/// its own, and marking it again gives back the raw result.
pub proof fn lemma_exception_payload_roundtrip(result: isize)
    requires
        marks_exception(result),
    ensures
        exception_payload(result) & 3isize == 0,
        !marks_exception(exception_payload(result)),
        exception_payload(result) | 2isize == result,
{
    assert((result as usize) & 3usize == 2usize ==> (result & !3isize) & 3isize == 0
        && ((result & !3isize) as usize) & 3usize != 2usize
        && (result & !3isize) | 2isize == result) by (bit_vector);
}

} // verus!
