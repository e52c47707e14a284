//! What a patch session settles before it patches: a replacement has to have
//! the signature of the function it replaces, only a function that returns
//! `bool` can be made to return a fixed boolean, and the lock that lets one
//! session run at a time is taken even where an earlier holder panicked.
use crate::interface::func_ptr::FuncPtr;
use std::sync::PoisonError;
use vstd::prelude::*;

verus! {

/// `std::sync::PoisonError`: what locking ends in where an earlier holder of
/// the lock panicked. It holds the guard all the same; what is inside is not
/// looked at here.
#[verifier::external_type_specification]
#[verifier::external_body]
#[verifier::reject_recursive_types(T)]
pub struct ExPoisonError<T>(PoisonError<T>);

/// `PoisonError::into_inner`: hands out the guard that the error holds. The
/// guard is opaque, so nothing is claimed of it.
#[verifier::external_body]
fn into_inner<T>(poisoned: PoisonError<T>) -> (guard: T) {
    poisoned.into_inner()
}

/// Makes a guard of whatever an attempt to lock ended in: the guard itself
/// where the lock was sound, and the guard inside the error where a holder had
/// panicked. The lock protects no data, only the right to patch, so a panic in
/// one session must not fail every session after it.
pub fn recover_lock<T>(outcome: Result<T, PoisonError<T>>) -> (guard: T)
    ensures
        outcome matches Ok(sound) ==> guard == sound,
{
    match outcome {
        Ok(guard) => guard,
        Err(poisoned) => {
            // Swallow the poison and give the guard anyway
            into_inner(poisoned)
        },
    }
}

/// Why a fake was refused before anything was patched.
#[derive(Debug, Clone, Copy, PartialEq, Eq, Structural)]
pub enum SignatureError {
    /// The replacement does not have the signature of the target.
    Mismatch,
    /// A fixed boolean was asked of a function that does not return `bool`.
    NotBoolean,
}

/// The name for what `str::trim` leaves of a text.
pub uninterp spec fn trimmed(text: Seq<char>) -> Seq<char>;

/// Whether `text` ends with `suffix`.
pub open spec fn is_suffix(text: Seq<char>, suffix: Seq<char>) -> bool {
    suffix.len() <= text.len() && text.subrange(text.len() - suffix.len(), text.len() as int)
        == suffix
}

/// `str::trim`: the text without leading and trailing whitespace, as Unicode
/// defines it. The contract only names the result.
#[verifier::external_body]
fn trim(text: &str) -> (rest: &str)
    ensures
        rest@ == trimmed(text@),
{
    text.trim()
}

/// `str::ends_with` with a string as the pattern: whether the pattern matches
/// a suffix of the text.
#[verifier::external_body]
fn ends_with(text: &str, suffix: &str) -> (found: bool)
    ensures
        found == is_suffix(text@, suffix@),
{
    text.ends_with(suffix)
}

/// Whether a signature, already trimmed, is that of a function returning
/// `bool`.
pub fn ends_in_bool(signature: &str) -> (boolean: bool)
    ensures
        boolean == is_suffix(signature@, "-> bool"@),
{
    ends_with(signature, "-> bool")
}

/// Whether a signature is that of a function returning `bool`, whatever
/// whitespace surrounds it.
pub fn returns_boolean(signature: &str) -> (boolean: bool)
    ensures
        boolean == is_suffix(trimmed(signature@), "-> bool"@),
{
    ends_in_bool(trim(signature))
}

/// Checks that `target` can stand in for a function of the signature
/// `expected_signature`: the two signatures are the same text.
pub fn check_will_execute(expected_signature: &str, target: &FuncPtr) -> (verdict: Result<
    (),
    SignatureError,
>)
    ensures
        verdict is Ok <==> target.signature() == expected_signature@,
        verdict is Err ==> verdict == Err::<(), SignatureError>(SignatureError::Mismatch),
{
    let expected = expected_signature.to_owned();
    let actual = target.signature_text().to_owned();
    if actual == expected {
        Ok(())
    } else {
        Err(SignatureError::Mismatch)
    }
}

/// Checks that a function of the signature `expected_signature` can be made
/// to return a fixed boolean: it returns `bool`.
pub fn check_will_return_boolean(expected_signature: &str) -> (verdict: Result<
    (),
    SignatureError,
>)
    ensures
        verdict is Ok <==> is_suffix(trimmed(expected_signature@), "-> bool"@),
        verdict is Err ==> verdict == Err::<(), SignatureError>(SignatureError::NotBoolean),
{
    // Ensure the target function returns a bool
    if returns_boolean(expected_signature) {
        Ok(())
    } else {
        Err(SignatureError::NotBoolean)
    }
}

} // verus!
