//! The pure half of each gateway operation: what is done with the outcome
//! of the one operating-system call the operation makes.
//!
//! The bridge that embeds this library performs the call and hands the
//! outcome in with the failure signal already reduced to plain values; the
//! functions here turn it into the caller-facing result. A success passes
//! through unchanged — in particular, an absent attribute on a get stays a
//! success carrying no value and is never folded into the error channel —
//! and every failure goes through the fixed classifier.

use vstd::prelude::*;

use crate::classify::{classify_failure, spec_classify};
use crate::errors::{Classification, OsFailure};
use crate::listing::{all_decoded, collect_names, decode_failure_text};

verus! {

/// Completes a get: the value, or the absent marker, passes through
/// byte-exact; a failure is classified. Absence is a success, never an
/// error, so a caller can always tell "no value" from "failed".
pub fn finish_get(outcome: Result<Option<Vec<u8>>, OsFailure>) -> (r: Result<
    Option<Vec<u8>>,
    Classification,
>)
    ensures
        outcome matches Ok(v) ==> r == Ok::<Option<Vec<u8>>, Classification>(v),
        outcome matches Err(f) ==> r == Err::<Option<Vec<u8>>, Classification>(spec_classify(f)),
{
    match outcome {
        Ok(value) => Ok(value),
        Err(failure) => Err(classify_failure(failure)),
    }
}

/// Completes a set: success is passed through as the bare success marker; a
/// failure is classified.
pub fn finish_set(outcome: Result<(), OsFailure>) -> (r: Result<(), Classification>)
    ensures
        outcome is Ok ==> r == Ok::<(), Classification>(()),
        outcome matches Err(f) ==> r == Err::<(), Classification>(spec_classify(f)),
{
    match outcome {
        Ok(()) => Ok(()),
        Err(failure) => Err(classify_failure(failure)),
    }
}

/// Completes a remove: success is passed through; a failure — removing an
/// attribute that is not there among them — is classified, never
/// suppressed.
pub fn finish_remove(outcome: Result<(), OsFailure>) -> (r: Result<(), Classification>)
    ensures
        outcome is Ok ==> r == Ok::<(), Classification>(()),
        outcome matches Err(f) ==> r == Err::<(), Classification>(spec_classify(f)),
{
    match outcome {
        Ok(()) => Ok(()),
        Err(failure) => Err(classify_failure(failure)),
    }
}

/// Completes a listing: a failed call is classified; a successful one goes
/// through the decode-and-collect pass, which keeps the reported order and
/// fails the whole listing on a single undecodable name.
pub fn finish_list(outcome: Result<Vec<Option<String>>, OsFailure>) -> (r: Result<
    Vec<String>,
    Classification,
>)
    ensures
        outcome matches Err(f) ==> r == Err::<Vec<String>, Classification>(spec_classify(f)),
        outcome matches Ok(names) ==> {
            &&& r is Ok <==> all_decoded(names@)
            &&& r matches Ok(collected) ==> {
                &&& collected@.len() == names@.len()
                &&& forall|i: int|
                    0 <= i < names@.len() ==> names@[i] == Some(#[trigger] collected@[i])
            }
            &&& r matches Err(c) ==> (c matches Classification::Message(m) && m@
                == decode_failure_text())
        },
{
    match outcome {
        Ok(names) => collect_names(names),
        Err(failure) => Err(classify_failure(failure)),
    }
}

} // verus!
