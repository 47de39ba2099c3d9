//! The decode-and-collect pass of the listing operation.
//!
//! The operating system reports attribute names as raw byte strings; the
//! bridge hands them in with each name already tried against text decoding,
//! `None` standing for a name that is not valid text. The pass collects the
//! decoded names in order, and a single undecodable name aborts the whole
//! listing with a fixed descriptive message: no partial result ever leaves
//! this layer.

use vstd::prelude::*;

use crate::errors::Classification;

verus! {

/// The fixed message a listing fails with when an attribute name is not
/// valid text.
pub open spec fn decode_failure_text() -> Seq<char> {
    "Failed to convert OsString"@
}

/// Whether every reported name survived text decoding.
pub open spec fn all_decoded(raw: Seq<Option<String>>) -> bool {
    forall|i: int| 0 <= i < raw.len() ==> raw[i] is Some
}

/// Collects the decoded attribute names of a listing, in the order the
/// operating system reported them. Succeeds exactly when every name
/// decoded; one undecodable name fails the whole call with the fixed
/// decoding-error message.
pub fn collect_names(raw: Vec<Option<String>>) -> (r: Result<Vec<String>, Classification>)
    ensures
        r is Ok <==> all_decoded(raw@),
        r matches Ok(names) ==> {
            &&& names@.len() == raw@.len()
            &&& forall|i: int| 0 <= i < raw@.len() ==> raw@[i] == Some(#[trigger] names@[i])
        },
        r matches Err(c) ==> (c matches Classification::Message(m) && m@ == decode_failure_text()),
{
    let ghost all = raw@;
    let mut rest = raw;
    let mut names: Vec<String> = Vec::new();
    while rest.len() > 0
        invariant
            all == raw@,
            names@.len() + rest@.len() == all.len(),
            rest@ == all.subrange(names@.len() as int, all.len() as int),
            forall|i: int| 0 <= i < names@.len() ==> all[i] == Some(#[trigger] names@[i]),
        decreases rest@.len(),
    {
        let ghost k = names@.len() as int;
        let next = rest.remove(0);
        proof {
            assert(next == all[k]);
        }
        match next {
            Some(name) => {
                names.push(name);
                proof {
                    assert(rest@ =~= all.subrange(names@.len() as int, all.len() as int));
                }
            },
            None => {
                proof {
                    assert(!all_decoded(all));
                }
                return Err(Classification::Message(decode_failure_message()));
            },
        }
    }
    proof {
        assert(names@.len() == all.len());
        assert forall|i: int| 0 <= i < all.len() implies all[i] is Some by {
            assert(all[i] == Some(names@[i]));
        }
    }
    Ok(names)
}

/// The fixed decoding-error message as an owned value, for handing to a
/// caller.
pub fn decode_failure_message() -> (r: String)
    ensures
        r@ == decode_failure_text(),
{
    String::from_str("Failed to convert OsString")
}

} // verus!
