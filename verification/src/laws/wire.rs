//! What a read comes to, and which times there are.

use vstd::prelude::*;
use crate::clock::instant;
use crate::json::{trees, value_tree};
use crate::wire::{reads_as, WireError};

verus! {

/// A read succeeds with the value that is expected, and fails as a mismatch
/// exactly where none is.
pub proof fn outcome_of_a_read<T: View>(value: T, error: WireError, expected: Option<T::V>)
    ensures
        reads_as(Ok::<T, WireError>(value), expected) <==> expected == Some(value@),
        reads_as(Err::<T, WireError>(error), expected) <==> expected is None && error
            == WireError::Mismatch,
{
}

/// Several values stand for their documents, in order.
pub proof fn values_stand_for_documents(values: Seq<serde_json::Value>)
    ensures
        trees(values).len() == values.len(),
        forall|i: int|
            0 <= i < values.len() ==> #[trigger] trees(values)[i] == value_tree(values[i]),
{
}

/// Every nanosecond of every second from the first year to the last is an
/// instant. One second more, a leap second, is where a minute ends, and nowhere
/// else.
pub proof fn instants(secs: int, nanos: int)
    ensures
        0 <= nanos < 1000000000 ==> (instant(secs, nanos) <==> -8334601228800 <= secs
            < 8210266876800),
        1000000000 <= nanos < 2000000000 ==> (instant(secs, nanos) <==> -8334601228800 <= secs
            < 8210266876800 && (secs + 1) % 60 == 0),
        nanos < 0 || nanos >= 2000000000 ==> !instant(secs, nanos),
{
}

} // verus!
