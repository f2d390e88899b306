//! The decisions an exported-function call makes around the runtime's work:
//! whether the caller's result buffer is large enough, and how the runtime's
//! answer becomes the call's outcome.

use vstd::prelude::*;

use crate::error::Error;
use crate::value::Val;

verus! {

/// Checks that a result buffer of `provided` slots can hold the callee's
/// `expected` results.
///
/// Fails with [`Error::SignatureMismatch`] exactly when it is too small;
/// extra slots are allowed.
pub fn check_result_capacity(expected: usize, provided: usize) -> (r: Result<(), Error>)
    ensures
        r is Err <==> provided < expected,
        r is Err ==> r == Err::<(), Error>(Error::SignatureMismatch { expected, provided }),
{
    if provided < expected {
        Err(Error::SignatureMismatch { expected, provided })
    } else {
        Ok(())
    }
}

/// The caller's result buffer after `produced` values are written over its
/// leading slots; slots beyond either length keep their old values.
pub open spec fn overwrite_prefix(old_results: Seq<Val>, produced: Seq<Val>) -> Seq<Val> {
    Seq::new(
        old_results.len(),
        |i: int|
            if i < produced.len() {
                produced[i]
            } else {
                old_results[i]
            },
    )
}

/// Writes the values a call produced into the leading slots of the caller's
/// result buffer, leaving any extra slots untouched.
pub fn write_results(results: &mut [Val], produced: &[Val])
    ensures
        final(results)@ == overwrite_prefix(old(results)@, produced@),
{
    let n: usize = results.len();
    let mut i: usize = 0;
    while i < n && i < produced.len()
        invariant
            n == results@.len(),
            n == old(results)@.len(),
            i <= n,
            i <= produced@.len(),
            forall|k: int|
                0 <= k < n ==> #[trigger] results@[k] == (if k < i {
                    produced@[k]
                } else {
                    old(results)@[k]
                }),
        decreases n - i,
    {
        results[i] = produced[i];
        i = i + 1;
    }
    assert(results@ =~= overwrite_prefix(old(results)@, produced@));
}

/// Completes a call from the runtime's answer: `ok` tells whether the call
/// returned normally, `exception` is the exception the runtime recorded if it
/// did not, and `produced` holds the values it returned.
///
/// A failed call becomes [`Error::Trap`] carrying the exception and leaves the
/// result buffer untouched; a successful one writes the produced values over
/// the buffer's leading slots.
pub fn finish_call(ok: bool, exception: String, produced: &[Val], results: &mut [Val]) -> (r: Result<(), Error>)
    ensures
        !ok ==> r == Err::<(), Error>(Error::Trap(exception)) && final(results)@ == old(results)@,
        ok ==> r is Ok && final(results)@ == overwrite_prefix(old(results)@, produced@),
{
    if !ok {
        return Err(Error::Trap(exception));
    }
    write_results(results, produced);
    Ok(())
}

/// A call that returns normally writes exactly the produced values into the
/// leading slots and keeps every further slot as it was.
pub proof fn lemma_extra_slots_untouched(old_results: Seq<Val>, produced: Seq<Val>, i: int)
    requires
        0 <= i < old_results.len(),
    ensures
        overwrite_prefix(old_results, produced).len() == old_results.len(),
        i < produced.len() ==> overwrite_prefix(old_results, produced)[i] == produced[i],
        i >= produced.len() ==> overwrite_prefix(old_results, produced)[i] == old_results[i],
{
}

} // verus!
