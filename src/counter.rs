use vstd::prelude::*;
use crate::key::{Key, Keyed};

verus! {

/// A count that only its authority may advance.
#[derive(Clone, Copy, Debug)]
pub struct Counter {
    pub authority: Key,
    pub count: u64,
}

/// Why an increment was refused. A refused increment changes nothing.
#[derive(Clone, Copy, Debug, PartialEq, Eq, Structural)]
pub enum CounterError {
    /// The signer is not the counter's authority.
    Unauthorized,
    /// The count is already at its largest value.
    Overflow,
}

/// A fresh counter at zero, owned by `authority`.
pub fn create_counter(authority: &Key) -> (c: Counter)
    ensures
        c.authority == *authority,
        c.count == 0,
{
    Counter { authority: *authority, count: 0 }
}

/// Adds one to the count, on behalf of `signer`.
pub fn increment_count(counter: &mut Counter, signer: &Key) -> (r: Result<(), CounterError>)
    ensures
        final(counter).authority == old(counter).authority,
        signer@ != old(counter).authority@ ==> r == Err::<(), CounterError>(
            CounterError::Unauthorized,
        ),
        signer@ == old(counter).authority@ && old(counter).count == u64::MAX ==> r == Err::<
            (),
            CounterError,
        >(CounterError::Overflow),
        signer@ == old(counter).authority@ && old(counter).count < u64::MAX ==> r is Ok,
        r is Ok ==> final(counter).count == old(counter).count + 1,
        r is Err ==> final(counter).count == old(counter).count,
{
    if !counter.authority.same(signer) {
        return Err(CounterError::Unauthorized);
    }
    if counter.count == u64::MAX {
        return Err(CounterError::Overflow);
    }
    counter.count = counter.count + 1;
    Ok(())
}

} // verus!
