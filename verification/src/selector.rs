//! The backend selector: picks one node uniformly at random from a route's
//! pool. Every draw is independent and memoryless; an empty pool is reported
//! as an error rather than a crash, so a misconfigured route can only fail
//! its own request.

use vstd::prelude::*;

verus! {

/// A route's backend pool was empty when a backend had to be chosen.
#[derive(Debug, PartialEq, Eq, Clone, Copy)]
pub struct EmptyPoolError;

/// Relies on rand::random_range: a draw from the thread-local generator over
/// `0..n` lands inside that (non-empty) range. Nothing more is assumed of the
/// outcome: it may differ between two calls on the same input.
#[verifier::external_body]
fn random_below(n: usize) -> (r: usize)
    requires
        n > 0,
    ensures
        r < n,
{
    rand::random_range(0..n)
}

/// Chooses one backend uniformly at random from the pool. Succeeds exactly
/// when the pool is non-empty, and then returns one of its members; an empty
/// pool gives [`EmptyPoolError`].
pub fn choose_backend(pool: &Vec<String>) -> (r: Result<String, EmptyPoolError>)
    ensures
        r is Ok <==> pool@.len() > 0,
        r matches Ok(b) ==> exists|i: int| 0 <= i < pool@.len() && b@ == pool@[i]@,
{
    if pool.len() == 0 {
        Err(EmptyPoolError)
    } else {
        let i = random_below(pool.len());
        Ok(pool[i].clone())
    }
}

} // verus!
