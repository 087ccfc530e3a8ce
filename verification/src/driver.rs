//! What a command-line driver settles before it calls the sandbox: where its
//! files are, and how large a result buffer it brings.

use vstd::prelude::*;
use vstd::string::*;

verus! {

/// The bytes a driver sets aside for the output of a run with argument `n`:
/// one bit for each cell of an `n` by `n` grid, and a hundred bytes to spare.
pub open spec fn spec_result_capacity(n: nat) -> nat {
    n * n / 8 + 100
}

/// The size of the result buffer for a run with argument `n`. The square of
/// `n` must fit a `usize`.
pub fn result_capacity(n: usize) -> (capacity: usize)
    requires
        n * n <= usize::MAX,
    ensures
        capacity == spec_result_capacity(n as nat),
{
    n * n / 8 + 100
}

/// The size of the result buffer for a run with argument `n`, or `None` where
/// the square of `n` does not fit a `usize`.
pub fn checked_result_capacity(n: usize) -> (capacity: Option<usize>)
    ensures
        n * n <= usize::MAX ==> capacity == Some(spec_result_capacity(n as nat) as usize),
        n * n > usize::MAX ==> capacity is None,
{
    match n.checked_mul(n) {
        Some(_) => Some(result_capacity(n)),
        None => None,
    }
}

/// The path of `relative` under the directory `directory`.
pub fn path_in(directory: &str, relative: &str) -> (path: String)
    ensures
        path@ == directory@ + "/"@ + relative@,
{
    let mut path = directory.to_owned();
    path.append("/");
    path.append(relative);
    path
}

} // verus!
