//! The batch driver: one generic adapter maps a scalar evaluator over
//! the rows of a batch, instead of each field model repeating the loop.
//! Rows are independent; the output holds exactly one entry per row, in
//! row order.

use vstd::prelude::*;

verus! {

/// Applies `f` to every row in order.  Each output entry is a possible
/// output of `f` on the row at the same index.
pub fn map_rows<T: Copy, U, F: Fn(T) -> U>(rows: &Vec<T>, f: F) -> (result: Vec<U>)
    requires
        forall|i: int| 0 <= i < rows@.len() ==> call_requires(f, (rows@[i],)),
    ensures
        result@.len() == rows@.len(),
        forall|i: int|
            0 <= i < rows@.len() ==> call_ensures(f, (rows@[i],), #[trigger] result@[i]),
{
    let n: usize = rows.len();
    let mut result: Vec<U> = Vec::new();
    let mut j: usize = 0;
    while j < n
        invariant
            n == rows@.len(),
            j <= n,
            result@.len() == j,
            forall|i: int| 0 <= i < n ==> call_requires(f, (rows@[i],)),
            forall|i: int| 0 <= i < j ==> call_ensures(f, (rows@[i],), #[trigger] result@[i]),
        decreases n - j,
    {
        result.push(f(rows[j]));
        j = j + 1;
    }
    result
}

} // verus!
