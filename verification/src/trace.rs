//! Assembly of traced field-line polylines.
//!
//! The integrator walks away from a seed twice, once against the field
//! and once along it, producing two branches in integration order.  The
//! emitted trace is one polyline: the reverse-traced branch turned
//! around, then the seed, then the forward branch.  The points themselves
//! are opaque here; what is verified is the order and placement.

use vstd::prelude::*;

verus! {

/// The polyline emitted for one seed: the reverse branch turned around,
/// the seed itself, then the forward branch.
pub open spec fn assembled_trace<T>(back: Seq<T>, seed: T, fwd: Seq<T>) -> Seq<T> {
    back.reverse() + seq![seed] + fwd
}

/// A trace always holds at least the seed, the seed stands exactly at the
/// index given by the length of the reverse-traced branch, the points
/// before it are that branch from distant to seed, and the points after
/// it are the forward branch in integration order.
pub proof fn lemma_trace_layout<T>(back: Seq<T>, seed: T, fwd: Seq<T>)
    ensures
        assembled_trace(back, seed, fwd).len() == back.len() + 1 + fwd.len(),
        assembled_trace(back, seed, fwd).len() >= 1,
        assembled_trace(back, seed, fwd)[back.len() as int] == seed,
        forall|i: int|
            0 <= i < back.len() ==> assembled_trace(back, seed, fwd)[i] == back[back.len() - 1 - i],
        forall|i: int|
            0 <= i < fwd.len() ==> assembled_trace(back, seed, fwd)[back.len() + 1 + i] == fwd[i],
{
}

/// When each branch halts exactly at its last point — no earlier point
/// satisfies the stop condition, the final one does, and the seed does
/// not — then in the assembled polyline the stop condition holds at the
/// two ends and nowhere else.
pub proof fn lemma_stop_only_at_ends<T>(
    back: Seq<T>,
    seed: T,
    fwd: Seq<T>,
    stop: spec_fn(T) -> bool,
)
    requires
        forall|i: int| 0 <= i < back.len() - 1 ==> !stop(#[trigger] back[i]),
        back.len() > 0 ==> stop(back[back.len() - 1]),
        forall|i: int| 0 <= i < fwd.len() - 1 ==> !stop(#[trigger] fwd[i]),
        fwd.len() > 0 ==> stop(fwd[fwd.len() - 1]),
        !stop(seed),
    ensures
        forall|k: int|
            0 <= k < assembled_trace(back, seed, fwd).len() ==> (stop(
                #[trigger] assembled_trace(back, seed, fwd)[k],
            ) <==> ((back.len() > 0 && k == 0) || (fwd.len() > 0 && k == assembled_trace(
                back,
                seed,
                fwd,
            ).len() - 1))),
{
    let r = assembled_trace(back, seed, fwd);
    lemma_trace_layout(back, seed, fwd);
    assert forall|k: int| 0 <= k < r.len() implies (stop(#[trigger] r[k]) <==> ((back.len() > 0 && k
        == 0) || (fwd.len() > 0 && k == r.len() - 1))) by {
        if k < back.len() {
            assert(r[k] == back[back.len() - 1 - k]);
        } else if k == back.len() {
            assert(r[k] == seed);
        } else {
            assert(r[k] == fwd[k - back.len() - 1]);
        }
    }
}

/// Concatenates the two integration branches around their seed into the
/// emitted polyline.
pub fn assemble_trace<T: Copy>(back: &Vec<T>, seed: T, fwd: &Vec<T>) -> (r: Vec<T>)
    ensures
        r@ == assembled_trace(back@, seed, fwd@),
{
    let n_back: usize = back.len();
    let mut r: Vec<T> = Vec::new();
    let mut i: usize = 0;
    while i < n_back
        invariant
            i <= n_back,
            n_back == back@.len(),
            r@.len() == i,
            forall|a: int| 0 <= a < i ==> r@[a] == back@[n_back - 1 - a],
        decreases n_back - i,
    {
        r.push(back[n_back - 1 - i]);
        i = i + 1;
    }
    r.push(seed);
    let n_fwd: usize = fwd.len();
    let mut j: usize = 0;
    while j < n_fwd
        invariant
            j <= n_fwd,
            n_back == back@.len(),
            n_fwd == fwd@.len(),
            r@.len() == n_back + 1 + j,
            forall|a: int| 0 <= a < n_back ==> r@[a] == back@[n_back - 1 - a],
            r@[n_back as int] == seed,
            forall|a: int| 0 <= a < j ==> r@[n_back + 1 + a] == fwd@[a],
        decreases n_fwd - j,
    {
        r.push(fwd[j]);
        j = j + 1;
    }
    proof {
        assert(r@ =~= assembled_trace(back@, seed, fwd@));
    }
    r
}

} // verus!
