//! Choice of the account that receives a priority tip.
use vstd::prelude::*;

verus! {

/// The account chosen for the draw `draw`: the candidate at `draw` modulo
/// the number of candidates, or `fallback` when there is no candidate.
pub open spec fn tip_choice(candidates: Seq<Seq<char>>, fallback: Seq<char>, draw: nat) -> Seq<char> {
    if candidates.len() == 0 {
        fallback
    } else {
        candidates[(draw % candidates.len()) as int]
    }
}

/// The views of a list of account names.
pub open spec fn names_view(v: Seq<String>) -> Seq<Seq<char>> {
    v.map_values(|s: String| s@)
}

/// Relies on rand's `random_range` on the thread-local generator: a value
/// drawn uniformly from `0..n`. It panics on an empty range, hence `n > 0`.
#[verifier::external_body]
pub(crate) fn random_below(n: usize) -> (r: usize)
    requires
        n > 0,
    ensures
        r < n,
{
    rand::random_range(0..n)
}

/// The tip account for the draw `draw` (see `tip_choice`).
pub fn select_tip_account(candidates: &Vec<String>, fallback: &String, draw: usize) -> (r: String)
    ensures
        r@ == tip_choice(names_view(candidates@), fallback@, draw as nat),
{
    if candidates.len() == 0 {
        fallback.clone()
    } else {
        let i: usize = draw % candidates.len();
        candidates[i].clone()
    }
}

/// Each of the `M > 0` candidates is the choice of exactly the draw equal to
/// its position, so a draw uniform over `0..M` picks every candidate with the
/// same chance; with no candidate every draw gives the fallback.
pub proof fn lemma_tip_choice_uniform(candidates: Seq<Seq<char>>, fallback: Seq<char>)
    ensures
        forall|i: nat| i < candidates.len() ==> #[trigger] tip_choice(candidates, fallback, i) == candidates[i as int],
        candidates.len() == 0 ==> forall|d: nat| #[trigger] tip_choice(candidates, fallback, d) == fallback,
{
    assert forall|i: nat| i < candidates.len() implies #[trigger] tip_choice(candidates, fallback, i) == candidates[i as int] by {
        vstd::arithmetic::div_mod::lemma_small_mod(i, candidates.len());
    }
}

} // verus!
