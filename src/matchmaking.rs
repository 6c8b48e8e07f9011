use vstd::prelude::*;

use rand::seq::SliceRandom;

verus! {

/// Relies on `uuid::Uuid` as an opaque player identifier: values are moved
/// and stored, never looked into.
#[verifier::external_type_specification]
#[verifier::external_body]
pub struct ExUuid(uuid::Uuid);

/// Whether a match is still open.
#[derive(Clone, Copy, Debug, PartialEq, Eq, Structural)]
pub enum Status {
    Pending,
    Done,
}

/// The outcome of a match for one player.
#[derive(Clone, Copy, Debug, PartialEq, Eq, Structural)]
pub enum Verdict {
    Win,
    Lose,
    Draw,
    Pending,
}

/// The section and skill a round of matches is made for.
#[derive(Debug)]
pub struct MatchPayload {
    pub section: String,
    pub skill: String,
}

/// The pairs taken from the end of `users`: the last two users form the
/// first pair, the two before them the second, and so on. With an odd count
/// the first user is left out.
pub open spec fn pairs_from_end(users: Seq<uuid::Uuid>) -> Seq<Seq<uuid::Uuid>> {
    let n = users.len() as int;
    Seq::new((n / 2) as nat, |k: int| seq![users[n - 1 - 2 * k], users[n - 2 - 2 * k]])
}

/// The users that a sequence of pairs holds.
pub open spec fn pair_views(pairs: Seq<Vec<uuid::Uuid>>) -> Seq<Seq<uuid::Uuid>> {
    pairs.map_values(|p: Vec<uuid::Uuid>| p@)
}

/// Relies on rand's `SliceRandom::shuffle` with the thread-local generator:
/// the elements are permuted in place.
#[verifier::external_body]
fn shuffle_users(users: &mut Vec<uuid::Uuid>)
    ensures
        final(users)@.to_multiset() == old(users)@.to_multiset(),
{
    users.shuffle(&mut rand::thread_rng());
}

/// Pairs users off from the end of the list, two at a time.
pub fn pair_off(users: Vec<uuid::Uuid>) -> (r: Vec<Vec<uuid::Uuid>>)
    ensures
        pair_views(r@) == pairs_from_end(users@),
{
    let ghost all = users@;
    let ghost n = users@.len() as int;
    let mut matched_pairs: Vec<Vec<uuid::Uuid>> = Vec::new();
    let mut remaining_users = users;
    while remaining_users.len() >= 2
        invariant
            n == all.len(),
            remaining_users@.len() == n - 2 * matched_pairs@.len(),
            remaining_users@ == all.take(remaining_users@.len() as int),
            pair_views(matched_pairs@) == pairs_from_end(all).take(matched_pairs@.len() as int),
        decreases remaining_users@.len(),
    {
        let ghost k = matched_pairs@.len() as int;
        let ghost before = matched_pairs@;
        let mut pair = Vec::new();
        let first = remaining_users.pop().unwrap();
        let second = remaining_users.pop().unwrap();
        pair.push(first);
        pair.push(second);
        matched_pairs.push(pair);
        proof {
            assert(remaining_users@ =~= all.take(remaining_users@.len() as int));
            assert(pair@ =~= seq![all[n - 1 - 2 * k], all[n - 2 - 2 * k]]);
            assert(pair_views(matched_pairs@) =~= pairs_from_end(all).take(k + 1));
        }
    }
    proof {
        assert(pair_views(matched_pairs@) =~= pairs_from_end(all));
    }
    matched_pairs
}

/// Shuffles the users and pairs them off; with an odd count one user is left
/// without a pair.
pub fn generate_pairs(users: Vec<uuid::Uuid>) -> (r: Vec<Vec<uuid::Uuid>>)
    ensures
        exists|shuffled: Seq<uuid::Uuid>|
            #![trigger pairs_from_end(shuffled)]
            shuffled.to_multiset() == users@.to_multiset() && pair_views(r@) == pairs_from_end(
                shuffled,
            ),
{
    let mut remaining_users = users;
    shuffle_users(&mut remaining_users);
    let ghost shuffled = remaining_users@;
    let r = pair_off(remaining_users);
    assert(pairs_from_end(shuffled) == pair_views(r@));
    r
}

} // verus!
