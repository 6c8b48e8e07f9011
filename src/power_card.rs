use vstd::prelude::*;

use rand::seq::SliceRandom;

verus! {

/// A power card held by a player.
#[derive(Debug)]
pub struct PowerCard {
    pub id: uuid::Uuid,
    pub name: String,
    pub is_used: bool,
    pub is_active: bool,
    pub user_id: uuid::Uuid,
}

/// The names of the power cards that can be dealt.
pub open spec fn power_card_names() -> Seq<Seq<char>> {
    seq![
        "Ancient's Protection"@,
        "Double-edged Sword"@,
        "Extra Wind"@,
        "Twist of Fate"@,
        "Viral x Rival"@,
    ]
}

/// The texts that a sequence of strings holds.
pub open spec fn texts(v: Seq<String>) -> Seq<Seq<char>> {
    v.map_values(|s: String| s@)
}

/// Whether `chosen` holds elements of `pool` taken at distinct positions.
pub open spec fn chosen_from<T>(chosen: Seq<T>, pool: Seq<T>) -> bool {
    exists|positions: Seq<int>|
        #![trigger positions.len()]
        {
            &&& positions.len() == chosen.len()
            &&& positions.no_duplicates()
            &&& forall|i: int|
                0 <= i < chosen.len() ==> 0 <= #[trigger] positions[i] < pool.len() && chosen[i]
                    == pool[positions[i]]
        }
}

/// Relies on rand's `SliceRandom::choose_multiple` with the thread-local
/// generator: `min(amount, len)` elements of the slice, taken at distinct
/// positions, cloned.
#[verifier::external_body]
fn choose_distinct(pool: &Vec<String>, amount: usize) -> (r: Vec<String>)
    ensures
        r@.len() == if amount < pool@.len() { amount as int } else { pool@.len() as int },
        chosen_from(texts(r@), texts(pool@)),
{
    pool.choose_multiple(&mut rand::thread_rng(), amount).cloned().collect()
}

impl PowerCard {
    /// The names of the power cards that are dealt to a player.
    pub fn get() -> (r: Vec<String>)
        ensures
            r@.len() == 5,
            texts(r@) == power_card_names(),
    {
        let power_cards: Vec<String> = vec![
            "Ancient's Protection".to_owned(),
            "Double-edged Sword".to_owned(),
            "Extra Wind".to_owned(),
            "Twist of Fate".to_owned(),
            "Viral x Rival".to_owned(),
        ];
        proof {
            assert(texts(power_cards@) =~= power_card_names());
        }
        power_cards
    }

    /// `amount` power card names (all of them when `amount` is larger) at
    /// random, no card twice.
    pub fn get_random_cards(amount: usize) -> (r: Vec<String>)
        ensures
            r@.len() == if amount < 5 { amount as int } else { 5 },
            chosen_from(texts(r@), power_card_names()),
    {
        let power_cards = Self::get();
        choose_distinct(&power_cards, amount)
    }
}

} // verus!
