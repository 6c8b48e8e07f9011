use vstd::prelude::*;

use rand::Rng;

use crate::aggregate::{aggregate, total_of, BattleResult};
use crate::battle::{
    battle, card_at, cards_wf, lemma_unknown_card_is_held, player_turn, records, BattleError,
    NUMBER_OF_CARDS,
};
use crate::catalog::{same_text, Block, Card, Strike};

verus! {

/// Accuracy rolls are drawn from `[0, ROLL_RANGE)`, in ten-thousandths.
pub const ROLL_RANGE: u32 = 10_000;

/// Whether a submitted kind is one the engine knows.
pub open spec fn kind_known(kind: Seq<char>) -> bool {
    kind == "strike"@ || kind == "block"@
}

/// Position of the first unknown kind among the first `n` submissions.
pub open spec fn unknown_kind_at(submitted: Seq<(String, String)>, n: nat) -> Option<nat>
    decreases n,
{
    if n == 0 {
        None
    } else {
        match unknown_kind_at(submitted, (n - 1) as nat) {
            Some(i) => Some(i),
            None => if kind_known(submitted[n - 1].1@) {
                None
            } else {
                Some((n - 1) as nat)
            },
        }
    }
}

/// Why a player's submissions cannot be played, if they cannot.
pub open spec fn submission_error(submitted: Seq<(String, String)>, player: u8) -> Option<BattleError> {
    if submitted.len() > NUMBER_OF_CARDS {
        Some(BattleError::TooManyCards { player, count: submitted.len() as usize })
    } else {
        match unknown_kind_at(submitted, submitted.len()) {
            Some(t) => Some(BattleError::UnknownKind { player, turn: t as usize }),
            None => None,
        }
    }
}

/// Whether `card` is the catalog card for a submitted move name and kind.
pub open spec fn is_submitted_card(card: Option<Card>, name: Seq<char>, kind: Seq<char>) -> bool {
    match card {
        Some(Card::Strike(s)) => kind == "strike"@ && s.is_catalog_strike(name),
        Some(Card::Block(b)) => kind == "block"@ && b.is_catalog_block(name),
        None => false,
    }
}

/// Whether `cards` are the six turns' cards for the submissions: the
/// catalog card of each submission in order, then no card.
pub open spec fn submitted_cards(cards: Seq<Option<Card>>, submitted: Seq<(String, String)>) -> bool {
    &&& cards.len() == NUMBER_OF_CARDS
    &&& forall|i: int|
        0 <= i < NUMBER_OF_CARDS ==> if i < submitted.len() {
            is_submitted_card(#[trigger] cards[i], submitted[i].0@, submitted[i].1@)
        } else {
            cards[i] is None
        }
}

/// Builds the six turns' cards from a player's submissions, in turn order,
/// each a `(move name, kind)` pair with kind `strike` or `block`.
pub fn get_cards(submitted: &Vec<(String, String)>, player: u8) -> (r: Result<
    Vec<Option<Card>>,
    BattleError,
>)
    ensures
        match submission_error(submitted@, player) {
            Some(e) => r == Err::<Vec<Option<Card>>, BattleError>(e),
            None => r matches Ok(cards) && submitted_cards(cards@, submitted@) && cards_wf(cards@),
        },
{
    if submitted.len() > NUMBER_OF_CARDS {
        return Err(BattleError::TooManyCards { player, count: submitted.len() });
    }
    let mut battle_cards: Vec<Option<Card>> = Vec::new();
    let mut i: usize = 0;
    while i < NUMBER_OF_CARDS
        invariant
            0 <= i <= NUMBER_OF_CARDS,
            submitted@.len() <= NUMBER_OF_CARDS,
            battle_cards@.len() == i,
            unknown_kind_at(submitted@, if i < submitted@.len() { i as nat } else { submitted@.len() }) is None,
            cards_wf(battle_cards@),
            forall|j: int|
                0 <= j < i ==> if j < submitted@.len() {
                    is_submitted_card(#[trigger] battle_cards@[j], submitted@[j].0@, submitted@[j].1@)
                } else {
                    battle_cards@[j] is None
                },
        decreases NUMBER_OF_CARDS - i,
    {
        if i < submitted.len() {
            let name = submitted[i].0.as_str();
            let skill = submitted[i].1.as_str();
            if same_text(skill, "strike") {
                battle_cards.push(Some(Card::Strike(Strike::new(name))));
            } else if same_text(skill, "block") {
                battle_cards.push(Some(Card::Block(Block::new(name))));
            } else {
                proof {
                    lemma_unknown_kind_stays(submitted@, (i + 1) as nat, submitted@.len());
                }
                return Err(BattleError::UnknownKind { player, turn: i });
            }
        } else {
            battle_cards.push(None);
        }
        i = i + 1;
    }
    Ok(battle_cards)
}

proof fn lemma_unknown_kind_stays(submitted: Seq<(String, String)>, n: nat, m: nat)
    requires
        n <= m,
        unknown_kind_at(submitted, n) is Some,
    ensures
        unknown_kind_at(submitted, m) == unknown_kind_at(submitted, n),
    decreases m - n,
{
    if n < m {
        lemma_unknown_kind_stays(submitted, n, (m - 1) as nat);
    }
}

/// Whether `r` is the outcome of a match between the two players'
/// submissions with the given accuracy rolls: a submission error of player
/// 1, else of player 2, else the battle of the catalog cards of the
/// submissions, aggregated. An unknown card is reported with the move name
/// that was submitted for it.
pub open spec fn match_outcome(
    user1_id: uuid::Uuid,
    user1_cards: Seq<(String, String)>,
    user2_id: uuid::Uuid,
    user2_cards: Seq<(String, String)>,
    rolls1: Seq<u32>,
    rolls2: Seq<u32>,
    r: Result<BattleResult, BattleError>,
) -> bool {
    match submission_error(user1_cards, 1) {
        Some(e) => r == Err::<BattleResult, BattleError>(e),
        None => match submission_error(user2_cards, 2) {
            Some(e) => r == Err::<BattleResult, BattleError>(e),
            None => exists|c1: Seq<Option<Card>>, c2: Seq<Option<Card>>|
                #![trigger submitted_cards(c1, user1_cards), submitted_cards(c2, user2_cards)]
                {
                    &&& submitted_cards(c1, user1_cards)
                    &&& submitted_cards(c2, user2_cards)
                    &&& match battle(c1, c2, rolls1, rolls2) {
                        Ok(st) => r matches Ok(res) && {
                            &&& res.user1.0 == user1_id
                            &&& res.user2.0 == user2_id
                            &&& records(res.user1.1@) == st.turns1
                            &&& records(res.user2.1@) == st.turns2
                            &&& res.user1_total_damage == total_of(st.turns1)
                            &&& res.user2_total_damage == total_of(st.turns2)
                        },
                        Err(BattleError::UnknownCard { player, turn }) => r matches Err(
                            BattleError::UnknownMove { player: p, turn: t, move_name },
                        ) && p == player && t == turn && move_name@ == if player == 1 {
                            user1_cards[turn as int].0@
                        } else {
                            user2_cards[turn as int].0@
                        },
                        Err(e) => r == Err::<BattleResult, BattleError>(e),
                    }
                },
        },
    }
}

/// Runs a match between two players' submissions with the given accuracy
/// rolls, and aggregates the result.
pub fn simulate_match(
    user1_id: uuid::Uuid,
    user1_cards: &Vec<(String, String)>,
    user2_id: uuid::Uuid,
    user2_cards: &Vec<(String, String)>,
    rolls1: &[u32; NUMBER_OF_CARDS],
    rolls2: &[u32; NUMBER_OF_CARDS],
) -> (r: Result<BattleResult, BattleError>)
    ensures
        match_outcome(user1_id, user1_cards@, user2_id, user2_cards@, rolls1@, rolls2@, r),
{
    let cards1 = match get_cards(user1_cards, 1) {
        Ok(c) => c,
        Err(e) => return Err(e),
    };
    let cards2 = match get_cards(user2_cards, 2) {
        Ok(c) => c,
        Err(e) => return Err(e),
    };
    proof {
        lemma_unknown_card_is_held(cards1@, cards2@, rolls1@, rolls2@, NUMBER_OF_CARDS as nat);
    }
    let r = match player_turn(&cards1, &cards2, rolls1, rolls2) {
        Ok(results) => Ok(aggregate(user1_id, user2_id, results)),
        Err(BattleError::UnknownCard { player, turn }) => {
            let move_name = if player == 1 {
                user1_cards[turn].0.clone()
            } else {
                user2_cards[turn].0.clone()
            };
            Err(BattleError::UnknownMove { player, turn, move_name })
        },
        Err(e) => Err(e),
    };
    proof {
        assert(submitted_cards(cards1@, user1_cards@));
        assert(submitted_cards(cards2@, user2_cards@));
    }
    r
}

/// Relies on rand's `Rng::gen_range` on the thread-local generator: a value
/// in `[0, bound)`.
#[verifier::external_body]
fn random_below(bound: u32) -> (r: u32)
    requires
        bound > 0,
    ensures
        r < bound,
{
    rand::thread_rng().gen_range(0..bound)
}

/// Draws one accuracy roll per turn.
pub fn draw_rolls() -> (r: [u32; NUMBER_OF_CARDS])
    ensures
        forall|i: int| 0 <= i < NUMBER_OF_CARDS ==> r@[i] < ROLL_RANGE,
{
    let mut rolls = [0u32; NUMBER_OF_CARDS];
    let mut i: usize = 0;
    while i < NUMBER_OF_CARDS
        invariant
            0 <= i <= NUMBER_OF_CARDS,
            rolls@.len() == NUMBER_OF_CARDS,
            forall|j: int| 0 <= j < i ==> rolls@[j] < ROLL_RANGE,
        decreases NUMBER_OF_CARDS - i,
    {
        let roll = random_below(ROLL_RANGE);
        rolls[i] = roll;
        i = i + 1;
    }
    rolls
}

/// Runs a match with freshly drawn accuracy rolls: the outcome is that of
/// `simulate_match` for some rolls in `[0, ROLL_RANGE)`.
pub fn card_battle(
    user1_id: uuid::Uuid,
    user1_cards: &Vec<(String, String)>,
    user2_id: uuid::Uuid,
    user2_cards: &Vec<(String, String)>,
) -> (r: Result<BattleResult, BattleError>)
    ensures
        exists|rolls1: Seq<u32>, rolls2: Seq<u32>|
            #![trigger match_outcome(user1_id, user1_cards@, user2_id, user2_cards@, rolls1, rolls2, r)]
            {
                &&& rolls1.len() == NUMBER_OF_CARDS
                &&& rolls2.len() == NUMBER_OF_CARDS
                &&& forall|i: int| 0 <= i < NUMBER_OF_CARDS ==> rolls1[i] < ROLL_RANGE
                &&& forall|i: int| 0 <= i < NUMBER_OF_CARDS ==> rolls2[i] < ROLL_RANGE
                &&& match_outcome(user1_id, user1_cards@, user2_id, user2_cards@, rolls1, rolls2, r)
            },
{
    let rolls1 = draw_rolls();
    let rolls2 = draw_rolls();
    let r = simulate_match(user1_id, user1_cards, user2_id, user2_cards, &rolls1, &rolls2);
    assert(match_outcome(user1_id, user1_cards@, user2_id, user2_cards@, rolls1@, rolls2@, r));
    r
}

} // verus!
