//! Fixed-layout wire records shared with the engine, and the decoding layer
//! that turns their padded fixed-size encodings into natural views.

use vstd::prelude::*;

verus! {

broadcast use vstd::array::group_array_axioms, vstd::seq_lib::group_seq_properties;

/// Capacity of the fixed legal-action array inside `RoundInfo`.
pub const MAX_LEGAL_ACTIONS: usize = 4;

/// Capacity of the fixed community-card array inside `RoundInfo`.
pub const MAX_STREET_SIZE: usize = 20;

/// A playing card: a rank character and a suit character.
///
/// The pair `('X', 'X')` is the sentinel for an unknown/hidden card.
#[derive(Debug, Clone, Copy, PartialEq, Eq, Structural)]
pub struct Card(pub char, pub char);

/// Whether `c` is one of the thirteen rank characters.
pub open spec fn valid_rank(c: char) -> bool {
    c == '2' || c == '3' || c == '4' || c == '5' || c == '6' || c == '7' || c == '8' || c == '9'
        || c == 'T' || c == 'J' || c == 'Q' || c == 'K' || c == 'A'
}

/// Whether `c` is one of the four suit characters.
pub open spec fn valid_suit(c: char) -> bool {
    c == 'c' || c == 'd' || c == 'h' || c == 's'
}

impl Card {
    /// Whether this card is the hidden-card sentinel in both positions.
    pub open spec fn is_sentinel(self) -> bool {
        self.0 == 'X' && self.1 == 'X'
    }

    /// Whether this card is a real card: a valid rank and a valid suit.
    pub open spec fn is_valid(self) -> bool {
        valid_rank(self.0) && valid_suit(self.1)
    }

    pub fn rank(&self) -> (r: char)
        ensures
            r == self.0,
    {
        self.0
    }

    pub fn suit(&self) -> (r: char)
        ensures
            r == self.1,
    {
        self.1
    }
}

/// Match-level snapshot handed to the agent before every callback.
///
/// The engine-side record also carries the remaining wall-clock budget; that
/// field never reaches the decision logic and stays at the process boundary.
#[derive(Debug, Clone, Copy)]
pub struct GameInfo {
    /// Remaining bankroll, in chips.
    pub bankroll: i32,
    /// Current round number, 1-based.
    pub round_num: i32,
}

/// The closed set of action kinds an agent may take.
#[derive(Debug, Clone, Copy, PartialEq, Eq, Structural)]
pub enum ActionType {
    Fold,
    Call,
    Check,
    Raise,
}

/// An action kind plus a chip amount; the amount is meaningful only for
/// `Raise` and is 0 by convention for the other kinds.
#[derive(Debug, Clone, Copy, PartialEq, Eq, Structural)]
pub struct Action {
    pub action_type: ActionType,
    pub amount: i32,
}

/// The decision-point snapshot: fixed-capacity storage with separate valid
/// lengths for the community cards and the legal-action set.
#[derive(Debug, Clone, Copy)]
pub struct RoundInfo {
    /// Number of community cards currently face up.
    pub street: i32,
    /// The agent's two hole cards, as (rank, suit) character pairs.
    pub my_cards: [[char; 2]; 2],
    /// Community-card storage; only the first `street` entries are valid.
    pub board_cards: [[char; 2]; MAX_STREET_SIZE],
    /// Chips the agent has contributed in the current betting round.
    pub my_pip: i32,
    /// Chips the opponent has contributed in the current betting round.
    pub opp_pip: i32,
    /// Chips the agent has remaining.
    pub my_stack: i32,
    /// Chips the opponent has remaining.
    pub opp_stack: i32,
    /// Number of valid entries in `legal_actions`.
    pub num_legal_actions: i32,
    /// Legal-action storage; only the first `num_legal_actions` entries are valid.
    pub legal_actions: [Action; MAX_LEGAL_ACTIONS],
    /// Smallest and largest chip amounts for a legal raise.
    pub raise_bounds: [i32; 2],
}

/// The round-end snapshot.
#[derive(Debug, Clone, Copy)]
pub struct RoundOverInfo {
    /// Chips the agent won (positive) or lost (negative) this round.
    pub delta: i32,
    /// The street at which the round ended.
    pub street: i32,
    /// The agent's two hole cards.
    pub my_cards: [[char; 2]; 2],
    /// The opponent's two hole cards, or the sentinel pair if never revealed.
    pub opponent_cards: [[char; 2]; 2],
}

/// The card encoded by a (rank, suit) character pair.
pub open spec fn card_of(pair: [char; 2]) -> Card {
    Card(pair[0], pair[1])
}

/// Projects a fixed two-slot array of character pairs into two cards.
fn decode_card_pair(pairs: &[[char; 2]; 2]) -> (r: [Card; 2])
    ensures
        r[0] == card_of(pairs[0]),
        r[1] == card_of(pairs[1]),
{
    let c0 = Card(pairs[0][0], pairs[0][1]);
    let c1 = Card(pairs[1][0], pairs[1][1]);
    proof {
        // Connects the values read by indexing to the spec-level projection.
        assert(c0 == card_of(pairs[0]));
        assert(c1 == card_of(pairs[1]));
    }
    let mut cards: [Card; 2] = [c0; 2];
    cards[1] = c1;
    cards
}

/// Whether the action kind `a` occurs in `kinds`.
pub fn contains_kind(kinds: &Vec<ActionType>, a: ActionType) -> (r: bool)
    ensures
        r == kinds@.contains(a),
{
    let mut i: usize = 0;
    let mut found = false;
    while i < kinds.len()
        invariant
            i <= kinds@.len(),
            found <==> exists|k: int| 0 <= k < i as int && kinds@[k] == a,
        decreases kinds@.len() - i,
    {
        if kinds[i] == a {
            found = true;
        }
        i += 1;
    }
    found
}

impl RoundInfo {
    /// Number of valid community-card entries, after clamping `street`
    /// defensively into `[0, MAX_STREET_SIZE]`.
    pub open spec fn board_len(self) -> int {
        if self.street < 0 {
            0
        } else if self.street as int > MAX_STREET_SIZE as int {
            MAX_STREET_SIZE as int
        } else {
            self.street as int
        }
    }

    /// Number of valid legal-action entries, after clamping the count
    /// defensively into `[0, MAX_LEGAL_ACTIONS]`.
    pub open spec fn legal_count(self) -> int {
        if self.num_legal_actions < 0 {
            0
        } else if self.num_legal_actions as int > MAX_LEGAL_ACTIONS as int {
            MAX_LEGAL_ACTIONS as int
        } else {
            self.num_legal_actions as int
        }
    }

    /// Whether the action kind `a` appears among the valid legal-action entries.
    pub open spec fn action_type_is_legal(self, a: ActionType) -> bool {
        exists|i: int|
            0 <= i < self.legal_count() && (#[trigger] self.legal_actions[i]).action_type == a
    }

    /// The invariants the engine promises of every snapshot it constructs:
    /// both counters within their array capacities, and a coherent raise
    /// range whenever a raise is legal.
    pub open spec fn wf(self) -> bool {
        &&& 0 <= self.street as int <= MAX_STREET_SIZE as int
        &&& 0 <= self.num_legal_actions as int <= MAX_LEGAL_ACTIONS as int
        &&& (self.action_type_is_legal(ActionType::Raise) ==> self.raise_bounds[0]
            <= self.raise_bounds[1])
    }

    /// The community cards currently face up, in deal order: exactly the
    /// first `street` entries of the fixed board array (clamped defensively
    /// if the counter is out of its invariant range).
    pub fn community_cards(&self) -> (r: Vec<Card>)
        ensures
            r@.len() == self.board_len(),
            forall|i: int| 0 <= i < r@.len() ==> r@[i] == card_of(self.board_cards[i]),
            self.wf() ==> r@.len() == self.street as int,
    {
        let n: usize = if self.street < 0 {
            0
        } else if self.street as usize > MAX_STREET_SIZE {
            MAX_STREET_SIZE
        } else {
            self.street as usize
        };
        let mut cards: Vec<Card> = Vec::new();
        let mut i: usize = 0;
        while i < n
            invariant
                i <= n,
                n as int == self.board_len(),
                cards@.len() == i as int,
                forall|j: int| 0 <= j < i as int ==> cards@[j] == card_of(self.board_cards[j]),
            decreases n - i,
        {
            let c = Card(self.board_cards[i][0], self.board_cards[i][1]);
            proof {
                assert(c == card_of(self.board_cards[i as int]));
            }
            cards.push(c);
            i += 1;
        }
        cards
    }

    /// The agent's hole cards, always two valid cards.
    pub fn player_cards(&self) -> (r: [Card; 2])
        ensures
            r[0] == card_of(self.my_cards[0]),
            r[1] == card_of(self.my_cards[1]),
    {
        decode_card_pair(&self.my_cards)
    }

    /// Whether the valid legal-action entries carry pairwise distinct kinds,
    /// as the engine is expected to produce them.
    pub open spec fn distinct_legal_entries(self) -> bool {
        forall|i: int, j: int|
            0 <= i < j < self.legal_count() ==> (#[trigger] self.legal_actions[i]).action_type != (
            #[trigger] self.legal_actions[j]).action_type
    }

    /// The set of action kinds currently permitted: the kinds of the first
    /// `num_legal_actions` entries, deduplicated defensively, in order of
    /// first appearance.
    pub fn legal_actions(&self) -> (r: Vec<ActionType>)
        ensures
            forall|a: ActionType| r@.contains(a) <==> self.action_type_is_legal(a),
            forall|p: int, q: int| 0 <= p < q < r@.len() ==> r@[p] != r@[q],
            r@.len() <= self.legal_count(),
            self.distinct_legal_entries() ==> r@.len() == self.legal_count(),
    {
        let n: usize = if self.num_legal_actions < 0 {
            0
        } else if self.num_legal_actions as usize > MAX_LEGAL_ACTIONS {
            MAX_LEGAL_ACTIONS
        } else {
            self.num_legal_actions as usize
        };
        let mut kinds: Vec<ActionType> = Vec::new();
        let mut i: usize = 0;
        while i < n
            invariant
                i <= n,
                n as int == self.legal_count(),
                forall|a: ActionType|
                    kinds@.contains(a) <==> exists|k: int|
                        0 <= k < i as int && (#[trigger] self.legal_actions[k]).action_type == a,
                forall|p: int, q: int| 0 <= p < q < kinds@.len() ==> kinds@[p] != kinds@[q],
                kinds@.len() <= i as int,
                self.distinct_legal_entries() ==> kinds@.len() == i as int,
            decreases n - i,
        {
            let a = self.legal_actions[i].action_type;
            if !contains_kind(&kinds, a) {
                kinds.push(a);
            }
            i += 1;
        }
        kinds
    }
}

impl RoundOverInfo {
    /// Whether the first opponent card slot starts with the sentinel
    /// character, the chosen discriminator for a hidden opponent hand.
    pub open spec fn opponent_hidden(self) -> bool {
        self.opponent_cards[0][0] == 'X'
    }

    /// The invariant the engine promises of the opponent slots: either both
    /// hold valid cards, or both hold the sentinel pair — never one of each.
    pub open spec fn wf(self) -> bool {
        ||| (card_of(self.opponent_cards[0]).is_valid() && card_of(
            self.opponent_cards[1],
        ).is_valid())
        ||| (card_of(self.opponent_cards[0]).is_sentinel() && card_of(
            self.opponent_cards[1],
        ).is_sentinel())
    }

    /// The agent's hole cards, always two valid cards.
    pub fn player_cards(&self) -> (r: [Card; 2])
        ensures
            r[0] == card_of(self.my_cards[0]),
            r[1] == card_of(self.my_cards[1]),
    {
        decode_card_pair(&self.my_cards)
    }

    /// The opponent's hole cards, or `None` if the hand was never revealed.
    ///
    /// Only the first slot is tested for the sentinel; the engine's invariant
    /// keeps the two slots consistent.
    pub fn opponent_cards(&self) -> (r: Option<[Card; 2]>)
        ensures
            (r is None) <==> self.opponent_hidden(),
            r matches Some(c) ==> c[0] == card_of(self.opponent_cards[0]) && c[1] == card_of(
                self.opponent_cards[1],
            ),
            self.wf() ==> (r matches Some(c) ==> c[0].is_valid() && c[1].is_valid()
                && !c[0].is_sentinel() && !c[1].is_sentinel()),
    {
        if self.opponent_cards[0][0] == 'X' {
            None
        } else {
            Some(decode_card_pair(&self.opponent_cards))
        }
    }
}

/// Under the engine's invariant on the opponent slots, testing the first
/// character of the first slot for the sentinel is the same as the whole
/// first slot being the sentinel pair: `opponent_cards` reports an absent
/// hand exactly when the slot holds the sentinel pair, and a revealed hand
/// decodes to valid, non-sentinel cards.
pub proof fn lemma_opponent_hidden_iff_sentinel(info: RoundOverInfo)
    requires
        info.wf(),
    ensures
        info.opponent_hidden() <==> card_of(info.opponent_cards[0]).is_sentinel(),
        !info.opponent_hidden() ==> card_of(info.opponent_cards[0]).is_valid() && card_of(
            info.opponent_cards[1],
        ).is_valid(),
{
}

/// Round trip through the hole-card encoding: a snapshot whose hole-card
/// slots are written from the rank and suit characters of two given cards
/// decodes, through the projection `player_cards` returns, to exactly those
/// two cards.
pub proof fn lemma_player_cards_round_trip(info: RoundInfo, c0: Card, c1: Card)
    requires
        info.my_cards[0][0] == c0.0,
        info.my_cards[0][1] == c0.1,
        info.my_cards[1][0] == c1.0,
        info.my_cards[1][1] == c1.1,
    ensures
        card_of(info.my_cards[0]) == c0,
        card_of(info.my_cards[1]) == c1,
{
}

} // verus!
