//! The agent side of the callback protocol: the placeholder decision
//! strategy, validation of an action against the legal-action set and raise
//! bounds, and the decision entry point that never returns an illegal action
//! when a safe one exists.

use crate::wire::ActionType;
use crate::wire::Action;
use crate::wire::GameInfo;
use crate::wire::RoundInfo;
use crate::wire::contains_kind;
use vstd::prelude::*;

verus! {

/// Whether `c` is one of the ranks the placeholder strategy treats as premium.
pub open spec fn premium_rank(c: char) -> bool {
    c == 'A' || c == 'K' || c == 'Q'
}

/// The action the placeholder strategy picks from a snapshot: raise a small
/// amount on a pair, raise a large amount on two premium ranks, fold
/// otherwise.
pub open spec fn spec_chosen_action(info: RoundInfo) -> Action {
    let r0 = info.my_cards[0][0];
    let r1 = info.my_cards[1][0];
    if r0 == r1 {
        Action { action_type: ActionType::Raise, amount: 10 }
    } else if premium_rank(r0) && premium_rank(r1) {
        Action { action_type: ActionType::Raise, amount: 300 }
    } else {
        Action { action_type: ActionType::Fold, amount: 0 }
    }
}

/// Whether `a` may be returned for the snapshot `info`: its kind is in the
/// legal-action set, and a raise amount lies within the raise bounds.
pub open spec fn spec_action_is_legal(a: Action, info: RoundInfo) -> bool {
    &&& info.action_type_is_legal(a.action_type)
    &&& (a.action_type == ActionType::Raise ==> info.raise_bounds[0] <= a.amount
        <= info.raise_bounds[1])
}

/// The fallback when the strategy's choice is illegal: the safest action
/// kind that is itself legal, preferring a check, then a fold, then a call,
/// then a minimum raise; a fold when nothing at all is legal.
pub open spec fn spec_safe_default(info: RoundInfo) -> Action {
    if info.action_type_is_legal(ActionType::Check) {
        Action { action_type: ActionType::Check, amount: 0 }
    } else if info.action_type_is_legal(ActionType::Fold) {
        Action { action_type: ActionType::Fold, amount: 0 }
    } else if info.action_type_is_legal(ActionType::Call) {
        Action { action_type: ActionType::Call, amount: 0 }
    } else if info.action_type_is_legal(ActionType::Raise) {
        Action { action_type: ActionType::Raise, amount: info.raise_bounds[0] }
    } else {
        Action { action_type: ActionType::Fold, amount: 0 }
    }
}

/// The placeholder strategy on a decision-point snapshot.
pub fn choose_action(info: &RoundInfo) -> (r: Action)
    ensures
        r == spec_chosen_action(*info),
{
    let cards = info.player_cards();
    let first_rank = cards[0].rank();
    let second_rank = cards[1].rank();
    if first_rank == second_rank {
        Action { action_type: ActionType::Raise, amount: 10 }
    } else if (first_rank == 'A' || first_rank == 'K' || first_rank == 'Q') && (second_rank == 'A'
        || second_rank == 'K' || second_rank == 'Q') {
        Action { action_type: ActionType::Raise, amount: 300 }
    } else {
        Action { action_type: ActionType::Fold, amount: 0 }
    }
}

/// Validates an action against the snapshot's legal-action set and raise
/// bounds before it crosses the boundary back to the engine.
pub fn action_is_legal(a: &Action, info: &RoundInfo) -> (r: bool)
    ensures
        r == spec_action_is_legal(*a, *info),
{
    let kinds = info.legal_actions();
    if !contains_kind(&kinds, a.action_type) {
        return false;
    }
    match a.action_type {
        ActionType::Raise => info.raise_bounds[0] <= a.amount && a.amount <= info.raise_bounds[1],
        _ => true,
    }
}

/// The safest legal action available, folding when nothing at all is legal.
pub fn safe_default(info: &RoundInfo) -> (r: Action)
    ensures
        r == spec_safe_default(*info),
{
    let kinds = info.legal_actions();
    if contains_kind(&kinds, ActionType::Check) {
        Action { action_type: ActionType::Check, amount: 0 }
    } else if contains_kind(&kinds, ActionType::Fold) {
        Action { action_type: ActionType::Fold, amount: 0 }
    } else if contains_kind(&kinds, ActionType::Call) {
        Action { action_type: ActionType::Call, amount: 0 }
    } else if contains_kind(&kinds, ActionType::Raise) {
        Action { action_type: ActionType::Raise, amount: info.raise_bounds[0] }
    } else {
        Action { action_type: ActionType::Fold, amount: 0 }
    }
}

/// The decision entry point: asks the strategy for an action, validates it,
/// and falls back to the safe default rather than ever returning an illegal
/// action. On a well-formed snapshot whose legal-action set is not empty,
/// the returned action is always legal. The match-level snapshot carries no
/// input the strategy reads.
pub fn decide_action(_game: &GameInfo, info: &RoundInfo) -> (r: Action)
    ensures
        spec_action_is_legal(spec_chosen_action(*info), *info) ==> r == spec_chosen_action(*info),
        !spec_action_is_legal(spec_chosen_action(*info), *info) ==> r == spec_safe_default(*info),
        info.wf() && (exists|a: ActionType| #[trigger] info.action_type_is_legal(a))
            ==> spec_action_is_legal(r, *info),
{
    let chosen = choose_action(info);
    if action_is_legal(&chosen, info) {
        chosen
    } else {
        safe_default(info)
    }
}

} // verus!
