//! Laws of the game, stated over its model and proved.
use vstd::prelude::*;

use crate::ledger::{Balances, Ledger, LedgerError};
use crate::pallet::{next_nonce, GameState};
use crate::{AccountId, Balance};

verus! {

/// A call that changed the game: a signed configuration of the stake, or a
/// round that was paid for and settled with the coin showing `win`.
///
/// A refused call leaves the game as it was, so the states a game can reach
/// are those that a list of such steps leads to.
pub enum Step {
    /// `set_payment` with this value.
    Configure(Balance),
    /// A completed round; `true` when the caller won.
    Round(bool),
}

/// The state after one step. A round needs a configured stake.
pub open spec fn apply(s: GameState, step: Step) -> GameState {
    match step {
        Step::Configure(value) => s.after_set_payment(value),
        Step::Round(win) => match s.payment {
            Some(stake) => s.after_round(stake, win),
            None => s,
        },
    }
}

/// The state after taking `steps` in order from `s`.
pub open spec fn run(s: GameState, steps: Seq<Step>) -> GameState
    decreases steps.len(),
{
    if steps.len() == 0 {
        s
    } else {
        apply(run(s, steps.drop_last()), steps.last())
    }
}

/// The stake can be configured once: from an unconfigured game, configuring
/// `v1` and then `v2` leaves the stake at `v1`, and the pot is `v1` after the
/// first call. The second call changes nothing.
pub proof fn configure_once(s: GameState, v1: Balance, v2: Balance)
    requires
        s.payment is None,
    ensures
        s.after_set_payment(v1).payment == Some(v1),
        s.after_set_payment(v1).pot == v1,
        s.after_set_payment(v1).after_set_payment(v2) == s.after_set_payment(v1),
{
}

/// A caller who holds less than the stake, or who would keep less than the
/// existential deposit after paying it, cannot have the stake withdrawn with
/// the account kept alive; `play` then fails with `WithdrawalFailed` and
/// leaves the game and the ledger as they were.
pub proof fn short_balance_blocks_play(ledger: Balances, who: AccountId, stake: Balance)
    requires
        stake > 0,
        ledger.spec_total_balance(who) < stake + ledger.spec_existential_deposit(),
    ensures
        ledger.spec_total_balance(who) < stake ==> ledger.withdraw_outcome(who, stake, true)
            == Err::<(), LedgerError>(LedgerError::InsufficientBalance),
        ledger.spec_total_balance(who) >= stake ==> ledger.withdraw_outcome(who, stake, true)
            == Err::<(), LedgerError>(LedgerError::KeepAlive),
{
}

/// In every reachable state the pot is non-negative: it is empty until the
/// stake is configured and never falls below the stake afterwards.
pub proof fn pot_covers_stake(steps: Seq<Step>)
    ensures
        run(GameState::initial(), steps).pot >= 0,
        run(GameState::initial(), steps).payment is None ==> run(GameState::initial(), steps).pot
            == 0,
        run(GameState::initial(), steps).payment matches Some(stake) ==> run(
            GameState::initial(),
            steps,
        ).pot >= stake,
    decreases steps.len(),
{
    if steps.len() > 0 {
        pot_covers_stake(steps.drop_last());
    }
}

/// Each completed round advances the counter by one, wrapping after the
/// largest `u64`.
proof fn nonce_after_rounds(s: GameState, steps: Seq<Step>)
    requires
        s.payment is Some,
        forall|i: int| 0 <= i < steps.len() ==> #[trigger] steps[i] is Round,
    ensures
        run(s, steps).payment == s.payment,
        run(s, steps).nonce == (s.nonce + steps.len()) % 0x1_0000_0000_0000_0000,
    decreases steps.len(),
{
    if steps.len() > 0 {
        let rest = steps.drop_last();
        assert forall|i: int| 0 <= i < rest.len() implies #[trigger] rest[i] is Round by {
            assert(rest[i] == steps[i]);
        }
        nonce_after_rounds(s, rest);
        assert(steps.last() == steps[steps.len() - 1]);
        let before = run(s, rest);
        assert(next_nonce(before.nonce) == (s.nonce + steps.len()) % 0x1_0000_0000_0000_0000)
            by {
            vstd::arithmetic::div_mod::lemma_add_mod_noop(
                s.nonce + rest.len(),
                1,
                0x1_0000_0000_0000_0000,
            );
            vstd::arithmetic::div_mod::lemma_small_mod(1, 0x1_0000_0000_0000_0000);
        }
    }
}

/// From a freshly configured game, the counter after `n` completed rounds
/// is `n` modulo 2^64.
pub proof fn nonce_counts_rounds(s: GameState, steps: Seq<Step>)
    requires
        s.payment is Some,
        s.nonce == 0,
        forall|i: int| 0 <= i < steps.len() ==> #[trigger] steps[i] is Round,
    ensures
        run(s, steps).nonce == steps.len() % 0x1_0000_0000_0000_0000,
{
    nonce_after_rounds(s, steps);
}

} // verus!
