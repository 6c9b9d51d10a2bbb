//! The coin-flip game: configuring the stake and playing rounds.
use vstd::prelude::*;

use crate::ledger::{debited, deposited, Ledger, LedgerError};
use crate::origin::{ensure_signed, Origin};
use crate::randomness::{Randomness, Seed};
use crate::{AccountId, Balance};

verus! {

/// What the game announces.
#[derive(Clone, Copy, Debug, PartialEq, Eq, Structural)]
pub enum Event {
    /// The stake was configured to this amount, which also seeds the pot.
    PaymentSet(Balance),
    /// The account played a round and won this amount (zero on a loss).
    PlayResult(AccountId, Balance),
}

/// Why a call was refused.
#[derive(Clone, Copy, Debug, PartialEq, Eq, Structural)]
pub enum Error {
    /// The call was not signed by an account.
    BadOrigin,
    /// No stake has been configured yet.
    NonePaymentValue,
    /// The ledger would not debit the stake from the caller.
    WithdrawalFailed(LedgerError),
    /// The ledger would not credit the pot to a winner whose stake it had
    /// just taken. The stake stays withdrawn and the game is left as it was;
    /// what to do about it is the host's decision.
    DepositFailed(LedgerError),
}

/// The game's state as a mathematical value.
pub struct GameState {
    /// The stake a round costs, once configured.
    pub payment: Option<Balance>,
    /// What the next winner receives.
    pub pot: Balance,
    /// How many rounds have been played, modulo 2^64.
    pub nonce: u64,
}

/// Whether a round with this seed pays out: its last byte is below 128.
pub open spec fn seed_wins(seed: Seed) -> bool {
    seed[31] < 128
}

/// `a + b`, clamped at the largest balance.
pub open spec fn saturating_sum(a: Balance, b: Balance) -> Balance {
    if a + b > Balance::MAX {
        Balance::MAX
    } else {
        (a + b) as Balance
    }
}

/// The counter after one more round: it wraps to zero after the largest `u64`.
pub open spec fn next_nonce(nonce: u64) -> u64 {
    ((nonce + 1) % 0x1_0000_0000_0000_0000) as u64
}

/// What a round pays out of `pot`.
pub open spec fn winnings(pot: Balance, win: bool) -> Balance {
    if win {
        pot
    } else {
        0
    }
}

impl GameState {
    /// The state of a game that has never been configured.
    pub open spec fn initial() -> GameState {
        GameState { payment: None, pot: 0, nonce: 0 }
    }

    /// The state after a signed call configured the stake to `value`: only
    /// the first configuration counts.
    pub open spec fn after_set_payment(self, value: Balance) -> GameState {
        if self.payment is None {
            GameState { payment: Some(value), pot: value, nonce: self.nonce }
        } else {
            self
        }
    }

    /// The state after a completed round that cost `stake`: a win empties
    /// the pot, and either way the stake is added to it.
    pub open spec fn after_round(self, stake: Balance, win: bool) -> GameState {
        GameState {
            payment: self.payment,
            pot: saturating_sum((self.pot - winnings(self.pot, win)) as Balance, stake),
            nonce: next_nonce(self.nonce),
        }
    }
}

/// How a round ended once `who` had paid `stake` and the coin showed `win`.
///
/// `paid` holds the ledger's balances right after the stake was taken. A
/// loss keeps them. A win credits the whole pot to `who`; when the ledger
/// refuses that, the call fails with `DepositFailed` and the game keeps its
/// state.
pub open spec fn round_settled(
    before: GameState,
    after: GameState,
    paid: Map<AccountId, Balance>,
    settled: Map<AccountId, Balance>,
    who: AccountId,
    stake: Balance,
    win: bool,
    r: Result<Event, Error>,
) -> bool {
    match r {
        Ok(event) => {
            &&& event == Event::PlayResult(who, winnings(before.pot, win))
            &&& after == before.after_round(stake, win)
            &&& if win {
                deposited(paid, settled, who, before.pot)
            } else {
                settled == paid
            }
        },
        Err(e) => {
            &&& win
            &&& e is DepositFailed
            &&& after == before
            &&& settled == paid
        },
    }
}

/// Whether a round with this seed pays out.
pub fn coin_lands_win(seed: &Seed) -> (r: bool)
    ensures
        r == seed_wins(*seed),
{
    seed[31] < 128
}

/// The coin-flip game: the configured stake, the pot and the round counter.
pub struct Pallet {
    payment: Option<Balance>,
    pot: Balance,
    nonce: u64,
}

impl View for Pallet {
    type V = GameState;

    closed spec fn view(&self) -> GameState {
        GameState { payment: self.payment, pot: self.pot, nonce: self.nonce }
    }
}

impl Pallet {
    /// A game with no stake configured, an empty pot and no rounds played.
    pub fn new() -> (r: Pallet)
        ensures
            r@ == GameState::initial(),
    {
        Pallet { payment: None, pot: 0, nonce: 0 }
    }

    /// A game restored from stored values.
    pub fn from_storage(payment: Option<Balance>, pot: Balance, nonce: u64) -> (r: Pallet)
        ensures
            r@ == (GameState { payment, pot, nonce }),
    {
        Pallet { payment, pot, nonce }
    }

    /// The configured stake, if any.
    pub fn payment(&self) -> (r: Option<Balance>)
        ensures
            r == self@.payment,
    {
        self.payment
    }

    /// What the next winner receives.
    pub fn pot(&self) -> (r: Balance)
        ensures
            r == self@.pot,
    {
        self.pot
    }

    /// How many rounds have been played, modulo 2^64.
    pub fn nonce(&self) -> (r: u64)
        ensures
            r == self@.nonce,
    {
        self.nonce
    }

    /// Configures the stake, which also becomes the pot. Only the first
    /// configuration takes effect; a later one is accepted and ignored.
    pub fn set_payment(&mut self, origin: Origin, value: Balance) -> (r: Result<
        Option<Event>,
        Error,
    >)
        ensures
            match origin {
                Origin::Signed(_) => {
                    &&& final(self)@ == old(self)@.after_set_payment(value)
                    &&& r == Ok::<Option<Event>, Error>(
                        if old(self)@.payment is None {
                            Some(Event::PaymentSet(value))
                        } else {
                            None
                        },
                    )
                },
                _ => {
                    &&& r == Err::<Option<Event>, Error>(Error::BadOrigin)
                    &&& final(self)@ == old(self)@
                },
            },
    {
        if ensure_signed(origin).is_err() {
            return Err(Error::BadOrigin);
        }
        if self.payment.is_none() {
            self.payment = Some(value);
            self.pot = value;
            Ok(Some(Event::PaymentSet(value)))
        } else {
            Ok(None)
        }
    }

    /// Plays a round for the signed caller.
    ///
    /// The stake is withdrawn first, keeping the caller's account alive; only
    /// then is a seed drawn, so a refused call leaves the randomness source
    /// untouched. A seed whose last byte is below 128 wins the
    /// whole pot. Either way the stake is then added to the pot (clamped at
    /// the largest balance) and the round counter advances (wrapping). The
    /// call fails after the withdrawal only when the ledger, holding the
    /// balances left by it, refuses to credit the pot.
    pub fn play<L: Ledger, R: Randomness>(
        &mut self,
        origin: Origin,
        ledger: &mut L,
        randomness: &mut R,
    ) -> (r: Result<Event, Error>)
        ensures
            match origin {
                Origin::Signed(who) => match old(self)@.payment {
                    None => {
                        &&& r == Err::<Event, Error>(Error::NonePaymentValue)
                        &&& final(self)@ == old(self)@
                        &&& *final(ledger) == *old(ledger)
                        &&& *final(randomness) == *old(randomness)
                    },
                    Some(stake) => match old(ledger).withdraw_outcome(who, stake, true) {
                        Err(e) => {
                            &&& r == Err::<Event, Error>(Error::WithdrawalFailed(e))
                            &&& final(self)@ == old(self)@
                            &&& *final(ledger) == *old(ledger)
                            &&& *final(randomness) == *old(randomness)
                        },
                        Ok(_) => {
                            let paid = debited(old(ledger).balances(), who, stake);
                            &&& {
                                ||| round_settled(
                                    old(self)@,
                                    final(self)@,
                                    paid,
                                    final(ledger).balances(),
                                    who,
                                    stake,
                                    true,
                                    r,
                                )
                                ||| round_settled(
                                    old(self)@,
                                    final(self)@,
                                    paid,
                                    final(ledger).balances(),
                                    who,
                                    stake,
                                    false,
                                    r,
                                )
                            }
                            &&& r is Err ==> exists|mid: L|
                                mid.balances() == paid && #[trigger] mid.deposit_outcome(
                                    who,
                                    old(self)@.pot,
                                ) == Err::<(), LedgerError>(r->Err_0->DepositFailed_0)
                        },
                    },
                },
                _ => {
                    &&& r == Err::<Event, Error>(Error::BadOrigin)
                    &&& final(self)@ == old(self)@
                    &&& *final(ledger) == *old(ledger)
                    &&& *final(randomness) == *old(randomness)
                },
            },
    {
        let who = match ensure_signed(origin) {
            Ok(who) => who,
            Err(_) => {
                return Err(Error::BadOrigin);
            },
        };
        let stake = match self.payment {
            Some(stake) => stake,
            None => {
                return Err(Error::NonePaymentValue);
            },
        };
        match ledger.withdraw(who, stake, true) {
            Ok(()) => {},
            Err(e) => {
                return Err(Error::WithdrawalFailed(e));
            },
        }
        let ghost mid = *ledger;
        let seed = randomness.next_seed();
        let res = self.settle_round(who, stake, &seed, ledger);
        proof {
            if res is Err {
                assert(mid.deposit_outcome(who, old(self)@.pot) == Err::<(), LedgerError>(
                    res->Err_0->DepositFailed_0,
                ));
            }
        }
        res
    }

    /// The second half of [`Pallet::play`]: finishes a round for `who`,
    /// whose `stake` the ledger has already collected, with the coin decided
    /// by `seed`. A winner is credited the pot; the pot then grows by the
    /// stake and the round counter advances. Calling it without having
    /// collected the stake hands out the pot for free.
    pub fn settle_round<L: Ledger>(&mut self, who: AccountId, stake: Balance, seed: &Seed, ledger: &mut L) -> (r:
        Result<Event, Error>)
        requires
            old(self)@.payment == Some(stake),
        ensures
            round_settled(
                old(self)@,
                final(self)@,
                old(ledger).balances(),
                final(ledger).balances(),
                who,
                stake,
                seed_wins(*seed),
                r,
            ),
            r is Err <==> seed_wins(*seed) && old(ledger).deposit_outcome(who, old(self)@.pot) is Err,
            r matches Err(e) ==> e == Error::DepositFailed(
                old(ledger).deposit_outcome(who, old(self)@.pot)->Err_0,
            ),
    {
        let mut pot = self.pot;
        let mut won: Balance = 0;
        if coin_lands_win(seed) {
            match ledger.deposit_into_existing(who, pot) {
                Ok(()) => {},
                Err(e) => {
                    return Err(Error::DepositFailed(e));
                },
            }
            won = pot;
            pot = 0;
        }
        self.pot = pot.saturating_add(stake);
        self.nonce = self.nonce.wrapping_add(1);
        Ok(Event::PlayResult(who, won))
    }
}

} // verus!
