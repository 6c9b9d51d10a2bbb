use coinflip::pallet::coin_lands_win;
use coinflip::{Balances, Error, Event, Ledger, LedgerError, Origin, Pallet, Randomness, Seed, SeedSequence};

fn seed_ending_in(last: u8) -> Seed {
    let mut seed = [7u8; 32];
    seed[31] = last;
    seed
}

fn seeds(lasts: &[u8]) -> SeedSequence {
    SeedSequence::new(lasts.iter().map(|b| seed_ending_in(*b)).collect()).unwrap()
}

fn ledger_with(who: u64, amount: u64) -> Balances {
    let mut balances = Balances::new(1);
    balances.set_balance(who, amount);
    balances
}

#[test]
fn second_configuration_is_ignored() {
    let mut game = Pallet::new();
    assert_eq!(game.set_payment(Origin::signed(5), 7), Ok(Some(Event::PaymentSet(7))));
    assert_eq!(game.set_payment(Origin::signed(6), 9), Ok(None));
    assert_eq!(game.payment(), Some(7));
    assert_eq!(game.pot(), 7);
    assert_eq!(game.nonce(), 0);
}

#[test]
fn configuration_needs_a_signed_origin() {
    let mut game = Pallet::new();
    assert_eq!(game.set_payment(Origin::root(), 7), Err(Error::BadOrigin));
    assert_eq!(game.set_payment(Origin::unsigned(), 7), Err(Error::BadOrigin));
    assert_eq!(game.payment(), None);
    assert_eq!(game.pot(), 0);
}

#[test]
fn play_before_configuration_fails() {
    let mut balances = ledger_with(3, 50);
    let mut randomness = seeds(&[0]);
    let mut game = Pallet::new();
    assert_eq!(game.play(Origin::signed(3), &mut balances, &mut randomness), Err(Error::NonePaymentValue));
    assert_eq!(game.payment(), None);
    assert_eq!(game.pot(), 0);
    assert_eq!(game.nonce(), 0);
    assert_eq!(balances.total_balance(3), 50);
}

#[test]
fn unsigned_play_fails() {
    let mut balances = ledger_with(3, 50);
    let mut randomness = seeds(&[0]);
    let mut game = Pallet::from_storage(Some(10), 10, 0);
    assert_eq!(game.play(Origin::unsigned(), &mut balances, &mut randomness), Err(Error::BadOrigin));
    assert_eq!(game.pot(), 10);
    assert_eq!(game.nonce(), 0);
}

#[test]
fn short_balance_changes_nothing() {
    let mut balances = ledger_with(3, 9);
    let mut randomness = seeds(&[0]);
    let mut game = Pallet::from_storage(Some(10), 25, 4);
    assert_eq!(
        game.play(Origin::signed(3), &mut balances, &mut randomness),
        Err(Error::WithdrawalFailed(LedgerError::InsufficientBalance))
    );
    assert_eq!(game.pot(), 25);
    assert_eq!(game.nonce(), 4);
    assert_eq!(balances.total_balance(3), 9);
}

#[test]
fn stake_that_would_empty_the_account_is_refused() {
    let mut balances = ledger_with(3, 10);
    let mut randomness = seeds(&[0]);
    let mut game = Pallet::from_storage(Some(10), 10, 0);
    assert_eq!(
        game.play(Origin::signed(3), &mut balances, &mut randomness),
        Err(Error::WithdrawalFailed(LedgerError::KeepAlive))
    );
    assert_eq!(game.pot(), 10);
    assert_eq!(game.nonce(), 0);
    assert_eq!(balances.total_balance(3), 10);
}

#[test]
fn unknown_account_cannot_play() {
    let mut balances = Balances::new(1);
    let mut randomness = seeds(&[0]);
    let mut game = Pallet::from_storage(Some(1), 1, 0);
    assert_eq!(
        game.play(Origin::signed(8), &mut balances, &mut randomness),
        Err(Error::WithdrawalFailed(LedgerError::InsufficientBalance))
    );
}

#[test]
fn winner_takes_the_pot() {
    let mut balances = ledger_with(2, 20);
    let mut randomness = seeds(&[127]);
    let mut game = Pallet::from_storage(Some(10), 30, 0);
    assert_eq!(game.play(Origin::signed(2), &mut balances, &mut randomness), Ok(Event::PlayResult(2, 30)));
    assert_eq!(balances.total_balance(2), 40);
    assert_eq!(game.pot(), 10);
    assert_eq!(game.nonce(), 1);
}

#[test]
fn loser_feeds_the_pot() {
    let mut balances = ledger_with(2, 20);
    let mut randomness = seeds(&[128]);
    let mut game = Pallet::from_storage(Some(10), 30, 1);
    assert_eq!(game.play(Origin::signed(2), &mut balances, &mut randomness), Ok(Event::PlayResult(2, 0)));
    assert_eq!(balances.total_balance(2), 10);
    assert_eq!(game.pot(), 40);
    assert_eq!(game.nonce(), 2);
}

#[test]
fn counter_counts_rounds_and_pot_stays_covered() {
    let mut balances = ledger_with(4, 1000);
    let mut randomness = seeds(&[200, 10, 255, 255, 0]);
    let mut game = Pallet::new();
    game.set_payment(Origin::signed(4), 5).unwrap();
    let mut rounds = 0u64;
    for _ in 0..12 {
        assert!(game.play(Origin::signed(4), &mut balances, &mut randomness).is_ok());
        rounds += 1;
        assert_eq!(game.nonce(), rounds);
        assert!(game.pot() >= 5);
    }
    // Every round costs 5; what was won came back out of those stakes.
    assert_eq!(balances.total_balance(4) + game.pot(), 1000 + 5);
}

#[test]
fn counter_wraps_to_zero() {
    let mut balances = ledger_with(2, 20);
    let mut randomness = seeds(&[200]);
    let mut game = Pallet::from_storage(Some(1), 1, u64::MAX);
    assert!(game.play(Origin::signed(2), &mut balances, &mut randomness).is_ok());
    assert_eq!(game.nonce(), 0);
}

#[test]
fn pot_saturates_at_the_largest_balance() {
    let mut balances = ledger_with(2, 20);
    let mut randomness = seeds(&[200]);
    let mut game = Pallet::from_storage(Some(10), u64::MAX - 3, 0);
    assert_eq!(game.play(Origin::signed(2), &mut balances, &mut randomness), Ok(Event::PlayResult(2, 0)));
    assert_eq!(game.pot(), u64::MAX);
}

#[test]
fn refused_payout_is_reported() {
    let mut balances = ledger_with(2, u64::MAX - 5);
    let mut randomness = seeds(&[0]);
    let mut game = Pallet::from_storage(Some(10), 30, 6);
    assert_eq!(
        game.play(Origin::signed(2), &mut balances, &mut randomness),
        Err(Error::DepositFailed(LedgerError::Overflow))
    );
    assert_eq!(game.pot(), 30);
    assert_eq!(game.nonce(), 6);
    assert_eq!(balances.total_balance(2), u64::MAX - 15);
}

#[test]
fn settle_round_follows_the_seed() {
    let mut balances = ledger_with(2, 10);
    let mut game = Pallet::from_storage(Some(10), 30, 0);
    assert_eq!(game.settle_round(2, 10, &seed_ending_in(5), &mut balances), Ok(Event::PlayResult(2, 30)));
    assert_eq!(balances.total_balance(2), 40);
    assert_eq!(game.pot(), 10);
    assert_eq!(game.settle_round(2, 10, &seed_ending_in(250), &mut balances), Ok(Event::PlayResult(2, 0)));
    assert_eq!(balances.total_balance(2), 40);
    assert_eq!(game.pot(), 20);
    assert_eq!(game.nonce(), 2);
}

#[test]
fn zero_stake_plays_for_free() {
    let mut balances = Balances::new(1);
    let mut randomness = seeds(&[0]);
    let mut game = Pallet::new();
    game.set_payment(Origin::signed(1), 0).unwrap();
    assert_eq!(game.play(Origin::signed(9), &mut balances, &mut randomness), Ok(Event::PlayResult(9, 0)));
    assert_eq!(game.pot(), 0);
    assert_eq!(game.nonce(), 1);
}

#[test]
fn coin_reads_the_last_byte() {
    assert!(coin_lands_win(&seed_ending_in(0)));
    assert!(coin_lands_win(&seed_ending_in(127)));
    assert!(!coin_lands_win(&seed_ending_in(128)));
    assert!(!coin_lands_win(&seed_ending_in(255)));
    let mut seed = [255u8; 32];
    seed[31] = 1;
    assert!(coin_lands_win(&seed));
}

#[test]
fn ledger_keeps_the_existential_deposit() {
    let mut balances = Balances::new(5);
    assert_eq!(balances.existential_deposit(), 5);
    balances.set_balance(1, 4);
    assert_eq!(balances.total_balance(1), 0);
    balances.set_balance(1, 12);
    assert_eq!(balances.withdraw(1, 8, true), Err(LedgerError::KeepAlive));
    assert_eq!(balances.total_balance(1), 12);
    assert_eq!(balances.withdraw(1, 7, true), Ok(()));
    assert_eq!(balances.total_balance(1), 5);
    assert_eq!(balances.withdraw(1, 1, false), Ok(()));
    assert_eq!(balances.total_balance(1), 0);
    assert_eq!(balances.deposit_into_existing(1, 3), Err(LedgerError::DeadAccount));
    assert_eq!(balances.withdraw(1, 0, true), Ok(()));
    assert_eq!(balances.deposit_into_existing(1, 0), Ok(()));
}

#[test]
fn ledger_credits_existing_accounts() {
    let mut balances = ledger_with(1, 10);
    assert_eq!(balances.deposit_into_existing(1, 15), Ok(()));
    assert_eq!(balances.total_balance(1), 25);
    assert_eq!(balances.deposit_into_existing(1, u64::MAX), Err(LedgerError::Overflow));
    assert_eq!(balances.total_balance(1), 25);
}

#[test]
fn seed_sequence_cycles() {
    assert!(SeedSequence::new(Vec::new()).is_none());
    let mut randomness = seeds(&[1, 2, 3]);
    let drawn: Vec<u8> = (0..7).map(|_| randomness.next_seed()[31]).collect();
    assert_eq!(drawn, vec![1, 2, 3, 1, 2, 3, 1]);
}
