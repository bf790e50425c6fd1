use launchpad::launchpad_common::config::{CallContext, LaunchpadState, Payment, TimelineConfig};
use launchpad::launchpad_common::errors::LaunchpadError;
use launchpad::launchpad_common::launch_stage::{Flags, LaunchStage, LaunchStageModule};
use launchpad::launchpad_common::launchpad_main::{LaunchpadInitArgs, LaunchpadMain};
use launchpad::launchpad_common::ongoing_operation::{GasBudget, OngoingOperationType, OperationCompletionStatus};
use launchpad::launchpad_common::random::Random;
use launchpad::launchpad_common::setup::SetupModule;
use launchpad::launchpad_common::tickets::TicketsModule;
use launchpad::launchpad_common::token_id::{is_egld, is_valid_egld_or_esdt, is_valid_esdt_identifier};
use launchpad::launchpad_common::user_interactions::UserInteractionsModule;
use launchpad::launchpad_common::winner_selection::WinnerSelectionModule;
use launchpad::launchpad_common::blacklist::BlacklistModule;

const OWNER: u64 = 1;
const USERS: [u64; 3] = [21, 22, 23];
const LAUNCHPAD_TOKEN_ID: &[u8] = b"LAUNCH-123456";

fn ctx(caller: u64, round: u64) -> CallContext {
    CallContext { caller, owner: OWNER, block_round: round, block_nonce: round, block_epoch: 0 }
}

fn args(nr_winning_tickets: usize) -> LaunchpadInitArgs {
    LaunchpadInitArgs {
        launchpad_token_id: LAUNCHPAD_TOKEN_ID.to_vec(),
        launchpad_tokens_per_winning_ticket: 100,
        ticket_payment_token: b"EGLD".to_vec(),
        ticket_price: 10,
        nr_winning_tickets,
        confirmation_period_start_round: 5,
        winner_selection_start_round: 10,
        claim_start_round: 15,
        flags: Flags { was_additional_step_completed: true, ..Flags::default() },
    }
}

fn egld(amount: u128) -> Payment {
    Payment { token_id: b"EGLD".to_vec(), token_nonce: 0, amount }
}

fn gas() -> GasBudget {
    GasBudget { gas_left: 1_000_000_000, gas_per_iteration: 1_000 }
}

#[test]
fn esdt_identifiers_are_validated() {
    assert!(is_valid_esdt_identifier(&b"LAUNCH-123456".to_vec()));
    assert!(is_valid_esdt_identifier(&b"ABC-abc123".to_vec()));
    assert!(!is_valid_esdt_identifier(&b"launch-123456".to_vec()));
    assert!(!is_valid_esdt_identifier(&b"LAUNCH123456".to_vec()));
    assert!(!is_valid_esdt_identifier(&b"AB-123456".to_vec()));
    assert!(!is_valid_esdt_identifier(&b"LAUNCH-12345G".to_vec()));
    assert!(!is_valid_esdt_identifier(&b"EGLD".to_vec()));
    assert!(is_egld(&b"EGLD".to_vec()));
    assert!(!is_egld(&b"EGLD-123456".to_vec()));
    assert!(is_valid_egld_or_esdt(&b"EGLD".to_vec()));
    assert!(!is_valid_egld_or_esdt(&b"egld".to_vec()));
}

#[test]
fn random_reads_big_endian_numbers_and_rehashes_the_seed() {
    let mut seed = [0u8; 32];
    seed[0] = 0x12;
    seed[1] = 0x34;
    seed[2] = 0x56;
    seed[3] = 0x78;
    let mut rng = Random::from_hash(seed, 0);
    assert_eq!(rng.next_usize(), 0x1234_5678);
    assert_eq!(rng.index, 4);
    assert_eq!(rng.next_usize_in_range(5, 9), 5);
    assert_eq!(rng.next_usize_in_range(7, 7), 7);

    // past the end of the seed, the seed is hashed and read from its start
    let mut rng = Random::from_hash([0u8; 32], 29);
    let _ = rng.next_usize();
    let sha256_of_zeros: [u8; 32] = [
        0x66, 0x68, 0x7a, 0xad, 0xf8, 0x62, 0xbd, 0x77, 0x6c, 0x8f, 0xc1, 0x8b, 0x8e, 0x9f, 0x8e, 0x20,
        0x08, 0x97, 0x14, 0x85, 0x6e, 0xe2, 0x33, 0xb3, 0x90, 0x2a, 0x59, 0x1d, 0x0d, 0x5f, 0x29, 0x25,
    ];
    assert_eq!(rng.seed, sha256_of_zeros);
    assert_eq!(rng.index, 4);
}

#[test]
fn random_encoding_round_trips() {
    let mut seed = [7u8; 32];
    seed[31] = 9;
    let rng = Random::from_hash(seed, 12);
    let bytes = rng.encode();
    // the seed with its length as a 32-bit prefix, then the index
    assert_eq!(bytes.len(), 40);
    assert_eq!(&bytes[..4], &[0, 0, 0, 32]);
    let back = Random::decode(&bytes).unwrap();
    assert_eq!(back.seed, seed);
    assert_eq!(back.index, 12);
    assert_eq!(Random::decode(&bytes[..10].to_vec()).err(), Some(LaunchpadError::InvalidOperationData));
}

#[test]
fn launch_stages_follow_the_rounds_and_flags() {
    let s = LaunchpadState::init_base(&ctx(OWNER, 0), args(1)).unwrap();
    assert_eq!(s.get_launch_stage(0), LaunchStage::AddTickets);
    assert_eq!(s.get_launch_stage(5), LaunchStage::Confirm);
    assert_eq!(s.get_launch_stage(10), LaunchStage::WinnerSelection);
    // winners not selected yet: still winner selection in the claim round
    assert_eq!(s.get_launch_stage(15), LaunchStage::WinnerSelection);
    assert_eq!(s.require_claim_period(15), Err(LaunchpadError::NotInClaimPeriod));
    assert_eq!(LaunchpadError::NotInClaimPeriod.message(), "Not in claim period");
}

#[test]
fn init_refuses_bad_arguments() {
    let mut bad = args(1);
    bad.ticket_price = 0;
    assert_eq!(LaunchpadState::init_base(&ctx(OWNER, 0), bad).err(), Some(LaunchpadError::TicketPriceZero));
    let mut bad = args(0);
    bad.ticket_price = 10;
    assert_eq!(LaunchpadState::init_base(&ctx(OWNER, 0), bad).err(), Some(LaunchpadError::WinningTicketsZero));
    let mut bad = args(1);
    bad.winner_selection_start_round = 4;
    assert_eq!(LaunchpadState::init_base(&ctx(OWNER, 0), bad).err(), Some(LaunchpadError::WinnerSelectionBeforeConfirm));
    let mut bad = args(1);
    bad.claim_start_round = 9;
    assert_eq!(LaunchpadState::init_base(&ctx(OWNER, 0), bad).err(), Some(LaunchpadError::ClaimBeforeWinnerSelection));
    let mut bad = args(1);
    bad.ticket_payment_token = b"not a token".to_vec();
    assert_eq!(LaunchpadState::init_base(&ctx(OWNER, 0), bad).err(), Some(LaunchpadError::InvalidTokenId));
    let mut bad = args(1);
    bad.launchpad_tokens_per_winning_ticket = 0;
    assert_eq!(LaunchpadState::init_base(&ctx(OWNER, 0), bad).err(), Some(LaunchpadError::LaunchpadTokensPerTicketZero));
}

/// A basic launchpad: user i holds i + 1 tickets and confirms them all; two win.
fn confirmed_launchpad() -> LaunchpadState {
    let mut s = LaunchpadState::init_base(&ctx(OWNER, 0), args(2)).unwrap();
    let pairs: Vec<(u64, usize)> = USERS.iter().enumerate().map(|(i, u)| (*u, i + 1)).collect();
    s.add_tickets(&ctx(OWNER, 0), &pairs).unwrap();
    assert_eq!(s.last_ticket_id, 6);
    let deposit = Payment { token_id: LAUNCHPAD_TOKEN_ID.to_vec(), token_nonce: 0, amount: 200 };
    s.deposit_launchpad_tokens(2, &deposit).unwrap();
    for (i, u) in USERS.iter().enumerate() {
        s.confirm_tickets(&ctx(*u, 5), egld(10 * (i as u128 + 1)), i + 1).unwrap();
    }
    s
}

#[test]
fn adding_tickets_is_refused_for_a_duplicate_or_late() {
    let mut s = LaunchpadState::init_base(&ctx(OWNER, 0), args(2)).unwrap();
    assert_eq!(s.add_tickets(&ctx(USERS[0], 0), &vec![(USERS[0], 1)]), Err(LaunchpadError::OnlyOwner));
    assert_eq!(s.add_tickets(&ctx(OWNER, 0), &vec![(USERS[0], 1), (USERS[0], 2)]), Err(LaunchpadError::DuplicateEntry));
    assert_eq!(s.last_ticket_id, 0);
    s.add_tickets(&ctx(OWNER, 0), &vec![(USERS[0], 1)]).unwrap();
    assert_eq!(s.add_tickets(&ctx(OWNER, 0), &vec![(USERS[0], 1)]), Err(LaunchpadError::DuplicateEntry));
    assert_eq!(s.add_tickets(&ctx(OWNER, 5), &vec![(USERS[1], 1)]), Err(LaunchpadError::AddTicketsPeriodPassed));
    assert_eq!(LaunchpadError::DuplicateEntry.message(), "Duplicate entry for user");
}

#[test]
fn confirming_is_checked() {
    let mut s = confirmed_launchpad();
    // everything is confirmed already
    assert_eq!(s.confirm_tickets(&ctx(USERS[0], 5), egld(10), 1).err(), Some(LaunchpadError::TooManyTicketsConfirmed));
    let mut fresh = LaunchpadState::init_base(&ctx(OWNER, 0), args(2)).unwrap();
    fresh.add_tickets(&ctx(OWNER, 0), &vec![(USERS[0], 2)]).unwrap();
    assert_eq!(fresh.confirm_tickets(&ctx(USERS[0], 5), egld(10), 1).err(), Some(LaunchpadError::LaunchpadTokensNotDeposited));
    fresh.deposit_launchpad_tokens(2, &Payment { token_id: LAUNCHPAD_TOKEN_ID.to_vec(), token_nonce: 0, amount: 200 }).unwrap();
    assert_eq!(fresh.confirm_tickets(&ctx(USERS[0], 4), egld(10), 1).err(), Some(LaunchpadError::NotInConfirmationPeriod));
    assert_eq!(fresh.confirm_tickets(&ctx(USERS[0], 5), egld(11), 1).err(), Some(LaunchpadError::WrongAmountSent));
    let wrong_token = Payment { token_id: b"OTHER-123456".to_vec(), token_nonce: 0, amount: 10 };
    assert_eq!(fresh.confirm_tickets(&ctx(USERS[0], 5), wrong_token, 1).err(), Some(LaunchpadError::WrongPaymentToken));
    fresh.add_users_to_blacklist(&ctx(OWNER, 5), &vec![USERS[0]]).unwrap();
    assert_eq!(fresh.confirm_tickets(&ctx(USERS[0], 5), egld(10), 1).err(), Some(LaunchpadError::Blacklisted));
    assert_eq!(s.nr_confirmed_tickets.get(&USERS[2]).copied(), Some(3));
}

#[test]
fn filtering_and_the_shuffle_pick_the_winners() {
    let mut s = confirmed_launchpad();
    let selection = ctx(OWNER, 10);
    assert_eq!(s.select_winners(&selection, gas(), [0u8; 32]).err(), Some(LaunchpadError::MustFilterFirst));
    assert_eq!(s.filter_tickets(&selection, gas()), Ok(OperationCompletionStatus::Completed));
    assert!(s.flags.were_tickets_filtered);
    assert_eq!(s.filter_tickets(&selection, gas()).err(), Some(LaunchpadError::TicketsAlreadyFiltered));
    assert_eq!(s.select_winners(&selection, gas(), [0u8; 32]), Ok(OperationCompletionStatus::Completed));
    // with a zero seed every draw reads 0: positions 1 and 2 keep their tickets
    assert_eq!(s.ticket_status.get(&1).copied(), Some(true));
    assert_eq!(s.ticket_status.get(&2).copied(), Some(true));
    let winners = s.ticket_status.values().filter(|w| **w).count();
    assert_eq!(winners, 2);
    assert_eq!(s.get_number_of_winning_tickets_for_address(USERS[0]), 1);
    assert_eq!(s.get_number_of_winning_tickets_for_address(USERS[1]), 1);
    assert_eq!(s.get_number_of_winning_tickets_for_address(USERS[2]), 0);
    assert_eq!(s.claimable_ticket_payment, 20);
    assert!(matches!(s.current_ongoing_operation, OngoingOperationType::Idle));
}

#[test]
fn filtering_drops_unconfirmed_and_blacklisted_tickets() {
    let mut s = LaunchpadState::init_base(&ctx(OWNER, 0), args(2)).unwrap();
    s.add_tickets(&ctx(OWNER, 0), &vec![(USERS[0], 2), (USERS[1], 3), (USERS[2], 2)]).unwrap();
    s.deposit_launchpad_tokens(2, &Payment { token_id: LAUNCHPAD_TOKEN_ID.to_vec(), token_nonce: 0, amount: 200 }).unwrap();
    s.confirm_tickets(&ctx(USERS[0], 5), egld(10), 1).unwrap();
    s.confirm_tickets(&ctx(USERS[1], 5), egld(20), 2).unwrap();
    s.confirm_tickets(&ctx(USERS[2], 5), egld(20), 2).unwrap();
    s.add_users_to_blacklist(&ctx(OWNER, 5), &vec![USERS[1]]).unwrap();
    assert_eq!(s.filter_tickets(&ctx(OWNER, 10), gas()), Ok(OperationCompletionStatus::Completed));
    // user 0 keeps 1 ticket at id 1, user 1 is gone, user 2's two tickets move to 2..=3
    assert_eq!(s.last_ticket_id, 3);
    assert_eq!(s.get_ticket_range_for_address(USERS[0]), Some((1, 1)));
    assert_eq!(s.get_ticket_range_for_address(USERS[1]), None);
    assert_eq!(s.get_ticket_range_for_address(USERS[2]), Some((2, 3)));
}

#[test]
fn filtering_stops_and_resumes_when_the_gas_runs_out() {
    let mut s = confirmed_launchpad();
    // enough gas for exactly one batch
    let little = GasBudget { gas_left: 10_000_000 + 2_000, gas_per_iteration: 1_500 };
    assert_eq!(s.filter_tickets(&ctx(OWNER, 10), little), Ok(OperationCompletionStatus::InterruptedBeforeOutOfGas));
    assert!(matches!(
        s.current_ongoing_operation,
        OngoingOperationType::FilterTickets { first_ticket_id_in_batch: 2, nr_removed: 0 }
    ));
    assert_eq!(s.filter_tickets(&ctx(OWNER, 10), gas()), Ok(OperationCompletionStatus::Completed));
    assert_eq!(s.last_ticket_id, 6);
}

#[test]
fn users_claim_and_the_owner_takes_the_payment() {
    let mut s = confirmed_launchpad();
    let selection = ctx(OWNER, 10);
    s.filter_tickets(&selection, gas()).unwrap();
    s.select_winners(&selection, gas(), [0u8; 32]).unwrap();

    let c0 = s.claim_refunded_tickets_and_launchpad_tokens(&ctx(USERS[0], 15)).unwrap();
    assert!(c0.refund.is_none());
    assert_eq!(c0.launchpad_tokens.unwrap().amount, 100);
    let c1 = s.claim_refunded_tickets_and_launchpad_tokens(&ctx(USERS[1], 15)).unwrap();
    assert_eq!(c1.refund.unwrap().amount, 10);
    assert_eq!(c1.launchpad_tokens.unwrap().amount, 100);
    let c2 = s.claim_refunded_tickets_and_launchpad_tokens(&ctx(USERS[2], 15)).unwrap();
    assert_eq!(c2.refund.unwrap().amount, 30);
    assert!(c2.launchpad_tokens.is_none());
    assert_eq!(s.claim_refunded_tickets_and_launchpad_tokens(&ctx(USERS[2], 15)).err(), Some(LaunchpadError::NoTickets));

    assert_eq!(s.claim_ticket_payment(&ctx(USERS[0], 15), 0).err(), Some(LaunchpadError::OnlyOwner));
    let transfers = s.claim_ticket_payment(&ctx(OWNER, 15), 0).unwrap();
    assert_eq!(transfers.len(), 1);
    assert_eq!(transfers[0].amount, 20);
    assert_eq!(s.claimable_ticket_payment, 0);
}

#[test]
fn the_timeline_setters_are_checked() {
    let mut s = LaunchpadState::init_base(&ctx(OWNER, 0), args(1)).unwrap();
    assert!(s.set_confirmation_period_start_round(&ctx(OWNER, 0), 7).is_ok());
    assert_eq!(s.configuration, TimelineConfig { confirmation_period_start_round: 7, winner_selection_start_round: 10, claim_start_round: 15 });
    assert!(s.set_winner_selection_start_round(&ctx(OWNER, 0), 6).is_err());
    assert!(s.set_claim_start_round(&ctx(OWNER, 0), 9).is_err());
    assert!(s.set_claim_start_round(&ctx(OWNER, 0), 20).is_ok());
    assert_eq!(s.configuration.claim_start_round, 20);
}

/// Users hold 1, 2 and 3 tickets and confirm 0, 2 and 1 of them; three win.
fn partly_confirmed_launchpad() -> LaunchpadState {
    let mut s = LaunchpadState::init_base(&ctx(OWNER, 0), args(3)).unwrap();
    s.add_tickets(&ctx(OWNER, 0), &vec![(USERS[0], 1), (USERS[1], 2), (USERS[2], 3)]).unwrap();
    assert_eq!(s.get_ticket_range_for_address(USERS[0]), Some((1, 1)));
    assert_eq!(s.get_ticket_range_for_address(USERS[1]), Some((2, 3)));
    assert_eq!(s.get_ticket_range_for_address(USERS[2]), Some((4, 6)));
    assert_eq!(s.last_ticket_id, 6);
    let deposit = Payment { token_id: LAUNCHPAD_TOKEN_ID.to_vec(), token_nonce: 0, amount: 300 };
    s.deposit_launchpad_tokens(3, &deposit).unwrap();
    s.confirm_tickets(&ctx(USERS[1], 5), egld(20), 2).unwrap();
    s.confirm_tickets(&ctx(USERS[2], 5), egld(10), 1).unwrap();
    s
}

/// Enough gas for one step of a long operation per call.
fn one_step_of_gas() -> GasBudget {
    GasBudget { gas_left: 10_000_000 + 2_000, gas_per_iteration: 1_500 }
}

#[test]
fn filtering_renumbers_the_kept_tickets() {
    let mut s = partly_confirmed_launchpad();
    assert_eq!(s.filter_tickets(&ctx(OWNER, 10), gas()), Ok(OperationCompletionStatus::Completed));
    assert_eq!(s.get_ticket_range_for_address(USERS[0]), None);
    assert_eq!(s.get_ticket_range_for_address(USERS[1]), Some((1, 2)));
    assert_eq!(s.get_ticket_range_for_address(USERS[2]), Some((3, 3)));
    assert_eq!(s.ticket_batch.get(&1).map(|b| (b.address, b.nr_tickets)), Some((USERS[1], 2)));
    assert_eq!(s.ticket_batch.get(&3).map(|b| (b.address, b.nr_tickets)), Some((USERS[2], 1)));
    assert!(s.ticket_batch.get(&2).is_none());
    assert!(s.ticket_batch.get(&4).is_none());
    assert_eq!(s.last_ticket_id, 3);
    assert_eq!(s.nr_winning_tickets, 3);
    assert!(s.flags.were_tickets_filtered);
    assert!(matches!(s.current_ongoing_operation, OngoingOperationType::Idle));
}

#[test]
fn resumed_filtering_ends_as_one_long_filtering() {
    let mut long = partly_confirmed_launchpad();
    assert_eq!(long.filter_tickets(&ctx(OWNER, 10), gas()), Ok(OperationCompletionStatus::Completed));

    let mut resumed = partly_confirmed_launchpad();
    let mut calls = 0;
    loop {
        calls += 1;
        match resumed.filter_tickets(&ctx(OWNER, 10), one_step_of_gas()).unwrap() {
            OperationCompletionStatus::Completed => break,
            OperationCompletionStatus::InterruptedBeforeOutOfGas => {
                assert!(matches!(resumed.current_ongoing_operation, OngoingOperationType::FilterTickets { .. }));
            },
        }
    }
    // one batch per call
    assert_eq!(calls, 3);
    assert_eq!(resumed.ticket_range_for_address, long.ticket_range_for_address);
    assert_eq!(resumed.ticket_batch, long.ticket_batch);
    assert_eq!(resumed.last_ticket_id, long.last_ticket_id);
    assert_eq!(resumed.nr_winning_tickets, long.nr_winning_tickets);
    assert_eq!(resumed.flags, long.flags);
    assert!(matches!(resumed.current_ongoing_operation, OngoingOperationType::Idle));
}

#[test]
fn resumed_selection_ends_as_one_long_selection() {
    let seed = [0x5au8; 32];
    let mut long = confirmed_launchpad();
    long.filter_tickets(&ctx(OWNER, 10), gas()).unwrap();
    assert_eq!(long.select_winners(&ctx(OWNER, 10), gas(), seed), Ok(OperationCompletionStatus::Completed));

    let mut resumed = confirmed_launchpad();
    resumed.filter_tickets(&ctx(OWNER, 10), gas()).unwrap();
    // the seed of the first call is saved with the generator; later seeds are not used
    assert_eq!(
        resumed.select_winners(&ctx(OWNER, 10), one_step_of_gas(), seed),
        Ok(OperationCompletionStatus::InterruptedBeforeOutOfGas)
    );
    assert!(matches!(
        resumed.current_ongoing_operation,
        OngoingOperationType::SelectWinners { ticket_position: 2, .. }
    ));
    assert_eq!(
        resumed.select_winners(&ctx(OWNER, 10), one_step_of_gas(), [0x11u8; 32]),
        Ok(OperationCompletionStatus::Completed)
    );
    assert_eq!(resumed.ticket_status, long.ticket_status);
    assert_eq!(resumed.ticket_pos_to_id, long.ticket_pos_to_id);
    assert_eq!(resumed.claimable_ticket_payment, long.claimable_ticket_payment);
    assert_eq!(resumed.flags, long.flags);
    // two distinct winning tickets
    assert_eq!(resumed.ticket_status.values().filter(|w| **w).count(), 2);
}

#[test]
fn a_filtering_call_with_enough_gas_completes() {
    let mut s = confirmed_launchpad();
    // gas for exactly three steps: the three batches
    let three_steps = GasBudget { gas_left: 10_000_000 + 2 * 1_500 + 2_000, gas_per_iteration: 1_500 };
    assert_eq!(s.filter_tickets(&ctx(OWNER, 10), three_steps), Ok(OperationCompletionStatus::Completed));
}

#[test]
fn added_ranges_split_the_ids_in_call_order() {
    let mut s = LaunchpadState::init_base(&ctx(OWNER, 0), args(2)).unwrap();
    s.add_tickets(&ctx(OWNER, 0), &vec![(USERS[0], 2), (USERS[1], 1)]).unwrap();
    s.add_tickets(&ctx(OWNER, 0), &vec![(USERS[2], 3)]).unwrap();
    assert_eq!(s.last_ticket_id, 6);
    let ranges: Vec<(usize, usize)> = USERS.iter().map(|u| s.get_ticket_range_for_address(*u).unwrap()).collect();
    assert_eq!(ranges, vec![(1, 2), (3, 3), (4, 6)]);
    for id in 1..=6usize {
        let holders = ranges.iter().filter(|(first, last)| *first <= id && id <= *last).count();
        assert_eq!(holders, 1);
    }
    for (i, u) in USERS.iter().enumerate() {
        assert_eq!(s.get_total_number_of_tickets_for_address(*u), [2, 1, 3][i]);
    }
}

#[test]
fn equal_generators_give_equal_numbers() {
    let mut seed = [0u8; 32];
    for (i, b) in seed.iter_mut().enumerate() {
        *b = (i as u8).wrapping_mul(37).wrapping_add(5);
    }
    let mut r1 = Random::from_hash(seed, 4);
    let mut r2 = Random::from_hash(seed, 4);
    // twelve reads run past the end of the seed, so the seed is hashed on the way
    let a: Vec<usize> = (0..12).map(|_| r1.next_usize()).collect();
    let b: Vec<usize> = (0..12).map(|_| r2.next_usize()).collect();
    assert_eq!(a, b);
    assert_eq!(r1.seed, r2.seed);
    assert_eq!(r1.index, r2.index);
    assert_ne!(r1.seed, seed);
    // reading five and then seven more is reading twelve
    let mut r3 = Random::from_hash(seed, 4);
    let mut c: Vec<usize> = (0..5).map(|_| r3.next_usize()).collect();
    let saved = Random::decode(&r3.encode()).unwrap();
    let mut r4 = saved;
    c.extend((0..7).map(|_| r4.next_usize()));
    assert_eq!(c, a);
}

#[test]
fn a_selection_whose_payment_overflows_is_refused_and_changes_nothing() {
    let price: u128 = u128::MAX / 2 + 1;
    let mut a = args(2);
    a.ticket_price = price;
    let mut s = LaunchpadState::init_base(&ctx(OWNER, 0), a).unwrap();
    s.add_tickets(&ctx(OWNER, 0), &vec![(USERS[0], 1), (USERS[1], 1), (USERS[2], 1)]).unwrap();
    s.deposit_launchpad_tokens(2, &Payment { token_id: LAUNCHPAD_TOKEN_ID.to_vec(), token_nonce: 0, amount: 200 }).unwrap();
    for u in USERS.iter() {
        s.confirm_tickets(&ctx(*u, 5), egld(price), 1).unwrap();
    }
    s.filter_tickets(&ctx(OWNER, 10), gas()).unwrap();
    // two winners would owe twice the price, which leaves the integers
    assert_eq!(s.select_winners(&ctx(OWNER, 10), gas(), [0u8; 32]), Err(LaunchpadError::ArithmeticError));
    assert!(!s.flags.were_winners_selected);
    assert!(s.ticket_status.is_empty());
    assert!(s.ticket_pos_to_id.is_empty());
    assert_eq!(s.claimable_ticket_payment, 0);
    assert!(matches!(s.current_ongoing_operation, OngoingOperationType::Idle));
}

#[test]
fn confirm_tickets_names_each_refusal() {
    let mut s = LaunchpadState::init_base(&ctx(OWNER, 0), args(2)).unwrap();
    s.add_tickets(&ctx(OWNER, 0), &vec![(USERS[0], 2), (USERS[1], 2)]).unwrap();
    assert_eq!(s.confirm_tickets(&ctx(USERS[0], 5), egld(10), 1).err(), Some(LaunchpadError::LaunchpadTokensNotDeposited));
    s.deposit_launchpad_tokens(2, &Payment { token_id: LAUNCHPAD_TOKEN_ID.to_vec(), token_nonce: 0, amount: 200 }).unwrap();
    assert_eq!(s.confirm_tickets(&ctx(USERS[0], 4), egld(10), 1).err(), Some(LaunchpadError::NotInConfirmationPeriod));
    assert_eq!(s.confirm_tickets(&ctx(USERS[0], 5), egld(30), 3).err(), Some(LaunchpadError::TooManyTicketsConfirmed));
    // the token is checked before the amount
    let wrong_token = Payment { token_id: b"OTHER-123456".to_vec(), token_nonce: 0, amount: 11 };
    assert_eq!(s.confirm_tickets(&ctx(USERS[0], 5), wrong_token, 1).err(), Some(LaunchpadError::WrongPaymentToken));
    assert_eq!(s.confirm_tickets(&ctx(USERS[0], 5), egld(11), 1).err(), Some(LaunchpadError::WrongAmountSent));
    assert_eq!(LaunchpadError::WrongPaymentToken.message(), "Wrong payment token used");
    assert_eq!(LaunchpadError::WrongAmountSent.message(), "Wrong amount sent");
    assert_eq!(LaunchpadError::TooManyTicketsConfirmed.message(), "Trying to confirm too many tickets");
    assert_eq!(s.nr_confirmed_tickets.get(&USERS[0]).copied(), None);
}

#[test]
fn a_user_taken_off_the_blacklist_confirms_again_from_nothing() {
    let mut s = LaunchpadState::init_base(&ctx(OWNER, 0), args(2)).unwrap();
    s.add_tickets(&ctx(OWNER, 0), &vec![(USERS[0], 2)]).unwrap();
    s.deposit_launchpad_tokens(2, &Payment { token_id: LAUNCHPAD_TOKEN_ID.to_vec(), token_nonce: 0, amount: 200 }).unwrap();
    s.confirm_tickets(&ctx(USERS[0], 5), egld(20), 2).unwrap();
    let refunds = s.add_users_to_blacklist(&ctx(OWNER, 5), &vec![USERS[0]]).unwrap();
    assert_eq!(refunds.len(), 1);
    assert_eq!(refunds[0].amount, 20);
    assert_eq!(s.confirm_tickets(&ctx(USERS[0], 5), egld(20), 2).err(), Some(LaunchpadError::Blacklisted));
    assert_eq!(
        LaunchpadError::Blacklisted.message(),
        "You have been put into the blacklist and may not confirm tickets"
    );
    s.remove_users_from_blacklist(&ctx(OWNER, 5), &vec![USERS[0]]).unwrap();
    assert!(!s.is_user_blacklisted(USERS[0]));
    assert_eq!(s.nr_confirmed_tickets.get(&USERS[0]).copied().unwrap_or(0), 0);
    s.confirm_tickets(&ctx(USERS[0], 5), egld(20), 2).unwrap();
    assert_eq!(s.nr_confirmed_tickets.get(&USERS[0]).copied(), Some(2));
}

#[test]
fn deposit_names_each_refusal() {
    let mut s = LaunchpadState::init_base(&ctx(OWNER, 0), args(2)).unwrap();
    let wrong_token = Payment { token_id: b"OTHER-123456".to_vec(), token_nonce: 0, amount: 200 };
    assert_eq!(s.deposit_launchpad_tokens(2, &wrong_token), Err(LaunchpadError::WrongToken));
    let short = Payment { token_id: LAUNCHPAD_TOKEN_ID.to_vec(), token_nonce: 0, amount: 199 };
    assert_eq!(s.deposit_launchpad_tokens(2, &short), Err(LaunchpadError::WrongAmount));
    let huge = Payment { token_id: LAUNCHPAD_TOKEN_ID.to_vec(), token_nonce: 0, amount: u128::MAX };
    assert_eq!(s.deposit_launchpad_tokens(usize::MAX, &huge), Err(LaunchpadError::WrongAmount));
    assert!(!s.launchpad_tokens_deposited);
    let exact = Payment { token_id: LAUNCHPAD_TOKEN_ID.to_vec(), token_nonce: 0, amount: 200 };
    assert_eq!(s.deposit_launchpad_tokens(2, &exact), Ok(()));
    assert_eq!(s.total_launchpad_tokens_deposited, 200);
    assert_eq!(s.deposit_launchpad_tokens(2, &exact), Err(LaunchpadError::TokensAlreadyDeposited));
}
