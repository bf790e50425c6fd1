use launchpad::launchpad_common::config::{CallContext, Payment};
use launchpad::launchpad_common::errors::LaunchpadError;
use launchpad::launchpad_common::launch_stage::Flags;
use launchpad::launchpad_common::launchpad_main::LaunchpadInitArgs;
use launchpad::launchpad_common::ongoing_operation::{GasBudget, OperationCompletionStatus};
use launchpad::launchpad_common::user_interactions::UserInteractionsModule;
use launchpad::launchpad_common::winner_selection::WinnerSelectionModule;
use launchpad::launchpad_guaranteed_tickets_v2::contract::LaunchpadGuaranteedTickets;
use launchpad::launchpad_guaranteed_tickets_v2::guaranteed_ticket_winners::{
    CalculateGuaranteedTicketsResult, GuaranteedTicketWinnersModule, GuaranteedTicketsSelectionOperation,
};
use launchpad::launchpad_guaranteed_tickets_v2::guaranteed_tickets_init::{
    GuaranteedTicketInfo, GuaranteedTicketsEntry, UserTicketsStatus,
};
use launchpad::launchpad_guaranteed_tickets_v2::state::GuaranteedTicketsLaunchpad;
use launchpad::launchpad_guaranteed_tickets_v2::token_release::{TokenReleaseModule, UnlockMilestone, UnlockSchedule};

const OWNER: u64 = 1;
const USERS: [u64; 3] = [41, 42, 43];
const LAUNCHPAD_TOKEN_ID: &[u8] = b"LAUNCH-123456";
const TICKET_COST: u128 = 10;
const LAUNCHPAD_TOKENS_PER_TICKET: u128 = 100;

fn ctx(caller: u64, round: u64) -> CallContext {
    CallContext { caller, owner: OWNER, block_round: round, block_nonce: round, block_epoch: 0 }
}

fn ctx_at(caller: u64, round: u64, epoch: u64) -> CallContext {
    CallContext { caller, owner: OWNER, block_round: round, block_nonce: round, block_epoch: epoch }
}

fn egld(amount: u128) -> Payment {
    Payment { token_id: b"EGLD".to_vec(), token_nonce: 0, amount }
}

fn gas() -> GasBudget {
    GasBudget { gas_left: 1_000_000_000, gas_per_iteration: 1_000 }
}

fn args(nr_winning_tickets: usize) -> LaunchpadInitArgs {
    LaunchpadInitArgs {
        launchpad_token_id: LAUNCHPAD_TOKEN_ID.to_vec(),
        launchpad_tokens_per_winning_ticket: LAUNCHPAD_TOKENS_PER_TICKET,
        ticket_payment_token: b"EGLD".to_vec(),
        ticket_price: TICKET_COST,
        nr_winning_tickets,
        confirmation_period_start_round: 5,
        winner_selection_start_round: 10,
        claim_start_round: 15,
        flags: Flags::default(),
    }
}

fn info(guaranteed_tickets: usize, min_confirmed_tickets: usize) -> GuaranteedTicketInfo {
    GuaranteedTicketInfo { guaranteed_tickets, min_confirmed_tickets }
}

/// Three users with 1, 2 and 3 tickets; the third is guaranteed one winning ticket once
/// all three are confirmed.  Three winning tickets in all.
fn setup() -> GuaranteedTicketsLaunchpad {
    let mut lp = GuaranteedTicketsLaunchpad::init(&ctx(OWNER, 0), args(3)).unwrap();
    let entries: Vec<GuaranteedTicketsEntry> = vec![
        (USERS[0], 1, vec![]),
        (USERS[1], 2, vec![]),
        (USERS[2], 3, vec![(1, 3)]),
    ];
    let added = lp.add_tickets_endpoint(&ctx(OWNER, 0), &entries).unwrap();
    assert_eq!(added.total_users_count, 3);
    assert_eq!(added.total_tickets_added, 6);
    assert_eq!(added.total_guaranteed_tickets_added, 1);
    // one winning ticket is set aside for the guarantee
    assert_eq!(lp.base.nr_winning_tickets, 2);
    assert_eq!(lp.total_guaranteed_tickets, 1);
    assert_eq!(lp.users_with_guaranteed_ticket, vec![USERS[2]]);
    let deposit = Payment { token_id: LAUNCHPAD_TOKEN_ID.to_vec(), token_nonce: 0, amount: 300 };
    lp.deposit_launchpad_tokens_endpoint(&ctx(OWNER, 0), &deposit).unwrap();
    lp
}

#[test]
fn calculate_guaranteed_tickets_splits_by_tier() {
    let lp = setup();
    let status = UserTicketsStatus { total_tickets_allowance: 6, guaranteed_tickets_info: vec![info(2, 3), info(1, 5)] };
    assert_eq!(lp.calculate_guaranteed_tickets(&status, 4), Ok(CalculateGuaranteedTicketsResult::new(2, 1)));
    assert_eq!(lp.calculate_guaranteed_tickets(&status, 1), Ok(CalculateGuaranteedTicketsResult::new(0, 3)));
    assert_eq!(lp.calculate_guaranteed_tickets(&status, 5), Ok(CalculateGuaranteedTicketsResult::new(3, 0)));
    // more guaranteed than confirmed: the excess goes to the draw
    let status = UserTicketsStatus { total_tickets_allowance: 6, guaranteed_tickets_info: vec![info(3, 1)] };
    assert_eq!(lp.calculate_guaranteed_tickets(&status, 2), Ok(CalculateGuaranteedTicketsResult::new(2, 1)));
    let fresh = UserTicketsStatus::new(4);
    assert_eq!(fresh.total_tickets_allowance, 4);
    assert!(fresh.guaranteed_tickets_info.is_empty());
}

#[test]
fn selection_operation_encoding_round_trips() {
    let op = GuaranteedTicketsSelectionOperation::default([3u8; 32]);
    assert_eq!(op.leftover_tickets, 0);
    assert_eq!(op.leftover_ticket_pos_offset, 1);
    assert_eq!(op.total_additional_winning_tickets, 0);
    let mut op2 = op;
    op2.leftover_tickets = 7;
    op2.total_additional_winning_tickets = 2;
    let bytes = op2.encode();
    assert_eq!(bytes.len(), 52);
    let back = GuaranteedTicketsSelectionOperation::decode(&bytes).unwrap();
    assert_eq!(back.rng.seed, [3u8; 32]);
    assert_eq!(back.leftover_tickets, 7);
    assert_eq!(back.leftover_ticket_pos_offset, 1);
    assert_eq!(back.total_additional_winning_tickets, 2);
    assert_eq!(GuaranteedTicketsSelectionOperation::decode(&vec![0u8; 51]).err(), Some(LaunchpadError::InvalidOperationData));
}

#[test]
fn adding_guaranteed_tickets_is_checked() {
    let mut lp = GuaranteedTicketsLaunchpad::init(&ctx(OWNER, 0), args(1)).unwrap();
    let too_many: Vec<GuaranteedTicketsEntry> = vec![(USERS[0], 2, vec![(1, 1)]), (USERS[1], 2, vec![(1, 1)])];
    assert!(lp.add_tickets_endpoint(&ctx(OWNER, 0), &too_many).is_err());
    assert_eq!(lp.base.last_ticket_id, 0);
    let late: Vec<GuaranteedTicketsEntry> = vec![(USERS[0], 2, vec![])];
    assert_eq!(lp.add_tickets_endpoint(&ctx(OWNER, 5), &late).err(), Some(LaunchpadError::AddTicketsPeriodPassed));
    assert_eq!(lp.add_tickets_endpoint(&ctx(USERS[0], 0), &late).err(), Some(LaunchpadError::OnlyOwner));
    assert_eq!(LaunchpadError::AddTicketsPeriodPassed.message(), "Add tickets period has passed");
}

#[test]
fn blacklisting_gives_guarantees_back_to_the_draw() {
    let mut lp = setup();
    lp.base.confirm_tickets(&ctx(USERS[2], 5), egld(30), 3).unwrap();
    let before = lp.base.nr_winning_tickets + lp.total_guaranteed_tickets;
    let transfers = lp.add_users_to_blacklist_endpoint(&ctx(OWNER, 5), &vec![USERS[2]]).unwrap();
    assert_eq!(transfers.len(), 1);
    assert_eq!(transfers[0].amount, 30);
    assert_eq!(lp.base.nr_winning_tickets, 3);
    assert_eq!(lp.total_guaranteed_tickets, 0);
    assert!(lp.users_with_guaranteed_ticket.is_empty());
    assert_eq!(lp.base.nr_winning_tickets + lp.total_guaranteed_tickets, before);

    assert_eq!(lp.remove_guaranteed_users_from_blacklist_endpoint(&ctx(USERS[0], 5), &vec![USERS[2]]).err(), Some(LaunchpadError::PermissionDenied));
    lp.remove_guaranteed_users_from_blacklist_endpoint(&ctx(OWNER, 5), &vec![USERS[2]]).unwrap();
    assert_eq!(lp.base.nr_winning_tickets, 2);
    assert_eq!(lp.total_guaranteed_tickets, 1);
    assert_eq!(lp.users_with_guaranteed_ticket, vec![USERS[2]]);
    assert_eq!(lp.base.nr_winning_tickets + lp.total_guaranteed_tickets, before);
}

#[test]
fn guaranteed_confirm_all_scenario() {
    let mut lp = setup();
    lp.set_unlock_schedule(&ctx(OWNER, 0), &vec![(0, 10_000)]).unwrap();
    for (i, u) in USERS.iter().enumerate() {
        lp.base.confirm_tickets(&ctx(*u, 5), egld(TICKET_COST * (i as u128 + 1)), i + 1).unwrap();
    }

    let selection = ctx(OWNER, 10);
    let mut g = gas();
    assert_eq!(lp.distribute_guaranteed_tickets_endpoint(&selection, &mut g, [0u8; 32]).err(), Some(LaunchpadError::MustSelectBaseWinnersFirst));
    lp.base.filter_tickets(&selection, gas()).unwrap();
    assert_eq!(lp.base.select_winners(&selection, gas(), [0u8; 32]), Ok(OperationCompletionStatus::Completed));

    // with a zero seed tickets 1 and 2 win
    assert_eq!(lp.base.ticket_status.get(&1).copied(), Some(true));
    assert_eq!(lp.base.ticket_status.get(&2).copied(), Some(true));
    assert_eq!(lp.base.ticket_status.get(&3).copied().unwrap_or(false), false);
    assert_eq!(lp.base.ticket_status.get(&4).copied().unwrap_or(false), false);
    assert_eq!(lp.base.nr_winning_tickets, 2);

    let mut g = gas();
    assert_eq!(lp.distribute_guaranteed_tickets_endpoint(&selection, &mut g, [0u8; 32]), Ok(OperationCompletionStatus::Completed));

    // the third user now has ticket 4 as winning
    assert_eq!(lp.base.ticket_status.get(&4).copied(), Some(true));
    assert_eq!(lp.base.ticket_status.get(&5).copied().unwrap_or(false), false);
    assert_eq!(lp.base.ticket_status.get(&6).copied().unwrap_or(false), false);
    assert_eq!(lp.base.nr_winning_tickets, 3);
    let mut g = gas();
    assert_eq!(lp.distribute_guaranteed_tickets_endpoint(&selection, &mut g, [0u8; 32]).err(), Some(LaunchpadError::AlreadyDistributedTickets));

    // each user won one ticket: the launchpad tokens, and the other tickets paid back
    let mut refunds = Vec::new();
    for u in USERS {
        let (refund, tokens) = lp.claim_launchpad_tokens_endpoint(&ctx(u, 15)).unwrap();
        refunds.push(refund.map(|t| t.amount).unwrap_or(0));
        assert_eq!(tokens.unwrap().amount, LAUNCHPAD_TOKENS_PER_TICKET);
    }
    assert_eq!(refunds, vec![0, TICKET_COST, 2 * TICKET_COST]);
    assert_eq!(lp.claim_launchpad_tokens_endpoint(&ctx(USERS[0], 15)).err(), Some(LaunchpadError::AlreadyClaimedAllTokens));

    let transfers = lp.claim_ticket_payment_endpoint(&ctx(OWNER, 15)).unwrap();
    let paid: u128 = transfers.iter().filter(|t| t.token_id == b"EGLD".to_vec()).map(|t| t.amount).sum();
    assert_eq!(paid, 3 * TICKET_COST);
}

#[test]
fn unlock_schedules_are_validated() {
    let ok = UnlockSchedule::new(vec![
        UnlockMilestone { release_round: 10, percentage: 3_000 },
        UnlockMilestone { release_round: 20, percentage: 7_000 },
    ]);
    assert!(ok.validate(10));
    assert!(!ok.validate(11));
    let wrong_sum = UnlockSchedule::new(vec![UnlockMilestone { release_round: 10, percentage: 3_000 }]);
    assert!(!wrong_sum.validate(0));
    let wrong_order = UnlockSchedule::new(vec![
        UnlockMilestone { release_round: 30, percentage: 3_000 },
        UnlockMilestone { release_round: 20, percentage: 7_000 },
    ]);
    assert!(!wrong_order.validate(0));
    assert!(UnlockSchedule::default().validate(0));

    let mut lp = setup();
    assert_eq!(lp.set_unlock_schedule(&ctx(OWNER, 0), &vec![(30, 3_000), (20, 7_000)]).err(), Some(LaunchpadError::InvalidUnlockSchedule));
    assert_eq!(lp.set_unlock_schedule(&ctx(USERS[0], 0), &vec![(0, 10_000)]).err(), Some(LaunchpadError::OnlyOwner));
    assert_eq!(LaunchpadError::InvalidUnlockSchedule.message(), "Invalid unlock schedule");
}

#[test]
fn vesting_releases_tokens_by_milestone() {
    let mut lp = setup();
    lp.set_unlock_schedule(&ctx(OWNER, 0), &vec![(1, 2_500), (2, 7_500)]).unwrap();
    for (i, u) in USERS.iter().enumerate() {
        lp.base.confirm_tickets(&ctx(*u, 5), egld(TICKET_COST * (i as u128 + 1)), i + 1).unwrap();
    }
    let selection = ctx(OWNER, 10);
    lp.base.filter_tickets(&selection, gas()).unwrap();
    lp.base.select_winners(&selection, gas(), [0u8; 32]).unwrap();
    let mut g = gas();
    lp.distribute_guaranteed_tickets_endpoint(&selection, &mut g, [0u8; 32]).unwrap();

    // nothing is released before the first milestone's epoch
    let (_, tokens) = lp.claim_launchpad_tokens_endpoint(&ctx_at(USERS[0], 15, 0)).unwrap();
    assert!(tokens.is_none());
    let (_, tokens) = lp.claim_launchpad_tokens_endpoint(&ctx_at(USERS[0], 15, 1)).unwrap();
    assert_eq!(tokens.unwrap().amount, 25);
    assert_eq!(lp.compute_claimable_tokens(USERS[0], 1), Ok(0));
    assert_eq!(lp.compute_claimable_tokens(USERS[0], 2), Ok(75));
    let (_, tokens) = lp.claim_launchpad_tokens_endpoint(&ctx_at(USERS[0], 16, 2)).unwrap();
    assert_eq!(tokens.unwrap().amount, 75);
    assert_eq!(lp.get_user_claimed_balance(USERS[0]), 100);
    assert_eq!(lp.get_user_total_claimable_balance(USERS[0]), 100);
    // the schedule is set while tickets are added, and not after
    assert_eq!(
        lp.set_unlock_schedule(&ctx(OWNER, 5), &vec![(3, 10_000)]).err(),
        Some(LaunchpadError::AddTicketsPeriodPassed)
    );
}

#[test]
fn refund_winning_tickets_pays_users_and_returns_the_rest() {
    let mut lp = setup();
    lp.user_total_claimable_balance.insert(USERS[0], 200);
    lp.user_total_claimable_balance.insert(USERS[1], 100);
    let users = vec![USERS[0], USERS[1], USERS[2], USERS[0]];
    let transfers = lp.refund_winning_tickets(&ctx(OWNER, 20), &users, &egld(35)).unwrap();
    let paid: Vec<(u64, u128)> = transfers.iter().map(|t| (t.to, t.amount)).collect();
    // two tickets and one ticket at 10 each; the 5 left go back to the owner
    assert_eq!(paid, vec![(USERS[0], 20), (USERS[1], 10), (OWNER, 5)]);
    assert!(transfers.iter().all(|t| t.token_id == b"EGLD".to_vec() && t.token_nonce == 0));
    assert_eq!(lp.get_user_total_claimable_balance(USERS[0]), 0);
    assert_eq!(lp.get_user_total_claimable_balance(USERS[1]), 0);
}

#[test]
fn refund_winning_tickets_refusals() {
    let mut lp = setup();
    lp.user_total_claimable_balance.insert(USERS[0], 200);
    let users = vec![USERS[0]];
    assert_eq!(lp.refund_winning_tickets(&ctx(USERS[1], 20), &users, &egld(35)).err(), Some(LaunchpadError::OnlyOwner));
    let wrong = Payment { token_id: LAUNCHPAD_TOKEN_ID.to_vec(), token_nonce: 0, amount: 35 };
    assert_eq!(lp.refund_winning_tickets(&ctx(OWNER, 20), &users, &wrong).err(), Some(LaunchpadError::InvalidPaymentToken));
    assert_eq!(
        lp.refund_winning_tickets(&ctx(OWNER, 20), &users, &egld(19)).err(),
        Some(LaunchpadError::InsufficientFundsDeposited)
    );
    lp.user_claimed_balance.insert(USERS[0], 1);
    assert_eq!(lp.refund_winning_tickets(&ctx(OWNER, 20), &users, &egld(35)).err(), Some(LaunchpadError::UserAlreadyClaimedTokens));
    assert_eq!(lp.get_user_total_claimable_balance(USERS[0]), 200);
}

#[test]
fn claimable_tokens_never_fall_as_epochs_pass() {
    let mut lp = setup();
    lp.set_unlock_schedule(&ctx(OWNER, 0), &vec![(1, 2_500), (2, 7_500)]).unwrap();
    for (i, u) in USERS.iter().enumerate() {
        lp.base.confirm_tickets(&ctx(*u, 5), egld(TICKET_COST * (i as u128 + 1)), i + 1).unwrap();
    }
    let selection = ctx(OWNER, 10);
    lp.base.filter_tickets(&selection, gas()).unwrap();
    lp.base.select_winners(&selection, gas(), [0u8; 32]).unwrap();
    let mut g = gas();
    lp.distribute_guaranteed_tickets_endpoint(&selection, &mut g, [0u8; 32]).unwrap();

    // the first claim records what the user won; nothing is released yet
    let (_, tokens) = lp.claim_launchpad_tokens_endpoint(&ctx_at(USERS[0], 15, 0)).unwrap();
    assert!(tokens.is_none());
    let by_epoch: Vec<u128> = (0..5u64).map(|e| lp.compute_claimable_tokens(USERS[0], e).unwrap()).collect();
    assert_eq!(by_epoch, vec![0, 25, 100, 100, 100]);
    assert!(by_epoch.windows(2).all(|w| w[0] <= w[1]));
    // after a claim at epoch 1 the rest keeps growing up to what is left
    lp.claim_launchpad_tokens_endpoint(&ctx_at(USERS[0], 15, 1)).unwrap();
    let by_epoch: Vec<u128> = (1..5u64).map(|e| lp.compute_claimable_tokens(USERS[0], e).unwrap()).collect();
    assert_eq!(by_epoch, vec![0, 75, 75, 75]);
}

#[test]
fn blacklist_round_trip_restores_the_statuses() {
    let mut lp = setup();
    lp.base.confirm_tickets(&ctx(USERS[2], 5), egld(30), 3).unwrap();
    let winning = lp.base.nr_winning_tickets;
    let guaranteed = lp.total_guaranteed_tickets;
    let status = lp.user_ticket_status.get(&USERS[2]).map(|st| (st.total_tickets_allowance, st.guaranteed_tickets_info.clone()));
    assert_eq!(status, Some((3, vec![info(1, 3)])));
    lp.add_users_to_blacklist_endpoint(&ctx(OWNER, 5), &vec![USERS[2]]).unwrap();
    assert!(lp.user_ticket_status.get(&USERS[2]).is_none());
    assert!(lp.blacklist_user_ticket_status.get(&USERS[2]).is_some());
    lp.remove_guaranteed_users_from_blacklist_endpoint(&ctx(OWNER, 5), &vec![USERS[2]]).unwrap();
    assert_eq!(lp.base.nr_winning_tickets, winning);
    assert_eq!(lp.total_guaranteed_tickets, guaranteed);
    assert_eq!(lp.user_ticket_status.get(&USERS[2]).map(|st| (st.total_tickets_allowance, st.guaranteed_tickets_info.clone())), status);
    assert!(lp.blacklist_user_ticket_status.get(&USERS[2]).is_none());
    assert_eq!(lp.users_with_guaranteed_ticket, vec![USERS[2]]);
}
