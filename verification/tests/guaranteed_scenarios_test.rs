use std::collections::HashMap;

use launchpad::launchpad_common::config::{CallContext, Payment, Transfer};
use launchpad::launchpad_common::errors::LaunchpadError;
use launchpad::launchpad_common::launch_stage::Flags;
use launchpad::launchpad_common::launchpad_main::LaunchpadInitArgs;
use launchpad::launchpad_common::ongoing_operation::{GasBudget, OperationCompletionStatus};
use launchpad::launchpad_common::setup::SetupModule;
use launchpad::launchpad_common::user_interactions::UserInteractionsModule;
use launchpad::launchpad_common::winner_selection::WinnerSelectionModule;
use launchpad::launchpad_guaranteed_tickets_v2::contract::LaunchpadGuaranteedTickets;
use launchpad::launchpad_guaranteed_tickets_v2::guaranteed_ticket_winners::{
    GuaranteedTicketWinnersModule, GuaranteedTicketsSelectionOperation,
};
use launchpad::launchpad_guaranteed_tickets_v2::guaranteed_tickets_init::GuaranteedTicketsEntry;
use launchpad::launchpad_guaranteed_tickets_v2::state::GuaranteedTicketsLaunchpad;
use launchpad::launchpad_guaranteed_tickets_v2::token_release::TokenReleaseModule;

const LAUNCHPAD_TOKEN_ID: &[u8] = b"LAUNCH-123456";
const LAUNCHPAD_TOKENS_PER_TICKET: u128 = 100;
const CONFIRM_START_BLOCK: u64 = 5;
const WINNER_SELECTION_START_BLOCK: u64 = 10;
const CLAIM_START_BLOCK: u64 = 15;
const NR_LAUNCHPAD_PARTICIPANTS: usize = 3;
const NR_WINNING_TICKETS: usize = 3;
const MAX_TIER_TICKETS: usize = 3;
const TICKET_COST: u128 = 10;
const OWNER: u64 = 1;
const SC_ADDRESS: u64 = 0;
/// The chain's random seed in these scenarios: its first two draws are 66 and 6.
const SEED: [u8; 32] = [0, 0, 0, 66, 0, 0, 0, 6, 0, 0, 0, 0, 0, 0, 0, 0, 0, 0, 0, 0, 0, 0, 0, 0, 0, 0, 0, 0, 0, 0, 0, 0];

/// A launchpad with three participants holding 1, 2 and 3 tickets, the last one of them
/// guaranteed a winning ticket once all three are confirmed; the launchpad tokens of
/// all winning tickets deposited.  Balances are kept beside it, moved by the payments
/// that go in and the transfers that come out.
struct LaunchpadSetup {
    lp: GuaranteedTicketsLaunchpad,
    owner_address: u64,
    participants: Vec<u64>,
    block_nonce: u64,
    block_epoch: u64,
    next_address: u64,
    egld: HashMap<u64, u128>,
    esdt: HashMap<u64, u128>,
}

fn egld_payment(amount: u128) -> Payment {
    Payment { token_id: b"EGLD".to_vec(), token_nonce: 0, amount }
}

fn gas() -> GasBudget {
    GasBudget { gas_left: 1_000_000_000, gas_per_iteration: 1_000 }
}

impl LaunchpadSetup {
    fn new(nr_winning_tickets: usize) -> LaunchpadSetup {
        let mut egld = HashMap::new();
        let mut esdt = HashMap::new();
        let mut participants = Vec::new();
        for i in 0..NR_LAUNCHPAD_PARTICIPANTS {
            let addr = 10 + i as u64;
            egld.insert(addr, TICKET_COST * MAX_TIER_TICKETS as u128);
            participants.push(addr);
        }
        let total_launchpad_tokens = LAUNCHPAD_TOKENS_PER_TICKET * nr_winning_tickets as u128;
        esdt.insert(OWNER, total_launchpad_tokens);
        let ctx = CallContext { caller: OWNER, owner: OWNER, block_round: 0, block_nonce: 0, block_epoch: 0 };
        let args = LaunchpadInitArgs {
            launchpad_token_id: LAUNCHPAD_TOKEN_ID.to_vec(),
            launchpad_tokens_per_winning_ticket: LAUNCHPAD_TOKENS_PER_TICKET,
            ticket_payment_token: b"EGLD".to_vec(),
            ticket_price: TICKET_COST,
            nr_winning_tickets,
            confirmation_period_start_round: CONFIRM_START_BLOCK,
            winner_selection_start_round: WINNER_SELECTION_START_BLOCK,
            claim_start_round: CLAIM_START_BLOCK,
            flags: Flags::default(),
        };
        let mut lp = GuaranteedTicketsLaunchpad::init(&ctx, args).unwrap();

        // first user - 1 ticket, second user - 2 tickets, third user - 3 tickets and a guarantee
        let entries: Vec<GuaranteedTicketsEntry> = vec![
            (participants[0], 1, vec![]),
            (participants[1], 2, vec![]),
            (participants[2], 3, vec![(1, MAX_TIER_TICKETS)]),
        ];
        lp.add_tickets_endpoint(&ctx, &entries).unwrap();

        let deposit = Payment { token_id: LAUNCHPAD_TOKEN_ID.to_vec(), token_nonce: 0, amount: total_launchpad_tokens };
        lp.deposit_launchpad_tokens_endpoint(&ctx, &deposit).unwrap();
        esdt.insert(OWNER, 0);
        esdt.insert(SC_ADDRESS, total_launchpad_tokens);

        LaunchpadSetup { lp, owner_address: OWNER, participants, block_nonce: 0, block_epoch: 0, next_address: 100, egld, esdt }
    }

    fn ctx(&self, caller: u64) -> CallContext {
        CallContext {
            caller,
            owner: self.owner_address,
            block_round: self.block_nonce,
            block_nonce: self.block_nonce,
            block_epoch: self.block_epoch,
        }
    }

    fn set_block_nonce(&mut self, nonce: u64) {
        self.block_nonce = nonce;
    }

    fn set_block_epoch(&mut self, epoch: u64) {
        self.block_epoch = epoch;
    }

    fn pause_contract(&mut self) {
        self.lp.base.paused = true;
    }

    fn unpause_contract(&mut self) {
        self.lp.base.paused = false;
    }

    fn create_user_account(&mut self, egld_balance: u128) -> u64 {
        let addr = self.next_address;
        self.next_address += 1;
        self.egld.insert(addr, egld_balance);
        addr
    }

    fn egld_balance(&self, addr: u64) -> u128 {
        self.egld.get(&addr).copied().unwrap_or(0)
    }

    fn esdt_balance(&self, addr: u64) -> u128 {
        self.esdt.get(&addr).copied().unwrap_or(0)
    }

    fn receive(&mut self, transfer: &Transfer) {
        let book = if transfer.token_id == b"EGLD".to_vec() { &mut self.egld } else { &mut self.esdt };
        *book.entry(transfer.to).or_insert(0) += transfer.amount;
        *book.entry(SC_ADDRESS).or_insert(0) -= transfer.amount;
    }

    fn set_unlock_schedule(&mut self, unlock_milestones: Vec<(u64, u64)>) {
        self.try_set_unlock_schedule(unlock_milestones).unwrap();
    }

    fn try_set_unlock_schedule(&mut self, unlock_milestones: Vec<(u64, u64)>) -> Result<(), LaunchpadError> {
        let ctx = self.ctx(self.owner_address);
        self.lp.set_unlock_schedule(&ctx, &unlock_milestones).map(|_| ())
    }

    fn add_tickets(&mut self, entries: Vec<GuaranteedTicketsEntry>) -> Result<(), LaunchpadError> {
        let ctx = self.ctx(self.owner_address);
        self.lp.add_tickets_endpoint(&ctx, &entries).map(|_| ())
    }

    fn confirm(&mut self, caller: u64, nr_tickets: usize) -> Result<(), LaunchpadError> {
        let amount = TICKET_COST * nr_tickets as u128;
        let ctx = self.ctx(caller);
        self.lp.base.confirm_tickets(&ctx, egld_payment(amount), nr_tickets)?;
        *self.egld.entry(caller).or_insert(0) -= amount;
        *self.egld.entry(SC_ADDRESS).or_insert(0) += amount;
        Ok(())
    }

    fn filter_tickets(&mut self) -> Result<(), LaunchpadError> {
        let ctx = self.ctx(self.owner_address);
        let result = self.lp.base.filter_tickets(&ctx, gas())?;
        assert_eq!(result, OperationCompletionStatus::Completed);
        Ok(())
    }

    /// Marks the first tickets as the winners of the draw, as if the lottery had picked
    /// them: all winning tickets but the `nr_guaranteed` kept for the guarantees.
    fn select_base_winners_mock(&mut self, nr_guaranteed: usize) -> Result<(), LaunchpadError> {
        let base_winning = NR_WINNING_TICKETS - nr_guaranteed;
        for ticket_id in 1..=base_winning {
            self.lp.base.ticket_status.insert(ticket_id, true);
        }
        self.lp.base.claimable_ticket_payment = TICKET_COST * base_winning as u128;
        self.lp.base.flags = Flags {
            were_tickets_filtered: true,
            has_winner_selection_process_started: true,
            were_winners_selected: true,
            was_additional_step_completed: false,
        };
        Ok(())
    }

    fn select_winners(&mut self) -> Result<(), LaunchpadError> {
        let ctx = self.ctx(self.owner_address);
        let result = self.lp.base.select_winners(&ctx, gas(), SEED)?;
        assert_eq!(result, OperationCompletionStatus::Completed);
        Ok(())
    }

    fn distribute_tickets(&mut self) -> Result<(), LaunchpadError> {
        let ctx = self.ctx(self.owner_address);
        let mut budget = gas();
        let result = self.lp.distribute_guaranteed_tickets_endpoint(&ctx, &mut budget, SEED)?;
        assert_eq!(result, OperationCompletionStatus::Completed);
        Ok(())
    }

    fn claim_user(&mut self, user: u64) -> Result<(), LaunchpadError> {
        let ctx = self.ctx(user);
        let (refund, tokens) = self.lp.claim_launchpad_tokens_endpoint(&ctx)?;
        for t in refund.iter().chain(tokens.iter()) {
            self.receive(t);
        }
        Ok(())
    }

    fn claim_owner(&mut self) -> Result<(), LaunchpadError> {
        let ctx = self.ctx(self.owner_address);
        let transfers = self.lp.claim_ticket_payment_endpoint(&ctx)?;
        for t in transfers.iter() {
            self.receive(t);
        }
        Ok(())
    }

    fn ticket_status(&self, ticket_id: usize) -> bool {
        self.lp.base.ticket_status.get(&ticket_id).copied().unwrap_or(false)
    }

    fn winning_tickets_of(&self, user: u64) -> usize {
        self.lp.base.get_number_of_winning_tickets_for_address(user)
    }
}

#[test]
fn guaranteed_tickets_test_init_test() {
    let _ = LaunchpadSetup::new(NR_WINNING_TICKETS);
}

#[test]
fn confirm_all_test() {
    let mut lp_setup = LaunchpadSetup::new(NR_WINNING_TICKETS);
    lp_setup.set_unlock_schedule(vec![(0, 10000)]);
    lp_setup.set_block_nonce(CONFIRM_START_BLOCK);
    let participants = lp_setup.participants.clone();

    for (i, p) in participants.iter().enumerate() {
        lp_setup.confirm(*p, i + 1).unwrap();
    }

    lp_setup.set_block_nonce(WINNER_SELECTION_START_BLOCK);

    lp_setup.filter_tickets().unwrap();
    lp_setup.select_base_winners_mock(1).unwrap();

    assert_eq!(lp_setup.ticket_status(1), true);
    assert_eq!(lp_setup.ticket_status(2), true);
    assert_eq!(lp_setup.ticket_status(3), false);
    assert_eq!(lp_setup.ticket_status(4), false);
    assert_eq!(lp_setup.ticket_status(5), false);
    assert_eq!(lp_setup.ticket_status(6), false);
    assert_eq!(lp_setup.winning_tickets_of(participants[0]), 1);
    assert_eq!(lp_setup.winning_tickets_of(participants[1]), 1);
    assert_eq!(lp_setup.winning_tickets_of(participants[2]), 0);
    assert_eq!(lp_setup.lp.base.nr_winning_tickets, NR_WINNING_TICKETS - 1);

    lp_setup.distribute_tickets().unwrap();

    // third user now has ticket with ID 4 as winning
    assert_eq!(lp_setup.ticket_status(1), true);
    assert_eq!(lp_setup.ticket_status(2), true);
    assert_eq!(lp_setup.ticket_status(3), false);
    assert_eq!(lp_setup.ticket_status(4), true);
    assert_eq!(lp_setup.ticket_status(5), false);
    assert_eq!(lp_setup.ticket_status(6), false);
    assert_eq!(lp_setup.winning_tickets_of(participants[0]), 1);
    assert_eq!(lp_setup.winning_tickets_of(participants[1]), 1);
    assert_eq!(lp_setup.winning_tickets_of(participants[2]), 1);
    assert_eq!(lp_setup.lp.base.nr_winning_tickets, NR_WINNING_TICKETS);

    lp_setup.set_block_nonce(CLAIM_START_BLOCK);

    // check balances before
    let base_user_balance = TICKET_COST * MAX_TIER_TICKETS as u128;
    for (i, p) in participants.iter().enumerate() {
        let ticket_payment = (i as u128 + 1) * TICKET_COST;
        assert_eq!(lp_setup.egld_balance(*p), base_user_balance - ticket_payment);
        assert_eq!(lp_setup.esdt_balance(*p), 0);
    }
    assert_eq!(lp_setup.egld_balance(lp_setup.owner_address), 0);

    // claim
    for p in participants.iter() {
        lp_setup.claim_user(*p).unwrap();
    }
    lp_setup.claim_owner().unwrap();

    // check balances after: each user won 1 ticket
    for p in participants.iter() {
        assert_eq!(lp_setup.egld_balance(*p), base_user_balance - TICKET_COST);
        assert_eq!(lp_setup.esdt_balance(*p), LAUNCHPAD_TOKENS_PER_TICKET);
    }
    assert_eq!(lp_setup.egld_balance(lp_setup.owner_address), TICKET_COST * 3);
}

#[test]
fn redistribute_test() {
    let mut lp_setup = LaunchpadSetup::new(NR_WINNING_TICKETS);
    lp_setup.set_block_nonce(CONFIRM_START_BLOCK);
    let participants = lp_setup.participants.clone();

    lp_setup.confirm(participants[0], 1).unwrap();
    lp_setup.confirm(participants[1], 2).unwrap();
    lp_setup.confirm(participants[2], 2).unwrap();

    lp_setup.set_block_nonce(WINNER_SELECTION_START_BLOCK);

    lp_setup.filter_tickets().unwrap();
    lp_setup.select_base_winners_mock(1).unwrap();

    assert_eq!(lp_setup.ticket_status(1), true);
    assert_eq!(lp_setup.ticket_status(2), true);
    assert_eq!(lp_setup.ticket_status(3), false);
    assert_eq!(lp_setup.ticket_status(4), false);
    assert_eq!(lp_setup.ticket_status(5), false);
    assert_eq!(lp_setup.winning_tickets_of(participants[0]), 1);
    assert_eq!(lp_setup.winning_tickets_of(participants[1]), 1);
    assert_eq!(lp_setup.winning_tickets_of(participants[2]), 0);
    assert_eq!(lp_setup.lp.base.nr_winning_tickets, NR_WINNING_TICKETS - 1);
    assert_eq!(lp_setup.lp.users_with_guaranteed_ticket.len(), 1);

    lp_setup.distribute_tickets().unwrap();

    // distribute leftover selected ticket ID 3 as winning
    assert_eq!(lp_setup.ticket_status(1), true);
    assert_eq!(lp_setup.ticket_status(2), true);
    assert_eq!(lp_setup.ticket_status(3), true);
    assert_eq!(lp_setup.ticket_status(4), false);
    assert_eq!(lp_setup.ticket_status(5), false);
    assert_eq!(lp_setup.winning_tickets_of(participants[0]), 1);
    assert_eq!(lp_setup.winning_tickets_of(participants[1]), 2);
    assert_eq!(lp_setup.winning_tickets_of(participants[2]), 0);
    assert_eq!(lp_setup.lp.base.nr_winning_tickets, NR_WINNING_TICKETS);
    assert_eq!(lp_setup.lp.users_with_guaranteed_ticket.len(), 0);
}

#[test]
fn combined_scenario_test() {
    let mut lp_setup = LaunchpadSetup::new(NR_WINNING_TICKETS);
    let mut participants = lp_setup.participants.clone();

    let new_participant = lp_setup.create_user_account(TICKET_COST * MAX_TIER_TICKETS as u128);
    participants.push(new_participant);
    let second_new_participant = lp_setup.create_user_account(TICKET_COST);
    participants.push(second_new_participant);

    // add another "whale"
    lp_setup.set_block_nonce(CONFIRM_START_BLOCK - 1);
    lp_setup
        .add_tickets(vec![(new_participant, MAX_TIER_TICKETS, vec![(1, 3)]), (second_new_participant, 1, vec![])])
        .unwrap();

    lp_setup.set_block_nonce(CONFIRM_START_BLOCK);

    // user[0] and user[1] will not confirm, so they get filtered
    lp_setup.confirm(participants[2], 3).unwrap();
    lp_setup.confirm(participants[3], 3).unwrap();
    lp_setup.confirm(participants[4], 1).unwrap();

    lp_setup.set_block_nonce(WINNER_SELECTION_START_BLOCK);

    lp_setup.filter_tickets().unwrap();
    lp_setup.select_base_winners_mock(2).unwrap();

    assert_eq!(lp_setup.ticket_status(1), true);
    for id in 2..=7 {
        assert_eq!(lp_setup.ticket_status(id), false);
    }
    assert_eq!(lp_setup.lp.base.nr_winning_tickets, NR_WINNING_TICKETS - 2);
    assert_eq!(lp_setup.lp.users_with_guaranteed_ticket.len(), 2);

    // distribute by steps, to isolate each step's effect
    let mut op = GuaranteedTicketsSelectionOperation::default(SEED);
    let mut budget = gas();

    // first step
    lp_setup.lp.select_guaranteed_tickets(&mut op, &mut budget).unwrap();

    // user[3]'s first ticket was selected
    assert_eq!(lp_setup.ticket_status(1), true);
    assert_eq!(lp_setup.ticket_status(2), false);
    assert_eq!(lp_setup.ticket_status(3), false);
    assert_eq!(lp_setup.ticket_status(4), true);
    assert_eq!(lp_setup.ticket_status(5), false);
    assert_eq!(lp_setup.ticket_status(6), false);
    assert_eq!(lp_setup.ticket_status(7), false);
    assert_eq!(op.leftover_tickets, 1);
    assert_eq!(op.total_additional_winning_tickets, 1);
    assert_eq!(op.leftover_ticket_pos_offset, 1);

    // second step
    let mut budget = gas();
    lp_setup.lp.distribute_leftover_tickets(&mut op, &mut budget).unwrap();

    // ticket ID 2 was selected as winner
    assert_eq!(lp_setup.ticket_status(1), true);
    assert_eq!(lp_setup.ticket_status(2), true);
    assert_eq!(lp_setup.ticket_status(3), false);
    assert_eq!(lp_setup.ticket_status(4), true);
    assert_eq!(lp_setup.ticket_status(5), false);
    assert_eq!(lp_setup.ticket_status(6), false);
    assert_eq!(lp_setup.ticket_status(7), false);
    assert_eq!(op.leftover_tickets, 0);
    assert_eq!(op.total_additional_winning_tickets, 2);
    assert_eq!(op.leftover_ticket_pos_offset, 2);
    assert_eq!(lp_setup.lp.users_with_guaranteed_ticket.len(), 0);
}

/// Two more users with guarantees: one ticket, guaranteed once it is confirmed, and six
/// tickets, two of them guaranteed once three are confirmed.
fn migration_setup(nr_winning_tickets: usize) -> (LaunchpadSetup, Vec<u64>) {
    let mut lp_setup = LaunchpadSetup::new(nr_winning_tickets);
    lp_setup.set_unlock_schedule(vec![(0, 10000)]);
    let mut participants = lp_setup.participants.clone();

    let new_participant = lp_setup.create_user_account(TICKET_COST * MAX_TIER_TICKETS as u128);
    participants.push(new_participant);
    let second_new_participant = lp_setup.create_user_account(TICKET_COST * MAX_TIER_TICKETS as u128 * 2);
    participants.push(second_new_participant);

    // add 2 new users with migration guaranteed tickets
    lp_setup.set_block_nonce(CONFIRM_START_BLOCK - 1);
    lp_setup
        .add_tickets(vec![
            (new_participant, 1, vec![(1, 1)]),
            (second_new_participant, MAX_TIER_TICKETS * 2, vec![(2, 3)]),
        ])
        .unwrap();

    lp_setup.set_block_nonce(CONFIRM_START_BLOCK);

    // user[0] and user[1] will not confirm, so they get filtered
    // user[3] confirms only 1 from maximum of 2 allowed tickets - should win by migration guaranteed
    lp_setup.confirm(participants[2], 3).unwrap();
    lp_setup.confirm(participants[3], 1).unwrap();
    lp_setup.confirm(participants[4], 6).unwrap();

    lp_setup.set_block_nonce(WINNER_SELECTION_START_BLOCK);

    lp_setup.filter_tickets().unwrap();
    lp_setup.select_base_winners_mock(2).unwrap();
    (lp_setup, participants)
}

#[test]
fn add_migration_guaranteed_tickets_distribution_isolated_steps_scenario_test() {
    let nr_random_tickets = 1;
    let nr_staking_guaranteed_tickets = 2;
    let nr_migration_guaranteed_tickets = 2;
    let nr_winning_tickets = nr_random_tickets + nr_staking_guaranteed_tickets + nr_migration_guaranteed_tickets;
    let (mut lp_setup, participants) = migration_setup(nr_winning_tickets);

    assert_eq!(lp_setup.ticket_status(1), true);
    for id in 2..=10 {
        assert_eq!(lp_setup.ticket_status(id), false);
    }
    assert_eq!(
        lp_setup.lp.base.nr_winning_tickets,
        nr_winning_tickets - nr_staking_guaranteed_tickets - nr_migration_guaranteed_tickets
    );
    // 1 user with 1 staking guaranteed ticket
    // 1 user with 2 guaranteed tickets (1 staking + 1 migration)
    // 1 user with 1 migration guaranteed ticket
    assert_eq!(lp_setup.lp.users_with_guaranteed_ticket.len(), 3);

    // distribute by steps, to isolate each step's effect
    let mut op = GuaranteedTicketsSelectionOperation::default(SEED);
    let mut budget = gas();

    // first step
    lp_setup.lp.select_guaranteed_tickets(&mut op, &mut budget).unwrap();

    assert_eq!(lp_setup.ticket_status(1), true); // randomly selected -> leftover_ticket
    assert_eq!(lp_setup.ticket_status(2), false);
    assert_eq!(lp_setup.ticket_status(3), false);
    assert_eq!(lp_setup.ticket_status(4), true); // migration guaranteed ticket -> additional_winning_tickets
    assert_eq!(lp_setup.ticket_status(5), true); // staking guaranteed ticket -> additional_winning_tickets
    assert_eq!(lp_setup.ticket_status(6), true); // migration guaranteed ticket -> additional_winning_tickets
    assert_eq!(lp_setup.ticket_status(7), false);
    assert_eq!(lp_setup.ticket_status(8), false);
    assert_eq!(lp_setup.ticket_status(9), false);
    assert_eq!(lp_setup.ticket_status(10), false);
    assert_eq!(op.leftover_tickets, 1);
    assert_eq!(op.total_additional_winning_tickets, 3);
    assert_eq!(op.leftover_ticket_pos_offset, 1);

    // second step
    let mut budget = gas();
    lp_setup.lp.distribute_leftover_tickets(&mut op, &mut budget).unwrap();

    assert_eq!(lp_setup.ticket_status(1), true);
    assert_eq!(lp_setup.ticket_status(2), false);
    assert_eq!(lp_setup.ticket_status(3), false);
    assert_eq!(lp_setup.ticket_status(4), true);
    assert_eq!(lp_setup.ticket_status(5), true);
    assert_eq!(lp_setup.ticket_status(6), true);
    assert_eq!(lp_setup.ticket_status(7), false);
    assert_eq!(lp_setup.ticket_status(8), false);
    assert_eq!(lp_setup.ticket_status(9), true); // randomly selected in distribute_leftover_tickets
    assert_eq!(lp_setup.ticket_status(10), false);
    assert_eq!(op.leftover_tickets, 0);
    assert_eq!(op.total_additional_winning_tickets, 4);
    assert_eq!(op.leftover_ticket_pos_offset, 3);
    assert_eq!(lp_setup.lp.users_with_guaranteed_ticket.len(), 0);

    lp_setup.distribute_tickets().unwrap();

    lp_setup.set_block_nonce(CLAIM_START_BLOCK);

    // Check user balance after winning 1 of 3 tickets
    lp_setup.claim_user(participants[2]).unwrap();

    // 2 tickets were refunded
    assert_eq!(lp_setup.egld_balance(participants[2]), 2 * TICKET_COST);

    // 1 ticket was won
    assert_eq!(lp_setup.esdt_balance(participants[2]), LAUNCHPAD_TOKENS_PER_TICKET);
}

#[test]
fn add_migration_guaranteed_tickets_distribution_and_claim_scenario_test() {
    let nr_random_tickets = 1;
    let nr_staking_guaranteed_tickets = 2;
    let nr_migration_guaranteed_tickets = 2;
    let nr_winning_tickets = nr_random_tickets + nr_staking_guaranteed_tickets + nr_migration_guaranteed_tickets;
    let (mut lp_setup, participants) = migration_setup(nr_winning_tickets);

    // distribute guaranteed tickets
    lp_setup.distribute_tickets().unwrap();

    lp_setup.set_block_nonce(CLAIM_START_BLOCK);

    // check EGLD balances of participants before they claim
    let base_user_balance = TICKET_COST * MAX_TIER_TICKETS as u128;
    assert_eq!(lp_setup.egld_balance(participants[0]), base_user_balance);
    assert_eq!(lp_setup.egld_balance(participants[1]), base_user_balance);
    assert_eq!(lp_setup.egld_balance(participants[2]), base_user_balance - TICKET_COST * 3);
    assert_eq!(lp_setup.egld_balance(participants[3]), base_user_balance - TICKET_COST);
    assert_eq!(lp_setup.egld_balance(participants[4]), base_user_balance * 2 - TICKET_COST * 6);

    // check launchpad tokens balances of participants before they claim
    for p in participants.iter() {
        assert_eq!(lp_setup.esdt_balance(*p), 0);
    }

    // check EGLD and launchpad token balance for the owner before users claim
    assert_eq!(lp_setup.egld_balance(lp_setup.owner_address), 0);
    assert_eq!(lp_setup.esdt_balance(lp_setup.owner_address), 0);

    // 1st and 2nd participants have not confirmed anything. So they should not be able to claim anything.
    assert_eq!(lp_setup.claim_user(participants[0]).err().map(|e| e.message()), Some("You have no tickets"));
    assert_eq!(lp_setup.claim_user(participants[1]).err().map(|e| e.message()), Some("You have no tickets"));

    // 3rd participant claims.
    lp_setup.claim_user(participants[2]).unwrap();

    // Out of 3 confirmed tickets, 1 was won, and 2 were refunded.
    assert_eq!(lp_setup.egld_balance(participants[2]), 2 * TICKET_COST);
    assert_eq!(lp_setup.esdt_balance(participants[2]), LAUNCHPAD_TOKENS_PER_TICKET);

    // 4th participant claims
    lp_setup.claim_user(participants[3]).unwrap();

    // Out of 1 confirmed ticket, 1 was won.
    assert_eq!(lp_setup.egld_balance(participants[3]), 2 * TICKET_COST);
    assert_eq!(lp_setup.esdt_balance(participants[3]), LAUNCHPAD_TOKENS_PER_TICKET);

    //5th participant claims
    lp_setup.claim_user(participants[4]).unwrap();

    // Out of 6 confirmed tickets, 3 are winning, 3 are refunded.
    assert_eq!(lp_setup.egld_balance(participants[4]), 3 * TICKET_COST);
    assert_eq!(lp_setup.esdt_balance(participants[4]), 3 * LAUNCHPAD_TOKENS_PER_TICKET);

    // Owner claims. All nr_winning_tickets are sold for EGLD. No launchpad tokens refunded.
    lp_setup.claim_owner().unwrap();

    assert_eq!(lp_setup.egld_balance(lp_setup.owner_address), TICKET_COST * nr_winning_tickets as u128);
    assert_eq!(lp_setup.esdt_balance(lp_setup.owner_address), 0);
}

#[test]
fn condition_checks_test() {
    let nr_random_tickets = 1;
    let nr_staking_guaranteed_tickets = 1;
    let nr_migration_guaranteed_tickets = 1;
    let nr_winning_tickets = nr_random_tickets + nr_staking_guaranteed_tickets + nr_migration_guaranteed_tickets;
    let mut lp_setup = LaunchpadSetup::new(nr_winning_tickets);
    lp_setup.set_unlock_schedule(vec![(0, 10000)]);
    let mut participants = lp_setup.participants.clone();

    let new_participant = lp_setup.create_user_account(TICKET_COST * MAX_TIER_TICKETS as u128);
    participants.push(new_participant);

    // Check error - add tickets for user twice
    lp_setup.set_block_nonce(CONFIRM_START_BLOCK - 1);
    lp_setup.add_tickets(vec![(new_participant, 1, vec![(1, 1)])]).unwrap();
    assert_eq!(
        lp_setup.add_tickets(vec![(new_participant, 1, vec![(1, 1)])]).err().map(|e| e.message()),
        Some("Duplicate entry for user")
    );

    // Check error - add tickets after allowed period
    lp_setup.set_block_nonce(CONFIRM_START_BLOCK + 1); // -> Confirm phase
    assert_eq!(
        lp_setup.add_tickets(vec![(new_participant, 1, vec![(1, 1)])]).err().map(|e| e.message()),
        Some("Add tickets period has passed")
    );

    // Check error - update launchpad parameters after add ticket phase
    let ctx = lp_setup.ctx(lp_setup.owner_address);
    assert_eq!(
        lp_setup.lp.base.set_ticket_price(&ctx, b"EGLD".to_vec(), TICKET_COST).err().map(|e| e.message()),
        Some("Add tickets period has passed")
    );

    lp_setup.set_block_nonce(CONFIRM_START_BLOCK);

    // User 0 confirms with 0 tickets - the flow should still work
    lp_setup.confirm(participants[0], 0).unwrap();

    lp_setup.confirm(participants[2], 3).unwrap();
    lp_setup.confirm(participants[3], 1).unwrap();

    lp_setup.set_block_nonce(WINNER_SELECTION_START_BLOCK);

    lp_setup.filter_tickets().unwrap();

    assert_eq!(lp_setup.claim_user(participants[3]).err().map(|e| e.message()), Some("Not in claim period"));

    lp_setup.select_base_winners_mock(2).unwrap();

    lp_setup.distribute_tickets().unwrap();

    // Check error - user claim twice
    lp_setup.set_block_nonce(CLAIM_START_BLOCK);
    lp_setup.claim_user(participants[3]).unwrap();

    assert_eq!(lp_setup.claim_user(participants[3]).err().map(|e| e.message()), Some("Already claimed all tokens"));

    // Check user balance after winning 2 of 3 tickets
    lp_setup.claim_user(participants[2]).unwrap();

    // 1 ticket was refunded
    assert_eq!(lp_setup.egld_balance(participants[2]), TICKET_COST);

    // 2 tickets were won
    assert_eq!(lp_setup.esdt_balance(participants[2]), 2 * LAUNCHPAD_TOKENS_PER_TICKET);

    // Check owner claim and balance (before and after)
    assert_eq!(lp_setup.egld_balance(lp_setup.owner_address), 0);

    lp_setup.claim_owner().unwrap();

    assert_eq!(lp_setup.egld_balance(lp_setup.owner_address), TICKET_COST * nr_winning_tickets as u128);
}

#[test]
fn blacklist_scenario_test() {
    let nr_random_tickets = 1;
    let nr_staking_guaranteed_tickets = 1;
    let nr_migration_guaranteed_tickets = 2;
    let nr_winning_tickets = nr_random_tickets + nr_staking_guaranteed_tickets + nr_migration_guaranteed_tickets;
    let mut lp_setup = LaunchpadSetup::new(nr_winning_tickets);
    lp_setup.set_unlock_schedule(vec![(0, 10000)]);
    let mut participants = lp_setup.participants.clone();

    let new_participant = lp_setup.create_user_account(TICKET_COST * MAX_TIER_TICKETS as u128);
    participants.push(new_participant);

    let second_new_participant_tickets: u128 = 2;
    let second_new_participant_egld_balance = TICKET_COST * second_new_participant_tickets;
    let second_new_participant = lp_setup.create_user_account(second_new_participant_egld_balance);
    participants.push(second_new_participant);

    // add 2 new users with migration guaranteed tickets
    // second_new_participant will be blacklisted
    lp_setup.set_block_nonce(CONFIRM_START_BLOCK - 1);
    lp_setup
        .add_tickets(vec![(new_participant, 1, vec![(1, 1)]), (second_new_participant, 2, vec![(1, 1)])])
        .unwrap();

    lp_setup.set_block_nonce(CONFIRM_START_BLOCK);

    lp_setup.confirm(participants[2], 3).unwrap();
    lp_setup.confirm(participants[3], 1).unwrap();

    assert_eq!(lp_setup.egld_balance(second_new_participant), second_new_participant_egld_balance);
    lp_setup.confirm(second_new_participant, second_new_participant_tickets as usize).unwrap();
    assert_eq!(
        lp_setup.egld_balance(second_new_participant),
        second_new_participant_egld_balance - second_new_participant_tickets * TICKET_COST
    );

    // Check error - unauthorized endpoint call
    let ctx = lp_setup.ctx(new_participant);
    assert_eq!(
        lp_setup.lp.add_users_to_blacklist_endpoint(&ctx, &vec![participants[4]]).err().map(|e| e.message()),
        Some("Permission denied")
    );

    // Before blacklist
    let no_users_with_guaranteed_tickets = 3;
    assert_eq!(
        lp_setup.lp.base.nr_winning_tickets,
        nr_winning_tickets - nr_staking_guaranteed_tickets - nr_migration_guaranteed_tickets
    );
    assert_eq!(lp_setup.lp.total_guaranteed_tickets, nr_staking_guaranteed_tickets + nr_migration_guaranteed_tickets);
    assert_eq!(lp_setup.lp.users_with_guaranteed_ticket.len(), no_users_with_guaranteed_tickets);

    // Blacklist second_new_participant
    let ctx = lp_setup.ctx(lp_setup.owner_address);
    let refunds = lp_setup.lp.add_users_to_blacklist_endpoint(&ctx, &vec![second_new_participant]).unwrap();
    for t in refunds.iter() {
        lp_setup.receive(t);
    }

    // User gets his payment tokens back
    assert_eq!(lp_setup.egld_balance(second_new_participant), second_new_participant_egld_balance);

    // After blacklist
    let blacklisted_user_guaranteed_tickets = 1;
    assert_eq!(
        lp_setup.lp.base.nr_winning_tickets,
        nr_winning_tickets - nr_staking_guaranteed_tickets - nr_migration_guaranteed_tickets
            + blacklisted_user_guaranteed_tickets
    );
    assert_eq!(
        lp_setup.lp.total_guaranteed_tickets,
        nr_staking_guaranteed_tickets + nr_migration_guaranteed_tickets - blacklisted_user_guaranteed_tickets
    );
    assert_eq!(
        lp_setup.lp.users_with_guaranteed_ticket.len(),
        no_users_with_guaranteed_tickets - blacklisted_user_guaranteed_tickets
    );

    // Check error - Blacklist user tries to confirm his tickets again, while being blacklisted
    assert_eq!(
        lp_setup.confirm(second_new_participant, 2).err().map(|e| e.message()),
        Some("You have been put into the blacklist and may not confirm tickets")
    );

    // Check error - unauthorized endpoint call
    let ctx = lp_setup.ctx(new_participant);
    assert_eq!(
        lp_setup
            .lp
            .remove_guaranteed_users_from_blacklist_endpoint(&ctx, &vec![second_new_participant])
            .err()
            .map(|e| e.message()),
        Some("Permission denied")
    );

    // Remove second_new_participant from blacklist
    let ctx = lp_setup.ctx(lp_setup.owner_address);
    lp_setup.lp.remove_guaranteed_users_from_blacklist_endpoint(&ctx, &vec![second_new_participant]).unwrap();

    // User tries to confirm his tickets after he is removed from blacklist
    lp_setup.confirm(second_new_participant, 2).unwrap();

    lp_setup.set_block_nonce(WINNER_SELECTION_START_BLOCK);

    // Check error - try to blacklist user again, in the winner selection phase
    let ctx = lp_setup.ctx(lp_setup.owner_address);
    assert_eq!(
        lp_setup.lp.add_users_to_blacklist_endpoint(&ctx, &vec![second_new_participant]).err().map(|e| e.message()),
        Some("May only modify blacklist before winner selection")
    );

    lp_setup.filter_tickets().unwrap();
    lp_setup.select_base_winners_mock(2).unwrap();

    assert_eq!(lp_setup.ticket_status(1), true);
    for id in 2..=7 {
        assert_eq!(lp_setup.ticket_status(id), false);
    }
    assert_eq!(lp_setup.lp.users_with_guaranteed_ticket.len(), 3);

    lp_setup.distribute_tickets().unwrap();

    assert_eq!(lp_setup.ticket_status(1), true);
    assert_eq!(lp_setup.ticket_status(2), false);
    assert_eq!(lp_setup.ticket_status(3), true);
    assert_eq!(lp_setup.ticket_status(4), true);
    assert_eq!(lp_setup.ticket_status(5), true);
    assert_eq!(lp_setup.ticket_status(6), false);
    assert_eq!(lp_setup.lp.users_with_guaranteed_ticket.len(), 0);

    // Check user balance after he wins only 1 ticket
    lp_setup.set_block_nonce(CLAIM_START_BLOCK);
    lp_setup.claim_user(second_new_participant).unwrap();

    assert_eq!(lp_setup.egld_balance(second_new_participant), second_new_participant_egld_balance - TICKET_COST);
    assert_eq!(lp_setup.esdt_balance(second_new_participant), LAUNCHPAD_TOKENS_PER_TICKET);
}


#[test]
fn confirm_less_tickets_than_total_available_with_vesting_scenario_test() {
    let nr_random_tickets = 1;
    let nr_staking_guaranteed_tickets = 1;
    let nr_migration_guaranteed_tickets = 1;
    let nr_winning_tickets = nr_random_tickets + nr_staking_guaranteed_tickets + nr_migration_guaranteed_tickets;
    let mut lp_setup = LaunchpadSetup::new(nr_winning_tickets);
    lp_setup.set_unlock_schedule(vec![(0, 5000), (1, 5000)]);

    lp_setup.set_block_nonce(CONFIRM_START_BLOCK);

    let mut participants = lp_setup.participants.clone();

    let new_participant = lp_setup.create_user_account(TICKET_COST * MAX_TIER_TICKETS as u128);
    participants.push(new_participant);

    lp_setup.set_block_nonce(CONFIRM_START_BLOCK - 1);
    lp_setup.add_tickets(vec![(new_participant, 1, vec![(1, 1)])]).unwrap();

    lp_setup.set_block_nonce(CONFIRM_START_BLOCK);

    lp_setup.confirm(participants[3], 1).unwrap();

    lp_setup.set_block_nonce(WINNER_SELECTION_START_BLOCK);

    lp_setup.filter_tickets().unwrap();
    lp_setup.select_base_winners_mock(2).unwrap();
    lp_setup.distribute_tickets().unwrap();

    lp_setup.set_block_nonce(CLAIM_START_BLOCK);

    // Check user balance after winning 1 ticket
    lp_setup.claim_user(participants[3]).unwrap();

    // 1 ticket was won; half of the tokens are vested
    assert_eq!(lp_setup.esdt_balance(participants[3]), LAUNCHPAD_TOKENS_PER_TICKET / 2);

    // Check owner claim and balance (before and after)
    // only 1 ticket was confirmed and won
    let actual_winning_tickets = 1;
    assert_eq!(lp_setup.egld_balance(lp_setup.owner_address), 0);
    assert_eq!(lp_setup.esdt_balance(lp_setup.owner_address), 0);

    lp_setup.claim_owner().unwrap();

    assert_eq!(lp_setup.egld_balance(lp_setup.owner_address), TICKET_COST * actual_winning_tickets as u128);
    assert_eq!(
        lp_setup.esdt_balance(lp_setup.owner_address),
        (nr_winning_tickets - actual_winning_tickets) as u128 * LAUNCHPAD_TOKENS_PER_TICKET
    );

    // Check if SC funds are 0 after all tokens were claimed
    assert_eq!(lp_setup.egld_balance(SC_ADDRESS), 0);

    // SC should still hold the vesting tokens
    assert_eq!(lp_setup.esdt_balance(SC_ADDRESS), LAUNCHPAD_TOKENS_PER_TICKET / 2);

    // Try to claim owner once more
    lp_setup.claim_owner().unwrap();

    // SC should, again, still hold the vesting tokens
    assert_eq!(lp_setup.esdt_balance(SC_ADDRESS), LAUNCHPAD_TOKENS_PER_TICKET / 2);

    // Claim the rest of the tokens, one epoch later
    lp_setup.set_block_epoch(1);
    lp_setup.claim_user(participants[3]).unwrap();

    // User should have all the tokens at this point
    assert_eq!(lp_setup.esdt_balance(participants[3]), LAUNCHPAD_TOKENS_PER_TICKET);

    // The user has already claimed all tokens
    assert_eq!(lp_setup.claim_user(participants[3]).err().map(|e| e.message()), Some("Already claimed all tokens"));

    // Check if SC funds are 0 after all tokens were claimed
    assert_eq!(lp_setup.egld_balance(SC_ADDRESS), 0);
    assert_eq!(lp_setup.esdt_balance(SC_ADDRESS), 0);
}

#[test]
fn vesting_with_four_milestones_test() {
    let nr_winning_tickets = 1;
    let mut lp_setup = LaunchpadSetup::new(nr_winning_tickets);

    lp_setup.set_unlock_schedule(vec![(0, 2500), (1, 2500), (2, 2500), (3, 2500)]);
    let participant = lp_setup.participants[0];

    lp_setup.set_block_nonce(CONFIRM_START_BLOCK);
    lp_setup.confirm(participant, 1).unwrap();

    lp_setup.set_block_nonce(WINNER_SELECTION_START_BLOCK);
    lp_setup.filter_tickets().unwrap();
    lp_setup.select_base_winners_mock(1).unwrap();
    lp_setup.distribute_tickets().unwrap();

    lp_setup.set_block_nonce(CLAIM_START_BLOCK);
    lp_setup.set_block_epoch(0);

    // First claim (25%)
    lp_setup.claim_user(participant).unwrap();
    assert_eq!(lp_setup.esdt_balance(participant), LAUNCHPAD_TOKENS_PER_TICKET / 4);

    // Second claim (50% total)
    lp_setup.set_block_epoch(1);
    lp_setup.claim_user(participant).unwrap();
    assert_eq!(lp_setup.esdt_balance(participant), LAUNCHPAD_TOKENS_PER_TICKET / 2);

    // Third claim (75% total)
    lp_setup.set_block_epoch(2);
    lp_setup.claim_user(participant).unwrap();
    assert_eq!(lp_setup.esdt_balance(participant), LAUNCHPAD_TOKENS_PER_TICKET * 3 / 4);

    // Final claim (100% total)
    lp_setup.set_block_epoch(3);
    lp_setup.claim_user(participant).unwrap();
    assert_eq!(lp_setup.esdt_balance(participant), LAUNCHPAD_TOKENS_PER_TICKET);

    // Try to claim again (should fail)
    assert_eq!(lp_setup.claim_user(participant).err().map(|e| e.message()), Some("Already claimed all tokens"));

    // Check if SC funds are 0 after all tokens were claimed
    assert_eq!(lp_setup.esdt_balance(SC_ADDRESS), 0);
}

#[test]
fn unlock_milestones_wrong_step_and_order_test() {
    let mut lp_setup = LaunchpadSetup::new(NR_WINNING_TICKETS);

    let unlock_milestones = vec![(10, 3000), (30, 3000), (20, 4000)];

    assert_eq!(
        lp_setup.try_set_unlock_schedule(unlock_milestones.clone()).err().map(|e| e.message()),
        Some("Invalid unlock schedule")
    );

    // Retry after setup period has passed
    lp_setup.set_block_nonce(CONFIRM_START_BLOCK);

    assert_eq!(
        lp_setup.try_set_unlock_schedule(unlock_milestones).err().map(|e| e.message()),
        Some("Add tickets period has passed")
    );
}

#[test]
fn contract_pause_test() {
    let nr_winning_tickets = 1;
    let mut lp_setup = LaunchpadSetup::new(nr_winning_tickets);
    lp_setup.set_unlock_schedule(vec![(0, 10000)]);
    let participant = lp_setup.participants[0];

    lp_setup.set_block_nonce(CONFIRM_START_BLOCK);

    // Check pause functionality
    lp_setup.pause_contract();
    assert_eq!(lp_setup.confirm(participant, 1).err().map(|e| e.message()), Some("Contract is paused"));
    lp_setup.unpause_contract();

    lp_setup.confirm(participant, 1).unwrap();

    lp_setup.set_block_nonce(WINNER_SELECTION_START_BLOCK);

    // Check pause functionality
    lp_setup.pause_contract();
    assert_eq!(lp_setup.filter_tickets().err().map(|e| e.message()), Some("Contract is paused"));
    lp_setup.unpause_contract();

    lp_setup.filter_tickets().unwrap();

    // Check pause functionality
    lp_setup.pause_contract();
    assert_eq!(lp_setup.select_winners().err().map(|e| e.message()), Some("Contract is paused"));
    lp_setup.unpause_contract();
    lp_setup.select_base_winners_mock(1).unwrap();

    // Check pause functionality
    lp_setup.pause_contract();
    assert_eq!(lp_setup.distribute_tickets().err().map(|e| e.message()), Some("Contract is paused"));
    lp_setup.unpause_contract();
    lp_setup.distribute_tickets().unwrap();

    lp_setup.set_block_nonce(CLAIM_START_BLOCK);
    lp_setup.set_block_epoch(0);

    // Check pause functionality
    lp_setup.pause_contract();
    assert_eq!(lp_setup.claim_user(participant).err().map(|e| e.message()), Some("Contract is paused"));
    lp_setup.unpause_contract();

    lp_setup.claim_user(participant).unwrap();
    assert_eq!(lp_setup.esdt_balance(participant), LAUNCHPAD_TOKENS_PER_TICKET);
}
