use launchpad::launchpad::config::ConfigModule;
use launchpad::launchpad::contract::Launchpad;
use launchpad::launchpad::launch_stage::LaunchStageModule;
use launchpad::launchpad::setup::SetupModule;
use launchpad::launchpad::state::EpochLaunchpad;
use launchpad::launchpad::ticket_status::TicketStatus;
use launchpad::launchpad::tickets::TicketsModule;
use launchpad::launchpad::winner_selection::WinnerSelectionModule;
use launchpad::launchpad_common::config::{CallContext, Payment};
use launchpad::launchpad_common::errors::LaunchpadError;
use launchpad::launchpad_common::launch_stage::LaunchStage;
use launchpad::launchpad_common::ongoing_operation::{GasBudget, OngoingOperationType, OperationCompletionStatus};

const OWNER: u64 = 1;
const USERS: [u64; 3] = [31, 32, 33];
const LAUNCHPAD_TOKEN_ID: &[u8] = b"LAUNCH-123456";
const TICKET_TOKEN_ID: &[u8] = b"TICKET-abcdef";

fn ctx(caller: u64, epoch: u64) -> CallContext {
    CallContext { caller, owner: OWNER, block_round: 0, block_nonce: 0, block_epoch: epoch }
}

fn ticket_payment(amount: u128) -> Payment {
    Payment { token_id: TICKET_TOKEN_ID.to_vec(), token_nonce: 0, amount }
}

fn gas() -> GasBudget {
    GasBudget { gas_left: 1_000_000_000, gas_per_iteration: 1_000 }
}

fn new_launchpad(nr_winning_tickets: usize) -> EpochLaunchpad {
    EpochLaunchpad::init(&ctx(OWNER, 0), LAUNCHPAD_TOKEN_ID.to_vec(), 100, TICKET_TOKEN_ID.to_vec(), 10, nr_winning_tickets, 5, 10, 15).unwrap()
}

/// User i holds i + 1 tickets and confirms them all; the tokens for two winners are in.
fn confirmed_launchpad() -> EpochLaunchpad {
    let mut lp = new_launchpad(2);
    let pairs: Vec<(u64, usize)> = USERS.iter().enumerate().map(|(i, u)| (*u, i + 1)).collect();
    lp.add_tickets(&ctx(OWNER, 0), &pairs).unwrap();
    let deposit = Payment { token_id: LAUNCHPAD_TOKEN_ID.to_vec(), token_nonce: 0, amount: 200 };
    lp.deposit_launchpad_tokens(&ctx(OWNER, 0), &deposit).unwrap();
    for (i, u) in USERS.iter().enumerate() {
        lp.confirm_tickets(&ctx(*u, 5), &ticket_payment(10 * (i as u128 + 1)), i + 1).unwrap();
    }
    lp
}

#[test]
fn ticket_status_generations() {
    assert!(TicketStatus::Winning { generation: 2 }.is_winning(2));
    assert!(!TicketStatus::Winning { generation: 2 }.is_winning(3));
    assert!(!TicketStatus::Confirmed { generation: 2 }.is_winning(2));
    assert!(!TicketStatus::Unset.is_winning(0));
    assert!(TicketStatus::Confirmed { generation: 4 }.is_confirmed(Some(4)));
    assert!(!TicketStatus::Confirmed { generation: 4 }.is_confirmed(Some(5)));
    assert!(TicketStatus::Confirmed { generation: 4 }.is_confirmed(None));
    assert!(!TicketStatus::Redeemed.is_confirmed(None));
    assert!(!TicketStatus::Winning { generation: 1 }.is_confirmed(None));
}

#[test]
fn init_checks_its_arguments() {
    let c = ctx(OWNER, 0);
    let id = LAUNCHPAD_TOKEN_ID.to_vec();
    let t = TICKET_TOKEN_ID.to_vec();
    assert_eq!(EpochLaunchpad::init(&c, id.clone(), 0, t.clone(), 10, 1, 5, 10, 15).err(), Some(LaunchpadError::LaunchpadTokensPerTicketZero));
    assert_eq!(EpochLaunchpad::init(&c, id.clone(), 100, t.clone(), 0, 1, 5, 10, 15).err(), Some(LaunchpadError::TicketPriceZero));
    assert_eq!(EpochLaunchpad::init(&c, id.clone(), 100, t.clone(), 10, 0, 5, 10, 15).err(), Some(LaunchpadError::WinningTicketsZero));
    assert_eq!(EpochLaunchpad::init(&c, id.clone(), 100, t.clone(), 10, 1, 10, 10, 15).err(), Some(LaunchpadError::WinnerSelectionEpochBeforeConfirm));
    assert_eq!(EpochLaunchpad::init(&c, id.clone(), 100, t.clone(), 10, 1, 5, 10, 9).err(), Some(LaunchpadError::ClaimBeforeWinnerSelection));
    let lp = new_launchpad(1);
    assert_eq!(lp.support_address, OWNER);
    assert_eq!(lp.get_number_of_winning_tickets(), 1);
    assert_eq!(lp.get_ticket_price().amount, 10);
    assert_eq!(lp.get_configuration().claim_start_epoch, 15);
    assert_eq!(
        LaunchpadError::WinnerSelectionEpochBeforeConfirm.message(),
        "Winner selection start epoch must be after confirm start epoch"
    );
}

#[test]
fn stages_follow_the_epochs() {
    let mut lp = new_launchpad(1);
    assert_eq!(lp.get_launch_stage(4), LaunchStage::AddTickets);
    assert_eq!(lp.get_launch_stage(5), LaunchStage::Confirm);
    assert_eq!(lp.get_launch_stage(12), LaunchStage::WinnerSelection);
    assert_eq!(lp.get_launch_stage(15), LaunchStage::Claim);
    assert_eq!(lp.get_launch_stage(14), LaunchStage::WinnerSelection);
    // with a later claim epoch, the claim starts at that epoch
    lp.flags.has_winner_selection_process_started = true;
    assert_eq!(lp.get_launch_stage(14), LaunchStage::WinnerSelection);
    assert_eq!(lp.get_launch_stage(20), LaunchStage::Claim);
    lp.flags.were_winners_selected = true;
    assert_eq!(lp.get_launch_stage(14), LaunchStage::WinnerSelection);
    assert_eq!(lp.get_launch_stage(20), LaunchStage::Claim);
    // selection and claim starting together: the selection lasts until the winners are known
    lp.configuration.claim_start_epoch = 10;
    lp.flags.were_winners_selected = false;
    lp.flags.has_winner_selection_process_started = false;
    assert_eq!(lp.get_launch_stage(10), LaunchStage::WinnerSelection);
    assert_eq!(lp.get_launch_stage(25), LaunchStage::WinnerSelection);
    lp.flags.has_winner_selection_process_started = true;
    assert_eq!(lp.get_launch_stage(25), LaunchStage::WinnerSelection);
    lp.flags.were_winners_selected = true;
    assert_eq!(lp.get_launch_stage(10), LaunchStage::Claim);
    assert_eq!(lp.get_launch_stage(25), LaunchStage::Claim);
}

#[test]
fn setters_need_the_owner_and_a_later_epoch() {
    let mut lp = new_launchpad(1);
    assert_eq!(lp.set_ticket_price(&ctx(USERS[0], 0), 20), Err(LaunchpadError::OnlyOwner));
    assert_eq!(lp.set_ticket_price(&ctx(OWNER, 0), 0), Err(LaunchpadError::TicketPriceZero));
    assert_eq!(lp.set_ticket_price(&ctx(OWNER, 0), 20), Ok(()));
    assert_eq!(lp.ticket_price.amount, 20);
    assert_eq!(lp.set_ticket_price(&ctx(OWNER, 5), 30), Err(LaunchpadError::AddTicketsPeriodPassed));
    assert_eq!(lp.set_ticket_payment_token(&ctx(OWNER, 0), b"EGLD".to_vec()), Ok(()));
    assert_eq!(lp.ticket_price.token_id, b"EGLD".to_vec());
    assert_eq!(lp.set_launchpad_tokens_per_winning_ticket(&ctx(OWNER, 0), 0), Err(LaunchpadError::LaunchpadTokensPerTicketZero));
    assert_eq!(lp.set_confirmation_period_start_epoch(&ctx(OWNER, 3), 3), Err(LaunchpadError::ConfirmationStartEpochInPast));
    assert_eq!(lp.set_confirmation_period_start_epoch(&ctx(OWNER, 3), 4), Ok(()));
    assert_eq!(lp.set_winner_selection_start_epoch(&ctx(OWNER, 3), 2), Err(LaunchpadError::StartEpochInPast));
    assert_eq!(lp.set_claim_start_epoch(&ctx(OWNER, 3), 3), Err(LaunchpadError::ClaimStartEpochInPast));
    assert_eq!(lp.set_claim_start_epoch(&ctx(OWNER, 3), 30), Ok(()));
    assert_eq!(lp.configuration.claim_start_epoch, 30);
    assert_eq!(lp.require_valid_config_epoch_change(3, 3), Err(LaunchpadError::StartEpochInProgressOrPassed));
    assert_eq!(lp.require_valid_time_periods(Some(11), None, None), Err(LaunchpadError::WinnerSelectionEpochBeforeConfirm));
    assert_eq!(lp.require_valid_time_periods(None, Some(31), None), Err(LaunchpadError::ClaimBeforeWinnerSelection));
}

#[test]
fn deposit_needs_the_exact_amount() {
    let mut lp = new_launchpad(3);
    let wrong_token = Payment { token_id: TICKET_TOKEN_ID.to_vec(), token_nonce: 0, amount: 300 };
    assert_eq!(lp.deposit_launchpad_tokens(&ctx(OWNER, 0), &wrong_token), Err(LaunchpadError::WrongToken));
    let short = Payment { token_id: LAUNCHPAD_TOKEN_ID.to_vec(), token_nonce: 0, amount: 299 };
    assert_eq!(lp.deposit_launchpad_tokens(&ctx(OWNER, 0), &short), Err(LaunchpadError::WrongAmount));
    let exact = Payment { token_id: LAUNCHPAD_TOKEN_ID.to_vec(), token_nonce: 0, amount: 300 };
    assert_eq!(lp.deposit_launchpad_tokens(&ctx(USERS[0], 0), &exact), Err(LaunchpadError::OnlyOwner));
    assert_eq!(lp.deposit_launchpad_tokens(&ctx(OWNER, 0), &exact), Ok(()));
    assert!(lp.were_launchpad_tokens_deposited());
    assert_eq!(lp.deposit_launchpad_tokens(&ctx(OWNER, 0), &exact), Err(LaunchpadError::TokensAlreadyDeposited));
}

#[test]
fn tickets_are_added_once_then_enlarged() {
    let mut lp = new_launchpad(1);
    lp.add_tickets(&ctx(OWNER, 0), &vec![(USERS[0], 2), (USERS[1], 1)]).unwrap();
    assert_eq!(lp.get_ticket_range_for_address(USERS[0]), Some((1, 2)));
    assert_eq!(lp.get_ticket_range_for_address(USERS[1]), Some((3, 3)));
    assert_eq!(lp.get_total_tickets(), 3);
    assert_eq!(lp.add_tickets(&ctx(OWNER, 0), &vec![(USERS[0], 1)]), Err(LaunchpadError::DuplicateEntry));

    assert_eq!(lp.add_more_tickets(&ctx(OWNER, 0), &vec![(USERS[0], 2)]), Err(LaunchpadError::NewTicketsNotMore));
    assert_eq!(lp.add_more_tickets(&ctx(OWNER, 0), &vec![(USERS[2], 2)]), Err(LaunchpadError::NoTickets));
    // a refused list changes nothing, even after a pair that went through
    assert_eq!(lp.add_more_tickets(&ctx(OWNER, 0), &vec![(USERS[1], 2), (USERS[2], 2)]), Err(LaunchpadError::NoTickets));
    assert_eq!(lp.get_ticket_range_for_address(USERS[1]), Some((3, 3)));
    assert_eq!(lp.add_more_tickets(&ctx(OWNER, 0), &vec![(USERS[0], 4)]), Ok(()));
    assert_eq!(lp.get_ticket_range_for_address(USERS[0]), Some((4, 7)));
    assert_eq!(lp.get_total_number_of_tickets_for_address(USERS[0]), 4);
    // the old batch stays for the zero account, so the filter drops it
    assert_eq!(lp.ticket_batch.get(&1).map(|b| (b.address, b.nr_tickets)), Some((0, 2)));
    assert_eq!(lp.ticket_batch.get(&4).map(|b| (b.address, b.nr_tickets)), Some((USERS[0], 4)));
    assert_eq!(LaunchpadError::NewTicketsNotMore.message(), "new tickets must be higher then old tickets");
}

#[test]
fn confirm_is_checked() {
    let mut lp = new_launchpad(2);
    lp.add_tickets(&ctx(OWNER, 0), &vec![(USERS[0], 2)]).unwrap();
    assert_eq!(lp.confirm_tickets(&ctx(USERS[0], 5), &ticket_payment(10), 1), Err(LaunchpadError::LaunchpadTokensNotDeposited));
    let deposit = Payment { token_id: LAUNCHPAD_TOKEN_ID.to_vec(), token_nonce: 0, amount: 200 };
    lp.deposit_launchpad_tokens(&ctx(OWNER, 0), &deposit).unwrap();
    assert_eq!(lp.confirm_tickets(&ctx(USERS[0], 4), &ticket_payment(10), 1), Err(LaunchpadError::NotInConfirmationPeriod));
    assert_eq!(lp.confirm_tickets(&ctx(USERS[0], 5), &ticket_payment(30), 3), Err(LaunchpadError::TooManyTicketsConfirmed));
    assert_eq!(lp.confirm_tickets(&ctx(USERS[0], 5), &ticket_payment(11), 1), Err(LaunchpadError::WrongAmountSent));
    let egld = Payment { token_id: b"EGLD".to_vec(), token_nonce: 0, amount: 10 };
    assert_eq!(lp.confirm_tickets(&ctx(USERS[0], 5), &egld, 1), Err(LaunchpadError::WrongPaymentToken));
    assert_eq!(lp.confirm_tickets(&ctx(USERS[0], 5), &ticket_payment(10), 1), Ok(()));
    assert_eq!(lp.confirm_tickets(&ctx(USERS[0], 5), &ticket_payment(10), 1), Ok(()));
    assert_eq!(lp.nr_confirmed_tickets.get(&USERS[0]).copied(), Some(2));
}

#[test]
fn blacklisting_refunds_and_blocks() {
    let mut lp = confirmed_launchpad();
    assert_eq!(lp.add_address_to_blacklist(&ctx(USERS[0], 5), USERS[1]).err(), Some(LaunchpadError::OnlyOwner));
    let refund = lp.add_address_to_blacklist(&ctx(OWNER, 5), USERS[1]).unwrap().unwrap();
    assert_eq!(refund.to, USERS[1]);
    assert_eq!(refund.amount, 20);
    assert_eq!(refund.token_id, TICKET_TOKEN_ID.to_vec());
    assert!(lp.is_user_blacklisted(USERS[1]));
    assert_eq!(lp.nr_confirmed_tickets.get(&USERS[1]), None);
    assert_eq!(lp.remove_address_from_blacklist(&ctx(OWNER, 5), USERS[1]), Ok(()));
    assert!(!lp.is_user_blacklisted(USERS[1]));
    assert_eq!(lp.add_address_to_blacklist(&ctx(OWNER, 10), USERS[1]).err(), Some(LaunchpadError::BlacklistOnlyBeforeWinnerSelection));
}

#[test]
fn epoch_launchpad_full_round() {
    let mut lp = confirmed_launchpad();
    let selection = ctx(OWNER, 10);
    assert_eq!(lp.select_winners(&selection, gas(), [0u8; 32]).err(), Some(LaunchpadError::MustFilterFirst));
    assert_eq!(lp.filter_tickets(&selection, gas()), Ok(OperationCompletionStatus::Completed));
    assert_eq!(lp.filter_tickets(&selection, gas()).err(), Some(LaunchpadError::TicketsAlreadyFiltered));
    assert_eq!(lp.select_winners(&selection, gas(), [0u8; 32]), Ok(OperationCompletionStatus::Completed));
    assert_eq!(lp.select_winners(&selection, gas(), [0u8; 32]).err(), Some(LaunchpadError::WinnersAlreadySelected));
    assert!(lp.were_winners_selected());
    assert!(matches!(lp.current_ongoing_operation, OngoingOperationType::Idle));
    assert_eq!(lp.get_winning_ticket_ids_for_address(USERS[0]), vec![1]);
    assert_eq!(lp.get_winning_ticket_ids_for_address(USERS[1]), vec![2]);
    assert_eq!(lp.get_number_of_winning_tickets_for_address(USERS[2]), 0);
    assert_eq!(lp.claimable_ticket_payment, 20);

    assert_eq!(lp.claim_launchpad_tokens(&ctx(USERS[0], 14)).err(), Some(LaunchpadError::NotInClaimPeriod));
    let (refund, tokens) = lp.claim_launchpad_tokens(&ctx(USERS[1], 15)).unwrap();
    assert_eq!(refund.unwrap().amount, 10);
    assert_eq!(tokens.unwrap().amount, 100);
    assert!(lp.has_user_claimed(USERS[1]));
    assert_eq!(lp.claim_launchpad_tokens(&ctx(USERS[1], 15)).err(), Some(LaunchpadError::AlreadyClaimed));
    let (refund, tokens) = lp.claim_launchpad_tokens(&ctx(USERS[2], 15)).unwrap();
    assert_eq!(refund.unwrap().amount, 30);
    assert!(tokens.is_none());
    assert_eq!(lp.nr_winning_tickets, 1);

    // the owner takes the payment and the spare tokens: 200 held, 100 still needed
    let transfers = lp.claim_ticket_payment(&ctx(OWNER, 15), 200).unwrap();
    assert_eq!(transfers.len(), 2);
    assert_eq!(transfers[0].amount, 20);
    assert_eq!(transfers[1].amount, 100);
    assert_eq!(transfers[1].token_id, LAUNCHPAD_TOKEN_ID.to_vec());
    assert_eq!(lp.claim_ticket_payment(&ctx(OWNER, 15), 99).err(), Some(LaunchpadError::ArithmeticError));
}

#[test]
fn shuffle_single_ticket_swaps_positions() {
    let mut lp = confirmed_launchpad();
    let mut rng = launchpad::launchpad_common::random::Random::from_hash([0u8; 32], 0);
    lp.shuffle_single_ticket(&mut rng, 2, 6);
    // the draw reads 0: position 2 wins and keeps its ticket
    assert_eq!(lp.ticket_status.get(&2).copied(), Some(true));
    assert_eq!(lp.ticket_pos_to_id.get(&2).copied(), Some(2));
    assert_eq!(rng.index, 4);
}
