use launchpad::launchpad_common::config::{CallContext, Payment};
use launchpad::launchpad_common::errors::LaunchpadError;
use launchpad::launchpad_common::launch_stage::Flags;
use launchpad::launchpad_common::launchpad_main::LaunchpadInitArgs;
use launchpad::launchpad_common::ongoing_operation::{GasBudget, OperationCompletionStatus};
use launchpad::launchpad_common::user_interactions::UserInteractionsModule;
use launchpad::launchpad_common::winner_selection::WinnerSelectionModule;
use launchpad::launchpad_locked_tokens::contract::LaunchpadLockedTokens;
use launchpad::launchpad_locked_tokens::locked_launchpad_token_send::{LockedLaunchpadTokenSend, SimpleLockProxy};
use launchpad::launchpad_locked_tokens::state::LockedTokensLaunchpad;

const OWNER: u64 = 1;
const USER: u64 = 2;
const SIMPLE_LOCK_SC: u64 = 3;
const LAUNCHPAD_TOKEN_ID: &[u8] = b"LAUNCH-123456";
const LAUNCHPAD_TOKENS_PER_TICKET: u128 = 100_000;
const TICKET_PRICE: u128 = 100;
const NR_WINNING_TICKETS: usize = 1;
const CONFIRM_START_BLOCK: u64 = 10;
const WINNER_SELECTION_START_BLOCK: u64 = 20;
const CLAIM_START_BLOCK: u64 = 30;
const LOCK_PERCENTAGE: u32 = 5_000; // 50%
const UNLOCK_EPOCH: u64 = 10;

fn ctx(caller: u64, round: u64, epoch: u64) -> CallContext {
    CallContext { caller, owner: OWNER, block_round: round, block_nonce: round, block_epoch: epoch }
}

fn init_args() -> LaunchpadInitArgs {
    LaunchpadInitArgs {
        launchpad_token_id: LAUNCHPAD_TOKEN_ID.to_vec(),
        launchpad_tokens_per_winning_ticket: LAUNCHPAD_TOKENS_PER_TICKET,
        ticket_payment_token: b"EGLD".to_vec(),
        ticket_price: TICKET_PRICE,
        nr_winning_tickets: NR_WINNING_TICKETS,
        confirmation_period_start_round: CONFIRM_START_BLOCK,
        winner_selection_start_round: WINNER_SELECTION_START_BLOCK,
        claim_start_round: CLAIM_START_BLOCK,
        flags: Flags::default(),
    }
}

fn gas() -> GasBudget {
    GasBudget { gas_left: 1_000_000_000, gas_per_iteration: 1_000 }
}

fn setup() -> LockedTokensLaunchpad {
    let mut lp = LockedTokensLaunchpad::init(&ctx(OWNER, 0, 0), init_args(), LOCK_PERCENTAGE, UNLOCK_EPOCH, SIMPLE_LOCK_SC, true).unwrap();
    lp.add_tickets_endpoint(&ctx(OWNER, 0, 0), &vec![(USER, 1)]).unwrap();
    lp.base.launchpad_tokens_deposited = true;
    lp
}

#[test]
fn launchpad_with_locked_tokens_out_test() {
    let mut lp = setup();

    // user confirm
    let payment = Payment { token_id: b"EGLD".to_vec(), token_nonce: 0, amount: TICKET_PRICE };
    lp.base.confirm_tickets(&ctx(USER, CONFIRM_START_BLOCK, 0), payment, 1).unwrap();

    // filter + select winners
    let selection = ctx(OWNER, WINNER_SELECTION_START_BLOCK, 0);
    assert_eq!(lp.base.filter_tickets(&selection, gas()), Ok(OperationCompletionStatus::Completed));
    assert_eq!(lp.base.select_winners(&selection, gas(), [0u8; 32]), Ok(OperationCompletionStatus::Completed));

    // user claim
    let (refund, sent) = lp.claim_launchpad_tokens_endpoint(&ctx(USER, CLAIM_START_BLOCK, 0)).unwrap();
    assert!(refund.is_none());
    let sent = sent.unwrap();

    // half goes to the user, half is locked until the unlock epoch
    let unlocked = sent.unlocked.unwrap();
    assert_eq!(unlocked.to, USER);
    assert_eq!(unlocked.token_id, LAUNCHPAD_TOKEN_ID.to_vec());
    assert_eq!(unlocked.amount, LAUNCHPAD_TOKENS_PER_TICKET / 2);
    let lock = sent.lock.unwrap();
    assert_eq!(lock.sc_address, SIMPLE_LOCK_SC);
    assert_eq!(lock.destination, USER);
    assert_eq!(lock.token_id, LAUNCHPAD_TOKEN_ID.to_vec());
    assert_eq!(lock.token_nonce, 0);
    assert_eq!(lock.unlock_epoch, UNLOCK_EPOCH);
    assert_eq!(lock.amount, LAUNCHPAD_TOKENS_PER_TICKET / 2);
}

#[test]
fn locked_send_after_unlock_epoch_is_all_unlocked() {
    let lp = setup();
    let payment = Payment { token_id: LAUNCHPAD_TOKEN_ID.to_vec(), token_nonce: 0, amount: 1_000 };
    let sent = lp.send_locked_launchpad_tokens(USER, &payment, UNLOCK_EPOCH);
    assert!(sent.lock.is_none());
    assert_eq!(sent.unlocked.unwrap().amount, 1_000);
}

#[test]
fn locked_send_rounds_the_locked_part_down() {
    let mut lp = setup();
    lp.try_set_launchpad_tokens_lock_percentage(3_333).unwrap();
    let payment = Payment { token_id: LAUNCHPAD_TOKEN_ID.to_vec(), token_nonce: 0, amount: 7 };
    let sent = lp.send_locked_launchpad_tokens(USER, &payment, 0);
    // 7 * 3333 / 10000 = 2.33.. -> 2 locked, 5 unlocked
    assert_eq!(sent.lock.unwrap().amount, 2);
    assert_eq!(sent.unlocked.unwrap().amount, 5);
}

#[test]
fn locked_send_of_the_largest_amount_keeps_the_whole() {
    let lp = setup();
    let payment = Payment { token_id: LAUNCHPAD_TOKEN_ID.to_vec(), token_nonce: 0, amount: u128::MAX };
    let sent = lp.send_locked_launchpad_tokens(USER, &payment, 0);
    let locked = sent.lock.unwrap().amount;
    let unlocked = sent.unlocked.unwrap().amount;
    assert_eq!(locked, u128::MAX / 2);
    assert_eq!(locked + unlocked, u128::MAX);
}

#[test]
fn locked_send_of_a_tiny_amount_locks_nothing() {
    let lp = setup();
    let payment = Payment { token_id: LAUNCHPAD_TOKEN_ID.to_vec(), token_nonce: 0, amount: 1 };
    let sent = lp.send_locked_launchpad_tokens(USER, &payment, 0);
    assert!(sent.lock.is_none());
    assert_eq!(sent.unlocked.unwrap().amount, 1);
}

#[test]
fn lock_setup_errors() {
    let bad_pct = LockedTokensLaunchpad::init(&ctx(OWNER, 0, 0), init_args(), 0, UNLOCK_EPOCH, SIMPLE_LOCK_SC, true);
    assert_eq!(bad_pct.err(), Some(LaunchpadError::InvalidLockPercentage));
    let too_much = LockedTokensLaunchpad::init(&ctx(OWNER, 0, 0), init_args(), 10_001, UNLOCK_EPOCH, SIMPLE_LOCK_SC, true);
    assert_eq!(too_much.err(), Some(LaunchpadError::InvalidLockPercentage));
    let past_epoch = LockedTokensLaunchpad::init(&ctx(OWNER, 0, 10), init_args(), LOCK_PERCENTAGE, UNLOCK_EPOCH, SIMPLE_LOCK_SC, true);
    assert_eq!(past_epoch.err(), Some(LaunchpadError::InvalidUnlockEpoch));
    let not_contract = LockedTokensLaunchpad::init(&ctx(OWNER, 0, 0), init_args(), LOCK_PERCENTAGE, UNLOCK_EPOCH, SIMPLE_LOCK_SC, false);
    assert_eq!(not_contract.err(), Some(LaunchpadError::InvalidScAddress));
    let zero_address = LockedTokensLaunchpad::init(&ctx(OWNER, 0, 0), init_args(), LOCK_PERCENTAGE, UNLOCK_EPOCH, 0, true);
    assert_eq!(zero_address.err(), Some(LaunchpadError::InvalidScAddress));
    assert_eq!(LaunchpadError::InvalidLockPercentage.message(), "Invalid lock percentage");
    assert_eq!(LaunchpadError::InvalidUnlockEpoch.message(), "Invalid unlock epoch");
    assert_eq!(LaunchpadError::InvalidScAddress.message(), "Invalid SC address");
}

#[test]
fn simple_lock_proxy_builds_the_call() {
    let proxy = SimpleLockProxy { sc_address: SIMPLE_LOCK_SC };
    let call = proxy.lock_tokens(UNLOCK_EPOCH, USER, Payment { token_id: b"TOK-abcdef".to_vec(), token_nonce: 4, amount: 9 });
    assert_eq!(call.sc_address, SIMPLE_LOCK_SC);
    assert_eq!(call.unlock_epoch, UNLOCK_EPOCH);
    assert_eq!(call.destination, USER);
    assert_eq!(call.token_nonce, 4);
    assert_eq!(call.amount, 9);
}

#[test]
fn locked_deposit_needs_the_owner() {
    let mut lp = LockedTokensLaunchpad::init(&ctx(OWNER, 0, 0), init_args(), LOCK_PERCENTAGE, UNLOCK_EPOCH, SIMPLE_LOCK_SC, true).unwrap();
    let payment = Payment { token_id: LAUNCHPAD_TOKEN_ID.to_vec(), token_nonce: 0, amount: LAUNCHPAD_TOKENS_PER_TICKET };
    assert_eq!(lp.deposit_launchpad_tokens_endpoint(&ctx(USER, 0, 0), &payment), Err(LaunchpadError::OnlyOwner));
    assert_eq!(lp.deposit_launchpad_tokens_endpoint(&ctx(OWNER, 0, 0), &payment), Ok(()));
    assert!(lp.base.launchpad_tokens_deposited);
    assert_eq!(lp.get_launchpad_tokens_lock_percentage(), LOCK_PERCENTAGE);
    assert_eq!(lp.get_launchpad_tokens_unlock_epoch(), UNLOCK_EPOCH);
}
