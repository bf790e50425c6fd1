use launchpad::launchpad_common::config::{CallContext, Payment};
use launchpad::launchpad_common::errors::LaunchpadError;
use launchpad::launchpad_common::launch_stage::Flags;
use launchpad::launchpad_common::launchpad_main::LaunchpadInitArgs;
use launchpad::launchpad_common::ongoing_operation::{GasBudget, OperationCompletionStatus};
use launchpad::launchpad_common::setup::SetupModule;
use launchpad::launchpad_common::tickets::TicketsModule;
use launchpad::launchpad_common::user_interactions::UserInteractionsModule;
use launchpad::launchpad_common::winner_selection::WinnerSelectionModule;
use launchpad::launchpad_v2::confirm_nft::ConfirmNftModule as ConfirmNftModuleV2;
use launchpad::launchpad_v2::nft_winners_selection::NftWinnersSelectionModule as NftWinnersSelectionModuleV2;
use launchpad::launchpad_v2::state::NftLaunchpadV2;
use launchpad::launchpad_with_nft::claim_nft::ClaimNftModule;
use launchpad::launchpad_with_nft::confirm_nft::ConfirmNftModule;
use launchpad::launchpad_with_nft::contract::NftLaunchpadEndpoints;
use launchpad::launchpad_with_nft::mystery_sft::{MysterySftTypes, SftSetupSteps};
use launchpad::launchpad_with_nft::nft_winners_selection::NftWinnersSelectionModule;
use launchpad::launchpad_with_nft::state::NftLaunchpad;
use launchpad::launchpad_common::random::Random;

const OWNER: u64 = 1;
const PARTICIPANTS: [u64; 3] = [11, 12, 13];
const BASE_TICKET_COST: u128 = 10;
const NFT_TICKET_COST: u128 = 100;
const LAUNCHPAD_TOKEN_ID: &[u8] = b"LAUNCH-123456";
const SFT_TOKEN_ID: &[u8] = b"MYSTERY-123456";
const LAUNCHPAD_TOKENS_PER_TICKET: u128 = 100;
const NR_WINNING_TICKETS: usize = 1;
const CONFIRM_START_BLOCK: u64 = 5;
const WINNER_SELECTION_START_BLOCK: u64 = 10;
const CLAIM_START_BLOCK: u64 = 15;
const TOTAL_NFTS: usize = 1;

fn ctx(caller: u64, round: u64) -> CallContext {
    CallContext { caller, owner: OWNER, block_round: round, block_nonce: round, block_epoch: 0 }
}

fn egld(amount: u128) -> Payment {
    Payment { token_id: b"EGLD".to_vec(), token_nonce: 0, amount }
}

fn gas() -> GasBudget {
    GasBudget { gas_left: 1_000_000_000, gas_per_iteration: 1_000 }
}

fn init_args() -> LaunchpadInitArgs {
    LaunchpadInitArgs {
        launchpad_token_id: LAUNCHPAD_TOKEN_ID.to_vec(),
        launchpad_tokens_per_winning_ticket: LAUNCHPAD_TOKENS_PER_TICKET,
        ticket_payment_token: b"EGLD".to_vec(),
        ticket_price: BASE_TICKET_COST,
        nr_winning_tickets: NR_WINNING_TICKETS,
        confirmation_period_start_round: CONFIRM_START_BLOCK,
        winner_selection_start_round: WINNER_SELECTION_START_BLOCK,
        claim_start_round: CLAIM_START_BLOCK,
        flags: Flags::default(),
    }
}

fn deposit_payment() -> Payment {
    Payment {
        token_id: LAUNCHPAD_TOKEN_ID.to_vec(),
        token_nonce: 0,
        amount: LAUNCHPAD_TOKENS_PER_TICKET * NR_WINNING_TICKETS as u128,
    }
}

/// The launchpad with an NFT draw, with tickets added, tokens deposited and every
/// participant's single ticket confirmed.
fn setup_with_nft() -> NftLaunchpad {
    let mut lp = NftLaunchpad::init(&ctx(OWNER, 0), init_args(), egld(NFT_TICKET_COST), TOTAL_NFTS).unwrap();
    lp.nft.mystery_sft_token_id = SFT_TOKEN_ID.to_vec();
    lp.nft.sft_setup_steps = SftSetupSteps { issued_token: true, created_initial_tokens: true, set_transfer_role: true };
    let pairs: Vec<(u64, usize)> = PARTICIPANTS.iter().map(|p| (*p, 1)).collect();
    lp.add_tickets_endpoint(&ctx(OWNER, 0), &pairs).unwrap();
    lp.base.deposit_launchpad_tokens(NR_WINNING_TICKETS, &deposit_payment()).unwrap();
    for p in PARTICIPANTS {
        lp.base.confirm_tickets(&ctx(p, CONFIRM_START_BLOCK), egld(BASE_TICKET_COST), 1).unwrap();
    }
    lp
}

/// The same launchpad in the flavour whose draw is an endpoint of its own.
fn setup_v2() -> NftLaunchpadV2 {
    let mut lp = NftLaunchpadV2::init(&ctx(OWNER, 0), init_args(), egld(NFT_TICKET_COST), TOTAL_NFTS as u64).unwrap();
    let pairs: Vec<(u64, usize)> = PARTICIPANTS.iter().map(|p| (*p, 1)).collect();
    lp.base.add_tickets(&ctx(OWNER, 0), &pairs).unwrap();
    lp.base.deposit_launchpad_tokens(NR_WINNING_TICKETS, &deposit_payment()).unwrap();
    for p in PARTICIPANTS {
        lp.base.confirm_tickets(&ctx(p, CONFIRM_START_BLOCK), egld(BASE_TICKET_COST), 1).unwrap();
    }
    lp
}

#[test]
fn launchpad_v2_test_init_test() {
    let _ = setup_with_nft();
}

#[test]
fn launchpad_v2_test_confirm_test() {
    let mut lp = setup_with_nft();
    let users = PARTICIPANTS;
    for user in users {
        lp.nft.confirm_nft(&lp.base, &ctx(user, CONFIRM_START_BLOCK), &egld(NFT_TICKET_COST)).unwrap();
    }
    assert_eq!(lp.nft.confirmed_nft_user_list.len(), PARTICIPANTS.len());
    for user in users {
        assert!(lp.nft.confirmed_nft_user_list.contains(&user));
    }

    // try confirm again
    let r = lp.nft.confirm_nft(&lp.base, &ctx(users[0], CONFIRM_START_BLOCK), &egld(NFT_TICKET_COST));
    assert_eq!(r, Err(LaunchpadError::AlreadyConfirmedNft));
    assert_eq!(LaunchpadError::AlreadyConfirmedNft.message(), "Already confirmed NFT");
}

#[test]
fn launchpad_v2_test_select_winners_test() {
    let mut lp = setup_v2();
    let users = PARTICIPANTS;
    lp.confirm_nft(&ctx(users[0], CONFIRM_START_BLOCK), &egld(NFT_TICKET_COST)).unwrap();
    lp.confirm_nft(&ctx(users[1], CONFIRM_START_BLOCK), &egld(NFT_TICKET_COST)).unwrap();

    let selection = ctx(OWNER, WINNER_SELECTION_START_BLOCK);

    // try select nft winners before base launchpad
    let mut g = gas();
    let r = lp.select_nft_winners(&selection, &mut g, [0u8; 32]);
    assert_eq!(r, Err(LaunchpadError::MustSelectBaseWinnersFirst));
    assert_eq!(r.unwrap_err().message(), "Must select winners for base launchpad first");

    // select base launchpad winners
    assert_eq!(lp.base.filter_tickets(&selection, gas()), Ok(OperationCompletionStatus::Completed));
    assert_eq!(lp.base.select_winners(&selection, gas(), [0u8; 32]), Ok(OperationCompletionStatus::Completed));

    // ticket #1 won
    assert_eq!(lp.base.ticket_status.get(&1).copied().unwrap_or(false), true);
    assert_eq!(lp.base.ticket_status.get(&2).copied().unwrap_or(false), false);
    assert_eq!(lp.base.ticket_status.get(&3).copied().unwrap_or(false), false);

    // select nft winners
    let mut g = gas();
    assert_eq!(lp.select_nft_winners(&selection, &mut g, [0u8; 32]), Ok(OperationCompletionStatus::Completed));

    // user[0] won
    assert_eq!(lp.confirmed_nft_user_list.len(), 1);
    assert!(lp.confirmed_nft_user_list.contains(&users[1]));
    assert_eq!(lp.nft_selection_winners.len(), 1);
    assert!(lp.nft_selection_winners.contains(&users[0]));
}

#[test]
fn blacklist_refund_test() {
    let mut lp = setup_with_nft();
    let users = PARTICIPANTS;
    for user in users {
        lp.nft.confirm_nft(&lp.base, &ctx(user, CONFIRM_START_BLOCK), &egld(NFT_TICKET_COST)).unwrap();
    }

    let transfers = lp.add_users_to_blacklist_endpoint(&ctx(OWNER, CONFIRM_START_BLOCK), &vec![users[0]]).unwrap();

    // the user gets back the ticket payment and the NFT cost
    let refunded: u128 = transfers.iter().filter(|t| t.to == users[0]).map(|t| t.amount).sum();
    assert_eq!(refunded, BASE_TICKET_COST + NFT_TICKET_COST);
}

#[test]
fn nft_draw_and_sft_claim_test() {
    let mut lp = setup_with_nft();
    let users = PARTICIPANTS;
    lp.nft.confirm_nft(&lp.base, &ctx(users[0], CONFIRM_START_BLOCK), &egld(NFT_TICKET_COST)).unwrap();
    lp.nft.confirm_nft(&lp.base, &ctx(users[1], CONFIRM_START_BLOCK), &egld(NFT_TICKET_COST)).unwrap();

    let mut rng = Random::from_hash([0u8; 32], 0);
    let mut g = gas();
    assert_eq!(lp.nft.select_nft_winners(&mut rng, &mut g), Ok(OperationCompletionStatus::Completed));
    assert_eq!(lp.nft.nft_selection_winners, vec![users[0]]);
    assert_eq!(lp.nft.confirmed_nft_user_list, vec![users[1]]);
    assert!(lp.has_user_won_nft(users[0]));
    assert!(lp.has_user_confirmed_nft(users[1]));
    assert!(!lp.has_user_confirmed_nft(users[2]));

    let (sft0, refund0) = lp.nft.claim_nft(users[0]);
    assert_eq!(sft0.token_nonce, MysterySftTypes::ConfirmedWon.as_nonce());
    assert!(refund0.is_none());
    let (sft1, refund1) = lp.nft.claim_nft(users[1]);
    assert_eq!(sft1.token_nonce, MysterySftTypes::ConfirmedLost.as_nonce());
    assert_eq!(refund1.unwrap().amount, NFT_TICKET_COST);
    let (sft2, refund2) = lp.nft.claim_nft(users[2]);
    assert_eq!(sft2.token_nonce, MysterySftTypes::NotConfirmed.as_nonce());
    assert!(refund2.is_none());
    assert_eq!(sft2.token_id, SFT_TOKEN_ID.to_vec());
    assert!(lp.nft.nft_selection_winners.is_empty());
    assert!(lp.nft.confirmed_nft_user_list.is_empty());
}
