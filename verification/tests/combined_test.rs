use launchpad::launchpad_common::config::{CallContext, Payment};
use launchpad::launchpad_common::errors::LaunchpadError;
use launchpad::launchpad_common::launch_stage::Flags;
use launchpad::launchpad_common::launchpad_main::LaunchpadInitArgs;
use launchpad::launchpad_common::ongoing_operation::{GasBudget, OperationCompletionStatus};
use launchpad::launchpad_common::random::Random;
use launchpad::launchpad_common::user_interactions::UserInteractionsModule;
use launchpad::launchpad_common::winner_selection::WinnerSelectionModule;
use launchpad::launchpad_guaranteed_tickets::guaranteed_tickets_init::GuaranteedEntryV1;
use launchpad::launchpad_guaranteed_tickets::state::GuaranteedTicketsLaunchpadV1;
use launchpad::launchpad_guaranteed_tickets_v2::guaranteed_ticket_winners::GuaranteedTicketsSelectionOperation;
use launchpad::launchpad_nft_and_guaranteed_tickets::combined_selection::{CombinedSelectionModule, CombinedSelectionStep};
use launchpad::launchpad_nft_and_guaranteed_tickets::contract::NftAndGuaranteedEndpoints;
use launchpad::launchpad_nft_and_guaranteed_tickets::state::NftAndGuaranteedLaunchpad;
use launchpad::launchpad_with_nft::confirm_nft::ConfirmNftModule;
use launchpad::launchpad_with_nft::mystery_sft::{MysterySftTypes, SftSetupSteps};
use launchpad::launchpad_with_nft::state::NftState;

const OWNER: u64 = 1;
const USERS: [u64; 3] = [51, 52, 53];
const LAUNCHPAD_TOKEN_ID: &[u8] = b"LAUNCH-123456";
const SFT_TOKEN_ID: &[u8] = b"MYSTERY-123456";
const TICKET_COST: u128 = 10;
const NFT_COST: u128 = 100;

fn ctx(caller: u64, round: u64) -> CallContext {
    CallContext { caller, owner: OWNER, block_round: round, block_nonce: round, block_epoch: 0 }
}

fn egld(amount: u128) -> Payment {
    Payment { token_id: b"EGLD".to_vec(), token_nonce: 0, amount }
}

fn gas() -> GasBudget {
    GasBudget { gas_left: 1_000_000_000, gas_per_iteration: 1_000 }
}

/// Three users with 1, 2 and 3 staking tickets; three staking tickets earn a guaranteed
/// ticket, and the third user is the one of the top tier.  Three winning tickets in all.
fn setup() -> NftAndGuaranteedLaunchpad {
    let args = LaunchpadInitArgs {
        launchpad_token_id: LAUNCHPAD_TOKEN_ID.to_vec(),
        launchpad_tokens_per_winning_ticket: 100,
        ticket_payment_token: b"EGLD".to_vec(),
        ticket_price: TICKET_COST,
        nr_winning_tickets: 3,
        confirmation_period_start_round: 5,
        winner_selection_start_round: 10,
        claim_start_round: 15,
        flags: Flags::default(),
    };
    let guaranteed = GuaranteedTicketsLaunchpadV1::init(&ctx(OWNER, 0), args, 3).unwrap();
    let nft = NftState {
        nft_cost: egld(NFT_COST),
        total_available_nfts: 1,
        sft_setup_steps: SftSetupSteps { issued_token: true, created_initial_tokens: true, set_transfer_role: true },
        mystery_sft_token_id: SFT_TOKEN_ID.to_vec(),
        confirmed_nft_user_list: Vec::new(),
        nft_selection_winners: Vec::new(),
        claimable_nft_payment: 0,
    };
    let mut lp = NftAndGuaranteedLaunchpad { guaranteed, nft };
    let entries: Vec<GuaranteedEntryV1> = vec![(USERS[0], 1, 0, false), (USERS[1], 2, 0, false), (USERS[2], 3, 0, false)];
    assert_eq!(lp.add_tickets_endpoint(&ctx(USERS[0], 0), &entries), Err(LaunchpadError::OnlyOwner));
    lp.add_tickets_endpoint(&ctx(OWNER, 0), &entries).unwrap();
    assert_eq!(lp.guaranteed.base.nr_winning_tickets, 2);
    assert_eq!(lp.guaranteed.total_guaranteed_tickets, 1);
    assert_eq!(lp.guaranteed.users_with_guaranteed_ticket, vec![USERS[2]]);
    lp.guaranteed.max_tier_tickets = 3;
    lp.guaranteed.max_tier_users = vec![USERS[2]];
    let deposit = Payment { token_id: LAUNCHPAD_TOKEN_ID.to_vec(), token_nonce: 0, amount: 300 };
    lp.deposit_launchpad_tokens_endpoint(&ctx(OWNER, 0), &deposit).unwrap();
    for (i, u) in USERS.iter().enumerate() {
        lp.guaranteed.base.confirm_tickets(&ctx(*u, 5), egld(TICKET_COST * (i as u128 + 1)), i + 1).unwrap();
    }
    lp
}

#[test]
fn combined_step_encoding_round_trips() {
    let start = CombinedSelectionStep::default([5u8; 32]);
    let bytes = start.encode();
    assert_eq!(bytes.len(), 53);
    assert_eq!(bytes[0], 0);
    match CombinedSelectionStep::decode(&bytes).unwrap() {
        CombinedSelectionStep::GuaranteedTicketsDistribution { op } => {
            assert_eq!(op.rng.seed, [5u8; 32]);
            assert_eq!(op.leftover_ticket_pos_offset, 1);
        },
        _ => panic!("the step changed kind"),
    }
    let nft_step = CombinedSelectionStep::NftSelection { rng: Random::from_hash([9u8; 32], 8) };
    let bytes = nft_step.encode();
    assert_eq!(bytes[0], 1);
    match CombinedSelectionStep::decode(&bytes).unwrap() {
        CombinedSelectionStep::NftSelection { rng } => {
            assert_eq!(rng.seed, [9u8; 32]);
            assert_eq!(rng.index, 8);
        },
        _ => panic!("the step changed kind"),
    }
    assert_eq!(CombinedSelectionStep::decode(&vec![2u8; 53]).err(), Some(LaunchpadError::InvalidOperationData));
    assert_eq!(CombinedSelectionStep::decode(&Vec::new()).err(), Some(LaunchpadError::InvalidOperationData));
    let _ = GuaranteedTicketsSelectionOperation::default([0u8; 32]);
}

#[test]
fn combined_blacklist_gives_the_guarantee_back() {
    let mut lp = setup();
    lp.nft.confirm_nft(&lp.guaranteed.base, &ctx(USERS[2], 5), &egld(NFT_COST)).unwrap();
    let transfers = lp.add_users_to_blacklist_endpoint(&ctx(OWNER, 5), &vec![USERS[2]]).unwrap();
    let refunded: u128 = transfers.iter().map(|t| t.amount).sum();
    assert_eq!(refunded, 3 * TICKET_COST + NFT_COST);
    assert_eq!(lp.guaranteed.base.nr_winning_tickets, 3);
    assert_eq!(lp.guaranteed.total_guaranteed_tickets, 0);
    assert!(lp.guaranteed.users_with_guaranteed_ticket.is_empty());
    assert!(lp.nft.confirmed_nft_user_list.is_empty());
    assert_eq!(
        lp.add_users_to_blacklist_endpoint(&ctx(USERS[0], 5), &vec![USERS[1]]).err(),
        Some(LaunchpadError::PermissionDenied)
    );
}

#[test]
fn combined_secondary_selection_scenario() {
    let mut lp = setup();
    lp.nft.confirm_nft(&lp.guaranteed.base, &ctx(USERS[0], 5), &egld(NFT_COST)).unwrap();
    lp.nft.confirm_nft(&lp.guaranteed.base, &ctx(USERS[1], 5), &egld(NFT_COST)).unwrap();

    let selection = ctx(OWNER, 10);
    let mut g = gas();
    assert_eq!(lp.secondary_selection_step(&selection, &mut g, [0u8; 32]).err(), Some(LaunchpadError::MustSelectBaseWinnersFirst));
    lp.guaranteed.base.filter_tickets(&selection, gas()).unwrap();
    lp.guaranteed.base.select_winners(&selection, gas(), [0u8; 32]).unwrap();
    assert_eq!(lp.guaranteed.base.ticket_status.get(&1).copied(), Some(true));
    assert_eq!(lp.guaranteed.base.ticket_status.get(&2).copied(), Some(true));

    let mut g = gas();
    assert_eq!(lp.secondary_selection_step(&selection, &mut g, [0u8; 32]), Ok(OperationCompletionStatus::Completed));
    // the top-tier user had no winning ticket: the first of the user's tickets now wins
    assert_eq!(lp.guaranteed.base.ticket_status.get(&4).copied(), Some(true));
    assert_eq!(lp.guaranteed.base.nr_winning_tickets, 3);
    assert_eq!(lp.guaranteed.base.claimable_ticket_payment, 3 * TICKET_COST);
    // the NFT draw: the first user in the draw wins the single NFT
    assert_eq!(lp.nft.nft_selection_winners, vec![USERS[0]]);
    assert_eq!(lp.nft.confirmed_nft_user_list, vec![USERS[1]]);
    assert_eq!(lp.nft.claimable_nft_payment, NFT_COST);
    assert!(lp.guaranteed.base.flags.was_additional_step_completed);
    let mut g = gas();
    assert_eq!(lp.secondary_selection_step(&selection, &mut g, [0u8; 32]).err(), Some(LaunchpadError::AlreadyPerformedStep));

    let (claim, sft, refund) = lp.claim_launchpad_tokens_endpoint(&ctx(USERS[0], 15)).unwrap();
    assert_eq!(claim.launchpad_tokens.unwrap().amount, 100);
    assert!(claim.refund.is_none());
    assert_eq!(sft.token_nonce, MysterySftTypes::ConfirmedWon.as_nonce());
    assert!(refund.is_none());
    let (claim, sft, refund) = lp.claim_launchpad_tokens_endpoint(&ctx(USERS[1], 15)).unwrap();
    assert_eq!(claim.launchpad_tokens.unwrap().amount, 100);
    assert_eq!(claim.refund.unwrap().amount, TICKET_COST);
    assert_eq!(sft.token_nonce, MysterySftTypes::ConfirmedLost.as_nonce());
    assert_eq!(refund.unwrap().amount, NFT_COST);

    let (transfers, nft_payment) = lp.claim_ticket_payment_endpoint(&ctx(OWNER, 15), 300).unwrap();
    assert_eq!(transfers[0].amount, 3 * TICKET_COST);
    assert_eq!(nft_payment.unwrap().amount, NFT_COST);
    assert_eq!(lp.nft.claimable_nft_payment, 0);
}
