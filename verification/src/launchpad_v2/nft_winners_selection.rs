//! The NFT draw of this launchpad, in an endpoint of its own: it runs while the gas
//! lasts, saves its generator between calls, and once over sets aside what the winners
//! paid.

use vstd::prelude::*;

use crate::launchpad_common::config::{CallContext, LaunchpadState};
use crate::launchpad_common::errors::LaunchpadError;
use crate::launchpad_common::launch_stage::{Flags, LaunchStage, LaunchStageModule};
use crate::launchpad_common::ongoing_operation::{
    gas_after, spec_can_continue, GasBudget, OngoingOperationModule, OngoingOperationType, OperationCompletionStatus,
    MIN_GAS_TO_SAVE_PROGRESS,
};
use crate::launchpad_common::random::{spec_decode_random, spec_encode_random, spec_in_range, spec_next_from, Random};
use crate::launchpad_common::storage::Address;
use crate::launchpad_common::ongoing_operation::spec_gas_iter;
use crate::launchpad_guaranteed_tickets_v2::guaranteed_tickets_init::{
    lemma_swap_remove, spec_set_push, spec_swap_remove, vec_set_insert, vec_swap_remove_value,
};
use crate::launchpad_v2::confirm_nft::ConfirmNftModule;
use crate::launchpad_v2::state::NftLaunchpadV2;
use crate::launchpad_with_nft::nft_winners_selection::NftDrawView;

verus! {

/// The draw after one more step, and whether it is over: a position among the users
/// left is drawn and that user becomes a winner; the draw is over once nobody is left
/// or the count of winners reaches the NFTs available.  `None` where nobody is left to
/// draw from, or a count leaves the integers.
pub open spec fn spec_nft_v2_process(v: NftDrawView, total_available_nfts: u64) -> Option<(NftDrawView, bool)> {
    let (list, winners, seed, index, selected) = v;
    if list.len() == 0 || list.len() + 1 > usize::MAX || selected + 1 > usize::MAX {
        None
    } else {
        let (seed2, index2, value) = spec_next_from(seed, index);
        let rand_index = spec_in_range(value, 1, (list.len() + 1) as usize);
        let winner = list[rand_index - 1];
        let list2 = spec_swap_remove(list, winner);
        Some(((list2, spec_set_push(winners, winner), seed2, index2, selected + 1), list2.len() == 0 || selected + 1 == total_available_nfts))
    }
}

/// A step of the draw picks the user at a drawn place: with `v` the next number of the
/// generator, the user at place `v % len` of the users left (counting from zero) wins.
/// The winners are the former winners and that user, the users left are the former
/// ones but that user, one number is read and one more winner is counted.  So the
/// winner depends on the seed, not only on the order of the list.
pub proof fn lemma_nft_v2_step_draws(v: NftDrawView, total_available_nfts: u64)
    requires
        v.0.no_duplicates(),
        v.0.len() > 0,
        v.0.len() + 1 <= usize::MAX,
        v.4 + 1 <= usize::MAX,
    ensures
        ({
            let (list, winners, seed, index, selected) = v;
            let (seed2, index2, value) = spec_next_from(seed, index);
            let chosen = list[value % (list.len() as int)];
            spec_nft_v2_process(v, total_available_nfts) matches Some((w, _))
                && (forall|x: Address| #[trigger] w.1.contains(x) <==> winners.contains(x) || x == chosen)
                && (forall|x: Address| #[trigger] w.0.contains(x) <==> list.contains(x) && x != chosen)
                && w.0.len() == list.len() - 1
                && w.2 == seed2 && w.3 == index2 && w.4 == selected + 1
        }),
{
    let (list, winners, seed, index, selected) = v;
    let (seed2, index2, value) = spec_next_from(seed, index);
    assert(value >= 0);
    let k = value % (list.len() as int);
    assert(spec_in_range(value, 1, (list.len() + 1) as usize) - 1 == k);
    let chosen = list[k];
    assert(list.contains(chosen));
    lemma_swap_remove(list, chosen);
    assert forall|x: Address| #[trigger] spec_set_push(winners, chosen).contains(x) <==> winners.contains(x) || x == chosen by {
        if !winners.contains(chosen) && spec_set_push(winners, chosen).contains(x) && x != chosen {
            let i = choose|i: int| 0 <= i < winners.len() + 1 && winners.push(chosen)[i] == x;
            assert(winners[i] == x);
        }
        if x == chosen && !winners.contains(chosen) {
            assert(winners.push(chosen)[winners.len() as int] == x);
        }
        if winners.contains(x) && !winners.contains(chosen) {
            let i = choose|i: int| 0 <= i < winners.len() && winners[i] == x;
            assert(winners.push(chosen)[i] == x);
        }
    }
}

/// Why a step of the draw fails: nobody is left to draw from, or a count leaves the
/// integers.
pub open spec fn spec_nft_v2_step_error(v: NftDrawView) -> LaunchpadError {
    if v.0.len() == 0 {
        LaunchpadError::IndexOutOfRange
    } else {
        LaunchpadError::ArithmeticError
    }
}

/// The draw after `n` steps, staying where it ended.
pub open spec fn spec_nft_v2_iterate(v: NftDrawView, total_available_nfts: u64, n: nat) -> Option<(NftDrawView, bool)>
    decreases n,
{
    if n == 0 {
        Some((v, false))
    } else {
        match spec_nft_v2_iterate(v, total_available_nfts, (n - 1) as nat) {
            None => None,
            Some((w, over)) => if over {
                Some((w, true))
            } else {
                spec_nft_v2_process(w, total_available_nfts)
            },
        }
    }
}

/// A run of the draw from one state to another: `n` steps were taken, the gas allowed
/// each step but the first, and the run stopped because the draw was over
/// (`completed`) or because the gas would not allow another step.
pub open spec fn spec_nft_v2_ran(v0: NftDrawView, total_available_nfts: u64, gas0: u64, cost: u64, v: NftDrawView, gas: u64, completed: bool) -> bool {
    exists|n: nat| #![trigger spec_nft_v2_iterate(v0, total_available_nfts, n)]
        n >= 1 && spec_nft_v2_iterate(v0, total_available_nfts, n) == Some((v, completed))
        && gas == spec_gas_iter(gas0, cost, if completed { (n - 1) as nat } else { n })
        && (forall|i: nat| 1 <= i < n ==> {
            &&& #[trigger] spec_nft_v2_iterate(v0, total_available_nfts, i) matches Some(t) && !t.1
            &&& spec_can_continue(spec_gas_iter(gas0, cost, i), cost)
        })
        && (!completed ==> !spec_can_continue(spec_gas_iter(gas0, cost, n), cost))
}

/// A run of the draw that no refusal stops and that still fails: the steps before step
/// `n` went through, did not end the draw and each left gas for another step, and step
/// `n` fails with `e`; or the draw ends and what the winners pay at `price` each
/// overflows.
pub open spec fn spec_nft_v2_failed(v0: NftDrawView, total_available_nfts: u64, gas0: u64, cost: u64, price: u128, e: LaunchpadError) -> bool {
    ||| exists|n: nat| #![trigger spec_nft_v2_iterate(v0, total_available_nfts, n)]
        n >= 1 && spec_nft_v2_iterate(v0, total_available_nfts, n) is None
        && (spec_nft_v2_iterate(v0, total_available_nfts, (n - 1) as nat) matches Some(t) && !t.1 && e == spec_nft_v2_step_error(t.0))
        && (forall|i: nat| 1 <= i < n ==> spec_can_continue(#[trigger] spec_gas_iter(gas0, cost, i), cost))
    ||| e == LaunchpadError::ArithmeticError && exists|v: NftDrawView, g: u64|
        #[trigger] spec_nft_v2_ran(v0, total_available_nfts, gas0, cost, v, g, true) && price * v.4 > u128::MAX
}

/// A step that fails after steps that neither ended the draw nor ran out of gas makes a
/// failed run.
proof fn lemma_nft_v2_fails_at(v0: NftDrawView, total_available_nfts: u64, gas0: u64, cost: u64, price: u128, n: nat)
    requires
        n >= 1,
        spec_nft_v2_iterate(v0, total_available_nfts, n) is None,
        spec_nft_v2_iterate(v0, total_available_nfts, (n - 1) as nat) matches Some(t) && !t.1,
        forall|i: nat| 1 <= i <= n - 1 ==> {
            &&& #[trigger] spec_nft_v2_iterate(v0, total_available_nfts, i) matches Some(t) && !t.1
            &&& spec_can_continue(spec_gas_iter(gas0, cost, i), cost)
        },
    ensures
        spec_nft_v2_failed(v0, total_available_nfts, gas0, cost, price,
            spec_nft_v2_step_error(spec_nft_v2_iterate(v0, total_available_nfts, (n - 1) as nat).unwrap().0)),
{
    assert forall|i: nat| 1 <= i < n implies spec_can_continue(#[trigger] spec_gas_iter(gas0, cost, i), cost) by {
        assert(spec_nft_v2_iterate(v0, total_available_nfts, i) is Some);
    }
}

/// Why the draw cannot run now: it is not the winner selection, the lottery has not
/// picked its winners, the draw is over, another operation is in progress, or the saved
/// generator cannot be read.
pub open spec fn spec_select_nft_error(s: &NftLaunchpadV2, round: u64) -> Option<LaunchpadError> {
    if s.base.stage_at(round) != LaunchStage::WinnerSelection {
        Some(LaunchpadError::NotInWinnerSelectionPeriod)
    } else if !s.base.flags.were_winners_selected {
        Some(LaunchpadError::MustSelectBaseWinnersFirst)
    } else if s.base.flags.was_additional_step_completed {
        Some(LaunchpadError::AlreadySelectedNftWinners)
    } else {
        match s.base.current_ongoing_operation {
            OngoingOperationType::Idle => None,
            OngoingOperationType::AdditionalSelection { encoded_data } => if spec_decode_random(encoded_data@) is None {
                Some(LaunchpadError::InvalidOperationData)
            } else {
                None
            },
            _ => Some(LaunchpadError::AnotherOperationInProgress),
        }
    }
}

/// The generator's seed and position the draw starts from: fresh from the chain's seed,
/// or the saved one.
pub open spec fn spec_rng_start(s: &NftLaunchpadV2, fresh_seed: [u8; 32]) -> (Seq<u8>, int) {
    match s.base.current_ongoing_operation {
        OngoingOperationType::AdditionalSelection { encoded_data } => spec_decode_random(encoded_data@).unwrap(),
        _ => (fresh_seed@, 0int),
    }
}

/// The draw of a state with a generator and a count of winners.
pub open spec fn nft_v2_view(s: &NftLaunchpadV2, rng: Random, selected: int) -> NftDrawView {
    (s.confirmed_nft_user_list@, s.nft_selection_winners@, rng.seed@, rng.index as int, selected)
}

/// Drawing the NFT winners.
pub trait NftWinnersSelectionModule: ConfirmNftModule {
    fn select_nft_winners(&mut self, ctx: &CallContext, gas: &mut GasBudget, fresh_seed: [u8; 32]) -> Result<OperationCompletionStatus, LaunchpadError>
        requires
            old(self).draw_wf(),
            old(gas).gas_per_iteration > 0,
    ;
}

impl NftWinnersSelectionModule for NftLaunchpadV2 {
    /// Draws NFT winners while the gas lasts, from where the last call stopped; where the
    /// gas runs out the generator is saved, and once the draw is over what the winners
    /// paid is set aside.  A refused call changes nothing.
    #[verifier::spinoff_prover]
    #[verifier::rlimit(40)]
    fn select_nft_winners(&mut self, ctx: &CallContext, gas: &mut GasBudget, fresh_seed: [u8; 32]) -> (r: Result<OperationCompletionStatus, LaunchpadError>)
        ensures
            spec_select_nft_error(old(self), ctx.block_round) matches Some(e) ==> r == Err::<OperationCompletionStatus, _>(e),
            r is Err ==> final(self).confirmed_nft_user_list@ == old(self).confirmed_nft_user_list@
                && final(self).nft_selection_winners@ == old(self).nft_selection_winners@
                && *final(self) == (NftLaunchpadV2 {
                    confirmed_nft_user_list: final(self).confirmed_nft_user_list,
                    nft_selection_winners: final(self).nft_selection_winners,
                    ..*old(self)
                }),
            r matches Err(e) ==> (spec_select_nft_error(old(self), ctx.block_round) is None ==> spec_nft_v2_failed(
                (old(self).confirmed_nft_user_list@, old(self).nft_selection_winners@, spec_rng_start(old(self), fresh_seed).0,
                    spec_rng_start(old(self), fresh_seed).1, old(self).nft_selection_winners@.len() as int),
                old(self).total_available_nfts,
                old(gas).gas_left,
                old(gas).gas_per_iteration,
                old(self).nft_cost.amount,
                e,
            )),
            r matches Ok(status) ==> spec_select_nft_error(old(self), ctx.block_round) is None && exists|rng: Random, selected: int|
                #![trigger nft_v2_view(final(self), rng, selected)]
            {
                &&& spec_nft_v2_ran(
                    (old(self).confirmed_nft_user_list@, old(self).nft_selection_winners@, spec_rng_start(old(self), fresh_seed).0,
                        spec_rng_start(old(self), fresh_seed).1, old(self).nft_selection_winners@.len() as int),
                    old(self).total_available_nfts,
                    old(gas).gas_left,
                    old(gas).gas_per_iteration,
                    nft_v2_view(final(self), rng, selected),
                    final(gas).gas_left,
                    status == OperationCompletionStatus::Completed,
                )
                &&& status == OperationCompletionStatus::InterruptedBeforeOutOfGas ==> {
                    &&& final(self).base.current_ongoing_operation matches OngoingOperationType::AdditionalSelection { encoded_data }
                        && encoded_data@ == spec_encode_random(rng)
                    &&& *final(self) == (NftLaunchpadV2 {
                        base: LaunchpadState { current_ongoing_operation: final(self).base.current_ongoing_operation, ..old(self).base },
                        confirmed_nft_user_list: final(self).confirmed_nft_user_list,
                        nft_selection_winners: final(self).nft_selection_winners,
                        ..*old(self)
                    })
                }
                &&& status == OperationCompletionStatus::Completed ==> *final(self) == (NftLaunchpadV2 {
                    base: LaunchpadState {
                        flags: Flags { was_additional_step_completed: true, ..old(self).base.flags },
                        current_ongoing_operation: OngoingOperationType::Idle,
                        ..old(self).base
                    },
                    claimable_nft_payment: (old(self).nft_cost.amount * selected) as u128,
                    confirmed_nft_user_list: final(self).confirmed_nft_user_list,
                    nft_selection_winners: final(self).nft_selection_winners,
                    ..*old(self)
                })
            },
            final(self).wf(),
            final(gas).gas_per_iteration == old(gas).gas_per_iteration,
    {
        self.base.require_winner_selection_period(ctx.block_round)?;
        let mut flags = self.base.flags;
        if !flags.were_winners_selected {
            return Err(LaunchpadError::MustSelectBaseWinnersFirst);
        }
        if flags.was_additional_step_completed {
            return Err(LaunchpadError::AlreadySelectedNftWinners);
        }
        let loaded = self.base.load_additional_selection_operation()?;
        let mut rng = match loaded {
            None => Random::from_hash(fresh_seed, 0),
            Some(data) => Random::decode(&data)?,
        };
        let budget = *gas;
        let total_available_nfts = self.total_available_nfts;
        let ghost v0: NftDrawView = (
            self.confirmed_nft_user_list@,
            self.nft_selection_winners@,
            rng.seed@,
            rng.index as int,
            self.nft_selection_winners@.len() as int,
        );
        assert(v0.2 == spec_rng_start(old(self), fresh_seed).0 && v0.3 == spec_rng_start(old(self), fresh_seed).1);
        let ghost old_self = *self;
        let saved_list = self.confirmed_nft_user_list.clone();
        let saved_winners = self.nft_selection_winners.clone();
        let mut winners_selected = self.nft_selection_winners.len();
        let mut gas_left = budget.gas_left;
        let ghost mut n: nat = 0;
        let mut status = OperationCompletionStatus::InterruptedBeforeOutOfGas;
        loop
            invariant_except_break
                budget.gas_per_iteration > 0,
                budget == *old(gas),
                old_self == *old(self),
                old_self.wf(),
                spec_select_nft_error(&old_self, ctx.block_round) is None,
                v0 == (old_self.confirmed_nft_user_list@, old_self.nft_selection_winners@, spec_rng_start(&old_self, fresh_seed).0,
                    spec_rng_start(&old_self, fresh_seed).1, old_self.nft_selection_winners@.len() as int),
                saved_list@ == old_self.confirmed_nft_user_list@,
                saved_winners@ == old_self.nft_selection_winners@,
                total_available_nfts == old_self.total_available_nfts,
                self.wf(),
                spec_nft_v2_iterate(v0, total_available_nfts, n) == Some((
                    (self.confirmed_nft_user_list@, self.nft_selection_winners@, rng.seed@, rng.index as int, winners_selected as int),
                    false,
                )),
                forall|i: nat| 1 <= i <= n ==> {
                    &&& #[trigger] spec_nft_v2_iterate(v0, total_available_nfts, i) matches Some(t) && !t.1
                    &&& spec_can_continue(spec_gas_iter(budget.gas_left, budget.gas_per_iteration, i), budget.gas_per_iteration)
                },
                gas_left == spec_gas_iter(budget.gas_left, budget.gas_per_iteration, n),
                status == OperationCompletionStatus::InterruptedBeforeOutOfGas,
                *self == (NftLaunchpadV2 {
                    confirmed_nft_user_list: self.confirmed_nft_user_list,
                    nft_selection_winners: self.nft_selection_winners,
                    ..old_self
                }),
            ensures
                n >= 1,
                self.wf(),
                spec_nft_v2_iterate(v0, total_available_nfts, n) == Some((
                    (self.confirmed_nft_user_list@, self.nft_selection_winners@, rng.seed@, rng.index as int, winners_selected as int),
                    status == OperationCompletionStatus::Completed,
                )),
                gas_left == spec_gas_iter(budget.gas_left, budget.gas_per_iteration,
                    if status == OperationCompletionStatus::Completed { (n - 1) as nat } else { n }),
                forall|i: nat| 1 <= i < n ==> {
                    &&& #[trigger] spec_nft_v2_iterate(v0, total_available_nfts, i) matches Some(t) && !t.1
                    &&& spec_can_continue(spec_gas_iter(budget.gas_left, budget.gas_per_iteration, i), budget.gas_per_iteration)
                },
                status == OperationCompletionStatus::InterruptedBeforeOutOfGas
                    ==> !spec_can_continue(spec_gas_iter(budget.gas_left, budget.gas_per_iteration, n), budget.gas_per_iteration),
                *self == (NftLaunchpadV2 {
                    confirmed_nft_user_list: self.confirmed_nft_user_list,
                    nft_selection_winners: self.nft_selection_winners,
                    ..old_self
                }),
            decreases gas_left,
        {
            proof {
                n = n + 1;
            }
            let users_left = self.confirmed_nft_user_list.len();
            if users_left == 0 {
                proof {
                    lemma_nft_v2_fails_at(v0, total_available_nfts, budget.gas_left, budget.gas_per_iteration, old_self.nft_cost.amount, n);
                }
                self.confirmed_nft_user_list = saved_list;
                self.nft_selection_winners = saved_winners;
                return Err(LaunchpadError::IndexOutOfRange);
            }
            if users_left == usize::MAX || winners_selected == usize::MAX {
                proof {
                    lemma_nft_v2_fails_at(v0, total_available_nfts, budget.gas_left, budget.gas_per_iteration, old_self.nft_cost.amount, n);
                }
                self.confirmed_nft_user_list = saved_list;
                self.nft_selection_winners = saved_winners;
                return Err(LaunchpadError::ArithmeticError);
            }
            let rand_index = rng.next_usize_in_range(1, users_left + 1);
            let winner_addr = self.confirmed_nft_user_list[rand_index - 1];
            proof {
                lemma_swap_remove(self.confirmed_nft_user_list@, winner_addr);
            }
            vec_swap_remove_value(&mut self.confirmed_nft_user_list, winner_addr);
            vec_set_insert(&mut self.nft_selection_winners, winner_addr);
            winners_selected = winners_selected + 1;
            if self.confirmed_nft_user_list.len() == 0 || winners_selected as u128 == total_available_nfts as u128 {
                status = OperationCompletionStatus::Completed;
                break;
            }
            let ghost g0 = gas_left;
            gas_left = gas_after(gas_left, budget.gas_per_iteration);
            if !(gas_left > MIN_GAS_TO_SAVE_PROGRESS && gas_left - MIN_GAS_TO_SAVE_PROGRESS > budget.gas_per_iteration) {
                break;
            }
            assert(gas_left < g0);
        }
        gas.gas_left = gas_left;
        let ghost selected = winners_selected as int;
        match status {
            OperationCompletionStatus::InterruptedBeforeOutOfGas => {
                let encoded_data = rng.encode();
                self.base.save_progress(OngoingOperationType::AdditionalSelection { encoded_data });
            },
            OperationCompletionStatus::Completed => {
                let claimable = match self.nft_cost.amount.checked_mul(winners_selected as u128) {
                    Some(c) => c,
                    None => {
                        assert(spec_nft_v2_ran(v0, total_available_nfts, budget.gas_left, budget.gas_per_iteration,
                            nft_v2_view(self, rng, selected), gas_left, true));
                        assert((winners_selected as u128) as int == selected);
                        assert(old_self.nft_cost.amount * nft_v2_view(self, rng, selected).4 > u128::MAX);
                        self.confirmed_nft_user_list = saved_list;
                        self.nft_selection_winners = saved_winners;
                        return Err(LaunchpadError::ArithmeticError);
                    },
                };
                flags.was_additional_step_completed = true;
                self.base.flags = flags;
                self.base.current_ongoing_operation = OngoingOperationType::Idle;
                self.claimable_nft_payment = claimable;
            },
        }
        assert(spec_nft_v2_ran(
            v0,
            total_available_nfts,
            budget.gas_left,
            budget.gas_per_iteration,
            nft_v2_view(self, rng, selected),
            gas_left,
            status == OperationCompletionStatus::Completed,
        ));
        Ok(status)
    }
}

} // verus!
