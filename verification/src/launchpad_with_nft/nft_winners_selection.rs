//! The NFT draw: winners are drawn one at a time among the users in the draw, until
//! every NFT is given or nobody is left.

use vstd::prelude::*;

use crate::launchpad_common::errors::LaunchpadError;
use crate::launchpad_common::ongoing_operation::{gas_after, spec_can_continue, GasBudget, OperationCompletionStatus};
use crate::launchpad_common::random::{spec_in_range, spec_next_from, Random};
use crate::launchpad_common::storage::Address;
use crate::launchpad_guaranteed_tickets_v2::guaranteed_tickets_init::{
    lemma_swap_remove, spec_set_push, spec_swap_remove, vec_contains, vec_set_insert, vec_swap_remove_value,
};
use crate::launchpad_common::ongoing_operation::spec_gas_iter;
use crate::launchpad_with_nft::confirm_nft::ConfirmNftModule;
use crate::launchpad_with_nft::state::NftState;

verus! {

/// The draw as it goes: the users left, the winners, the generator's seed and position,
/// and how many winners were counted.
pub type NftDrawView = (Seq<Address>, Seq<Address>, Seq<u8>, int, int);

/// The draw after one more step, and whether it stopped: it stops once nobody is left or
/// the count of winners reaches the NFTs available; otherwise a position among the users
/// left is drawn and that user becomes a winner.  `None` where a count leaves the integers.
pub open spec fn spec_nft_process(v: NftDrawView, total_available_nfts: usize) -> Option<(NftDrawView, bool)> {
    let (list, winners, seed, index, selected) = v;
    if list.len() == 0 || selected == total_available_nfts {
        Some((v, true))
    } else if list.len() + 1 > usize::MAX || selected + 1 > usize::MAX {
        None
    } else {
        let (seed2, index2, value) = spec_next_from(seed, index);
        let rand_index = spec_in_range(value, 1, (list.len() + 1) as usize);
        let winner = list[rand_index - 1];
        Some(((spec_swap_remove(list, winner), spec_set_push(winners, winner), seed2, index2, selected + 1), false))
    }
}

/// A step of the draw picks the user at a drawn place: with `v` the next number of the
/// generator, the user at place `v % len` of the users left (counting from zero) wins.
/// The winners are the former winners and that user, the users left are the former
/// ones but that user, one number is read and one more winner is counted.  So the
/// winner depends on the seed, not only on the order of the list.
pub proof fn lemma_nft_step_draws(v: NftDrawView, total_available_nfts: usize)
    requires
        v.0.no_duplicates(),
        v.0.len() > 0,
        v.4 != total_available_nfts,
        v.0.len() + 1 <= usize::MAX,
        v.4 + 1 <= usize::MAX,
    ensures
        ({
            let (list, winners, seed, index, selected) = v;
            let (seed2, index2, value) = spec_next_from(seed, index);
            let chosen = list[value % (list.len() as int)];
            spec_nft_process(v, total_available_nfts) matches Some((w, _))
                && (forall|x: Address| #[trigger] w.1.contains(x) <==> winners.contains(x) || x == chosen)
                && (forall|x: Address| #[trigger] w.0.contains(x) <==> list.contains(x) && x != chosen)
                && w.0.len() == list.len() - 1
                && w.2 == seed2 && w.3 == index2 && w.4 == selected + 1
        }),
{
    let (list, winners, seed, index, selected) = v;
    let (seed2, index2, value) = spec_next_from(seed, index);
    assert(value >= 0);
    let k = value % (list.len() as int);
    assert(spec_in_range(value, 1, (list.len() + 1) as usize) - 1 == k);
    let chosen = list[k];
    assert(list.contains(chosen));
    lemma_swap_remove(list, chosen);
    assert forall|x: Address| #[trigger] spec_set_push(winners, chosen).contains(x) <==> winners.contains(x) || x == chosen by {
        if !winners.contains(chosen) && spec_set_push(winners, chosen).contains(x) && x != chosen {
            let i = choose|i: int| 0 <= i < winners.len() + 1 && winners.push(chosen)[i] == x;
            assert(winners[i] == x);
        }
        if x == chosen && !winners.contains(chosen) {
            assert(winners.push(chosen)[winners.len() as int] == x);
        }
        if winners.contains(x) && !winners.contains(chosen) {
            let i = choose|i: int| 0 <= i < winners.len() && winners[i] == x;
            assert(winners.push(chosen)[i] == x);
        }
    }
}

/// The draw after `n` steps, staying where it stopped.
pub open spec fn spec_nft_iterate(v: NftDrawView, total_available_nfts: usize, n: nat) -> Option<(NftDrawView, bool)>
    decreases n,
{
    if n == 0 {
        Some((v, false))
    } else {
        match spec_nft_iterate(v, total_available_nfts, (n - 1) as nat) {
            None => None,
            Some((w, stopped)) => if stopped {
                Some((w, true))
            } else {
                spec_nft_process(w, total_available_nfts)
            },
        }
    }
}

/// A run of the draw from one state to another: `n` steps were taken, the gas allowed
/// each step but the first, and the run stopped because the draw was over
/// (`completed`) or because the gas would not allow another step.
pub open spec fn spec_nft_ran(v0: NftDrawView, total_available_nfts: usize, gas0: u64, cost: u64, v: NftDrawView, gas: u64, completed: bool) -> bool {
    exists|n: nat| #![trigger spec_nft_iterate(v0, total_available_nfts, n)]
        n >= 1 && spec_nft_iterate(v0, total_available_nfts, n) == Some((v, completed))
        && gas == spec_gas_iter(gas0, cost, if completed { (n - 1) as nat } else { n })
        && (forall|i: nat| 1 <= i < n ==> {
            &&& #[trigger] spec_nft_iterate(v0, total_available_nfts, i) matches Some(t) && !t.1
            &&& spec_can_continue(spec_gas_iter(gas0, cost, i), cost)
        })
        && (!completed ==> !spec_can_continue(spec_gas_iter(gas0, cost, n), cost))
}

/// A run of the draw that stops on a refusal: the steps before the failing one did not
/// finish the draw and the gas allowed each of them to be followed by another.
pub open spec fn spec_nft_failed(v0: NftDrawView, total_available_nfts: usize, gas0: u64, cost: u64) -> bool {
    exists|n: nat| #![trigger spec_nft_iterate(v0, total_available_nfts, n)]
        n >= 1 && spec_nft_iterate(v0, total_available_nfts, n) is None
        && (spec_nft_iterate(v0, total_available_nfts, (n - 1) as nat) matches Some(t) && !t.1)
        && (forall|i: nat| 1 <= i < n ==> spec_can_continue(#[trigger] spec_gas_iter(gas0, cost, i), cost))
}

/// A step that refuses after steps that neither finished nor ran out of gas is a failed run.
proof fn lemma_nft_fails_at(v0: NftDrawView, total_available_nfts: usize, gas0: u64, cost: u64, n: nat)
    requires
        n >= 1,
        spec_nft_iterate(v0, total_available_nfts, n) is None,
        spec_nft_iterate(v0, total_available_nfts, (n - 1) as nat) matches Some(t) && !t.1,
        forall|i: nat| 1 <= i <= n - 1 ==> {
            &&& #[trigger] spec_nft_iterate(v0, total_available_nfts, i) matches Some(t) && !t.1
            &&& spec_can_continue(spec_gas_iter(gas0, cost, i), cost)
        },
    ensures
        spec_nft_failed(v0, total_available_nfts, gas0, cost),
{
    assert forall|i: nat| 1 <= i < n implies spec_can_continue(#[trigger] spec_gas_iter(gas0, cost, i), cost) by {
        assert(spec_nft_iterate(v0, total_available_nfts, i) is Some);
    }
}

/// The draw of a state with a generator.
pub open spec fn nft_draw_view(nft: &NftState, rng: Random, selected: int) -> NftDrawView {
    (nft.confirmed_nft_user_list@, nft.nft_selection_winners@, rng.seed@, rng.index as int, selected)
}

/// Drawing the NFT winners.
pub trait NftWinnersSelectionModule: ConfirmNftModule {
    fn select_nft_winners(&mut self, rng: &mut Random, gas: &mut GasBudget) -> Result<OperationCompletionStatus, LaunchpadError>
        requires
            old(self).draw_wf(),
            old(gas).gas_per_iteration > 0,
    ;

    fn has_user_confirmed_nft(&self, user: Address) -> bool;

    fn has_user_won_nft(&self, user: Address) -> bool;
}

impl NftWinnersSelectionModule for NftState {
    /// Draws NFT winners while the gas lasts.  Refused, changing nothing, where a count
    /// would leave the integers.
    fn select_nft_winners(&mut self, rng: &mut Random, gas: &mut GasBudget) -> (r: Result<OperationCompletionStatus, LaunchpadError>)
        ensures
            r is Err ==> r == Err::<OperationCompletionStatus, _>(LaunchpadError::ArithmeticError) && *final(rng) == *old(rng)
                && final(self).confirmed_nft_user_list@ == old(self).confirmed_nft_user_list@
                && final(self).nft_selection_winners@ == old(self).nft_selection_winners@,
            r is Err ==> spec_nft_failed(
                nft_draw_view(old(self), *old(rng), old(self).nft_selection_winners@.len() as int),
                old(self).total_available_nfts,
                old(gas).gas_left,
                old(gas).gas_per_iteration,
            ),
            r matches Ok(status) ==> exists|selected: int| #![trigger nft_draw_view(final(self), *final(rng), selected)] spec_nft_ran(
                nft_draw_view(old(self), *old(rng), old(self).nft_selection_winners@.len() as int),
                old(self).total_available_nfts,
                old(gas).gas_left,
                old(gas).gas_per_iteration,
                nft_draw_view(final(self), *final(rng), selected),
                final(gas).gas_left,
                status == OperationCompletionStatus::Completed,
            ),
            *final(self) == (NftState {
                confirmed_nft_user_list: final(self).confirmed_nft_user_list,
                nft_selection_winners: final(self).nft_selection_winners,
                ..*old(self)
            }),
            final(self).nft_wf(),
            final(gas).gas_per_iteration == old(gas).gas_per_iteration,
    {
        let budget = *gas;
        let total_available_nfts = self.total_available_nfts;
        let ghost v0 = nft_draw_view(self, *rng, self.nft_selection_winners@.len() as int);
        let ghost old_self = *self;
        let saved_list = self.confirmed_nft_user_list.clone();
        let saved_winners = self.nft_selection_winners.clone();
        let saved_rng = *rng;
        let mut winners_selected = self.nft_selection_winners.len();
        let mut gas_left = budget.gas_left;
        let ghost mut n: nat = 0;
        let mut status = OperationCompletionStatus::InterruptedBeforeOutOfGas;
        loop
            invariant_except_break
                budget.gas_per_iteration > 0,
                budget == *old(gas),
                old_self == *old(self),
                old_self.nft_wf(),
                saved_rng == *old(rng),
                saved_list@ == old_self.confirmed_nft_user_list@,
                saved_winners@ == old_self.nft_selection_winners@,
                total_available_nfts == old_self.total_available_nfts,
                v0 == nft_draw_view(&old_self, saved_rng, old_self.nft_selection_winners@.len() as int),
                self.nft_wf(),
                spec_nft_iterate(v0, total_available_nfts, n) == Some((nft_draw_view(self, *rng, winners_selected as int), false)),
                forall|i: nat| 1 <= i <= n ==> {
                    &&& #[trigger] spec_nft_iterate(v0, total_available_nfts, i) matches Some(t) && !t.1
                    &&& spec_can_continue(spec_gas_iter(budget.gas_left, budget.gas_per_iteration, i), budget.gas_per_iteration)
                },
                gas_left == spec_gas_iter(budget.gas_left, budget.gas_per_iteration, n),
                status == OperationCompletionStatus::InterruptedBeforeOutOfGas,
                *self == (NftState {
                    confirmed_nft_user_list: self.confirmed_nft_user_list,
                    nft_selection_winners: self.nft_selection_winners,
                    ..old_self
                }),
            ensures
                n >= 1,
                self.nft_wf(),
                spec_nft_iterate(v0, total_available_nfts, n)
                    == Some((nft_draw_view(self, *rng, winners_selected as int), status == OperationCompletionStatus::Completed)),
                gas_left == spec_gas_iter(budget.gas_left, budget.gas_per_iteration,
                    if status == OperationCompletionStatus::Completed { (n - 1) as nat } else { n }),
                forall|i: nat| 1 <= i < n ==> {
                    &&& #[trigger] spec_nft_iterate(v0, total_available_nfts, i) matches Some(t) && !t.1
                    &&& spec_can_continue(spec_gas_iter(budget.gas_left, budget.gas_per_iteration, i), budget.gas_per_iteration)
                },
                status == OperationCompletionStatus::InterruptedBeforeOutOfGas
                    ==> !spec_can_continue(spec_gas_iter(budget.gas_left, budget.gas_per_iteration, n), budget.gas_per_iteration),
                *self == (NftState {
                    confirmed_nft_user_list: self.confirmed_nft_user_list,
                    nft_selection_winners: self.nft_selection_winners,
                    ..old_self
                }),
            decreases gas_left,
        {
            let ghost pre = nft_draw_view(self, *rng, winners_selected as int);
            proof {
                n = n + 1;
            }
            let users_left = self.confirmed_nft_user_list.len();
            if users_left == 0 || winners_selected == total_available_nfts {
                status = OperationCompletionStatus::Completed;
                break;
            }
            if users_left == usize::MAX || winners_selected == usize::MAX {
                assert(spec_nft_iterate(v0, total_available_nfts, n) is None);
                proof {
                    assert(spec_nft_iterate(v0, total_available_nfts, (n - 1) as nat) == Some((pre, false)));
                    lemma_nft_fails_at(v0, total_available_nfts, budget.gas_left, budget.gas_per_iteration, n);
                }
                self.confirmed_nft_user_list = saved_list;
                self.nft_selection_winners = saved_winners;
                *rng = saved_rng;
                return Err(LaunchpadError::ArithmeticError);
            }
            let rand_index = rng.next_usize_in_range(1, users_left + 1);
            let winner_addr = self.confirmed_nft_user_list[rand_index - 1];
            proof {
                lemma_swap_remove(self.confirmed_nft_user_list@, winner_addr);
            }
            vec_swap_remove_value(&mut self.confirmed_nft_user_list, winner_addr);
            vec_set_insert(&mut self.nft_selection_winners, winner_addr);
            winners_selected = winners_selected + 1;
            let ghost g0 = gas_left;
            gas_left = gas_after(gas_left, budget.gas_per_iteration);
            if !(gas_left > crate::launchpad_common::ongoing_operation::MIN_GAS_TO_SAVE_PROGRESS
                && gas_left - crate::launchpad_common::ongoing_operation::MIN_GAS_TO_SAVE_PROGRESS > budget.gas_per_iteration) {
                break;
            }
            assert(gas_left < g0);
        }
        gas.gas_left = gas_left;
        assert(spec_nft_ran(
            v0,
            total_available_nfts,
            budget.gas_left,
            budget.gas_per_iteration,
            nft_draw_view(self, *rng, winners_selected as int),
            gas_left,
            status == OperationCompletionStatus::Completed,
        ));
        Ok(status)
    }

    /// Whether a user entered the draw, won or not.
    fn has_user_confirmed_nft(&self, user: Address) -> (r: bool)
        ensures
            r == (self.confirmed_nft_user_list@.contains(user) || self.nft_selection_winners@.contains(user)),
    {
        vec_contains(&self.confirmed_nft_user_list, user) || vec_contains(&self.nft_selection_winners, user)
    }

    /// Whether a user won the draw.
    fn has_user_won_nft(&self, user: Address) -> (r: bool)
        ensures
            r == self.nft_selection_winners@.contains(user),
    {
        vec_contains(&self.nft_selection_winners, user)
    }
}

} // verus!
