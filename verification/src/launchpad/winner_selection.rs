//! The winner selection of the first launchpad: the tickets are filtered as in the
//! later flavours, then a Fisher-Yates shuffle draws the winning tickets.

use vstd::prelude::*;

use crate::launchpad::launch_stage::{Flags, LaunchStageModule};
use crate::launchpad::ongoing_operation::OngoingOperationModule;
use crate::launchpad::setup::spec_ticket_count_u32;
use crate::launchpad::state::EpochLaunchpad;
use crate::launchpad_common::config::CallContext;
use crate::launchpad_common::errors::LaunchpadError;
use crate::launchpad_common::launch_stage::LaunchStage;
use crate::launchpad_common::ongoing_operation::{
    gas_after, spec_can_continue, spec_gas_iter, GasBudget, OngoingOperationType, OperationCompletionStatus,
};
use crate::launchpad_common::random::Random;
use crate::launchpad_common::storage::Address;
use crate::launchpad_common::tickets::FIRST_TICKET_ID;
use crate::launchpad_common::user_interactions::{spec_winning_ids, winning_ids_in_table};
use crate::launchpad_common::winner_selection::{
    filter_batch_step, lemma_filter_fails_at, lemma_filter_iterate_compose, lemma_select_fails_at, lemma_shuffle_iterate_compose,
    not_at_end, shuffle_step, spec_filter_failed, spec_filter_iterate, spec_filter_ran, spec_select_failed, spec_shuffle_iterate,
    spec_shuffle_step,
};

verus! {

/// Whether a call may start or resume the filtering.
pub open spec fn spec_epoch_may_filter(s: &EpochLaunchpad, ctx: CallContext) -> bool {
    &&& s.stage_at(ctx.block_epoch) == LaunchStage::WinnerSelection
    &&& !s.flags.were_tickets_filtered
    &&& s.last_ticket_id < usize::MAX
    &&& (s.current_ongoing_operation is Idle || s.current_ongoing_operation is FilterTickets)
}

/// Where the filtering starts or resumes.
pub open spec fn spec_epoch_filter_start(s: &EpochLaunchpad) -> (usize, usize) {
    match s.current_ongoing_operation {
        OngoingOperationType::FilterTickets { first_ticket_id_in_batch, nr_removed } => (first_ticket_id_in_batch, nr_removed),
        _ => (FIRST_TICKET_ID, 0usize),
    }
}

/// Resumed filtering is one long filtering: when a call stopped for want of gas after
/// `n1` steps, leaving the batches, the ranges and the saved place that those steps
/// reached, then `n2` steps of the next call from that saved place reach what `n1 + n2`
/// steps of one call from the first state reach.
pub proof fn lemma_epoch_resumed_filtering_is_one_filtering(s0: EpochLaunchpad, s1: EpochLaunchpad, n1: nat, n2: nat)
    requires
        s1.nr_confirmed_tickets@ == s0.nr_confirmed_tickets@,
        s1.blacklisted@ == s0.blacklisted@,
        spec_filter_iterate(s0.nr_confirmed_tickets@, s0.blacklisted@, s0.ticket_batch@, s0.ticket_range_for_address@,
            spec_epoch_filter_start(&s0).0, spec_epoch_filter_start(&s0).1, n1) matches Some((bs, rs, f, k))
            && s1.ticket_batch@ == bs && s1.ticket_range_for_address@ == rs
            && s1.current_ongoing_operation == (OngoingOperationType::FilterTickets { first_ticket_id_in_batch: f, nr_removed: k }),
    ensures
        spec_filter_iterate(s1.nr_confirmed_tickets@, s1.blacklisted@, s1.ticket_batch@, s1.ticket_range_for_address@,
            spec_epoch_filter_start(&s1).0, spec_epoch_filter_start(&s1).1, n2)
            == spec_filter_iterate(s0.nr_confirmed_tickets@, s0.blacklisted@, s0.ticket_batch@, s0.ticket_range_for_address@,
            spec_epoch_filter_start(&s0).0, spec_epoch_filter_start(&s0).1, n1 + n2),
{
    lemma_filter_iterate_compose(s0.nr_confirmed_tickets@, s0.blacklisted@, s0.ticket_batch@, s0.ticket_range_for_address@,
        spec_epoch_filter_start(&s0).0, spec_epoch_filter_start(&s0).1, n1, n2);
}

/// Whether a call may start or resume the selection of winners.
pub open spec fn spec_epoch_may_select(s: &EpochLaunchpad, ctx: CallContext) -> bool {
    &&& s.stage_at(ctx.block_epoch) == LaunchStage::WinnerSelection
    &&& s.flags.were_tickets_filtered
    &&& !s.flags.were_winners_selected
    &&& s.last_ticket_id < usize::MAX
    &&& (s.current_ongoing_operation is Idle || s.current_ongoing_operation is SelectWinners)
}

/// Where the selection starts or resumes: the generator and the next position.
pub open spec fn spec_epoch_select_start(s: &EpochLaunchpad, fresh_seed: [u8; 32]) -> (Random, usize) {
    match s.current_ongoing_operation {
        OngoingOperationType::SelectWinners { rng, ticket_position } => (rng, ticket_position),
        _ => (Random { seed: fresh_seed, index: 0 }, FIRST_TICKET_ID),
    }
}

/// Resumed selection is one long selection: when a call stopped for want of gas after
/// `n1` draws, leaving the ticket tables and the generator and position that those draws
/// reached, then `n2` draws of the next call from that saved place reach what `n1 + n2`
/// draws of one call from the first state reach.
pub proof fn lemma_epoch_resumed_selection_is_one_selection(
    s0: EpochLaunchpad,
    s1: EpochLaunchpad,
    fresh_seed0: [u8; 32],
    fresh_seed1: [u8; 32],
    n1: nat,
    n2: nat,
)
    requires
        s1.last_ticket_id == s0.last_ticket_id,
        spec_epoch_select_start(&s0, fresh_seed0).1 + n1 + n2 <= usize::MAX + 1,
        ({
            let (rng0, p0) = spec_epoch_select_start(&s0, fresh_seed0);
            let (st, pm, sd, ix) = spec_shuffle_iterate(s0.ticket_status@, s0.ticket_pos_to_id@, rng0.seed@, rng0.index as int,
                p0, s0.last_ticket_id, n1);
            &&& s1.ticket_status@ == st
            &&& s1.ticket_pos_to_id@ == pm
            &&& s1.current_ongoing_operation matches OngoingOperationType::SelectWinners { rng, ticket_position }
                && rng.seed@ == sd && rng.index == ix && ticket_position == p0 + n1
        }),
    ensures
        ({
            let (rng0, p0) = spec_epoch_select_start(&s0, fresh_seed0);
            let (rng1, p1) = spec_epoch_select_start(&s1, fresh_seed1);
            spec_shuffle_iterate(s1.ticket_status@, s1.ticket_pos_to_id@, rng1.seed@, rng1.index as int, p1, s1.last_ticket_id, n2)
                == spec_shuffle_iterate(s0.ticket_status@, s0.ticket_pos_to_id@, rng0.seed@, rng0.index as int, p0, s0.last_ticket_id,
                n1 + n2)
        }),
{
    let (rng0, p0) = spec_epoch_select_start(&s0, fresh_seed0);
    lemma_shuffle_iterate_compose(s0.ticket_status@, s0.ticket_pos_to_id@, rng0.seed@, rng0.index as int, p0, s0.last_ticket_id, n1, n2);
}

impl EpochLaunchpad {
    /// A user's winning ticket ids, once winners are selected.
    pub open spec fn winning_ids_for_address(&self, address: Address) -> Seq<usize> {
        if !self.flags.were_winners_selected || !self.ticket_range_for_address@.contains_key(address) {
            seq![]
        } else {
            let r = self.ticket_range_for_address@[address];
            spec_winning_ids(self.ticket_status@, r.first_id as int, r.last_id as int)
        }
    }
}

/// The winner selection.
pub trait WinnerSelectionModule {
    /// The ticket tables hold well-formed ranges and room for one more id.
    spec fn selection_wf(&self) -> bool;

    fn filter_tickets(&mut self, ctx: &CallContext, gas: GasBudget) -> Result<OperationCompletionStatus, LaunchpadError>
        requires
            gas.gas_per_iteration > 0,
    ;

    fn select_winners(&mut self, ctx: &CallContext, gas: GasBudget, fresh_seed: [u8; 32]) -> Result<OperationCompletionStatus, LaunchpadError>
        requires
            gas.gas_per_iteration > 0,
    ;

    fn shuffle_single_ticket(&mut self, rng: &mut Random, current_ticket_position: usize, last_ticket_position: usize)
        requires
            last_ticket_position < usize::MAX,
    ;

    fn get_winning_ticket_ids_for_address(&self, address: Address) -> Vec<usize>
        requires
            self.selection_wf(),
    ;

    fn get_number_of_winning_tickets_for_address(&self, address: Address) -> usize
        requires
            self.selection_wf(),
    ;
}

impl WinnerSelectionModule for EpochLaunchpad {
    open spec fn selection_wf(&self) -> bool {
        self.wf()
    }

    /// Runs the filtering while the gas lasts, from where it stopped: the batches of
    /// blacklisted users and of users who confirmed nothing are dropped, the others keep
    /// only their confirmed tickets and move down over the dropped ones.
    fn filter_tickets(&mut self, ctx: &CallContext, gas: GasBudget) -> (r: Result<OperationCompletionStatus, LaunchpadError>)
        ensures
            !spec_epoch_may_filter(old(self), *ctx) ==> r is Err,
            old(self).stage_at(ctx.block_epoch) != LaunchStage::WinnerSelection
                ==> r == Err::<OperationCompletionStatus, _>(LaunchpadError::NotInWinnerSelectionPeriod),
            old(self).stage_at(ctx.block_epoch) == LaunchStage::WinnerSelection && old(self).flags.were_tickets_filtered
                ==> r == Err::<OperationCompletionStatus, _>(LaunchpadError::TicketsAlreadyFiltered),
            old(self).stage_at(ctx.block_epoch) == LaunchStage::WinnerSelection && !old(self).flags.were_tickets_filtered
                && old(self).last_ticket_id < usize::MAX
                && (old(self).current_ongoing_operation is SelectWinners || old(self).current_ongoing_operation is AdditionalSelection)
                ==> r == Err::<OperationCompletionStatus, _>(LaunchpadError::AnotherOperationInProgress),
            spec_epoch_may_filter(old(self), *ctx) && r is Err ==> r == Err::<OperationCompletionStatus, _>(LaunchpadError::ArithmeticError)
                && spec_filter_failed(
                    old(self).nr_confirmed_tickets@,
                    old(self).blacklisted@,
                    old(self).ticket_batch@,
                    old(self).ticket_range_for_address@,
                    spec_epoch_filter_start(old(self)).0,
                    spec_epoch_filter_start(old(self)).1,
                    old(self).last_ticket_id,
                    gas.gas_left,
                    gas.gas_per_iteration,
                ),
            r is Err ==> *final(self) == *old(self),
            r is Ok ==> spec_epoch_may_filter(old(self), *ctx),
            r matches Ok(status) ==> {
                let (f0, k0) = spec_epoch_filter_start(old(self));
                let last = old(self).last_ticket_id;
                let conf = old(self).nr_confirmed_tickets@;
                let bl = old(self).blacklisted@;
                exists|n: nat| #![trigger spec_filter_iterate(conf, bl, old(self).ticket_batch@, old(self).ticket_range_for_address@, f0, k0, n)]
                    n >= 1 && spec_filter_ran(conf, bl, old(self).ticket_batch@, old(self).ticket_range_for_address@, f0, k0, last, n) && {
                    let (bs, rs, f, k) = spec_filter_iterate(conf, bl, old(self).ticket_batch@, old(self).ticket_range_for_address@, f0, k0, n).unwrap();
                    let flags = Flags {
                        has_winner_selection_process_started: old(self).flags.has_winner_selection_process_started || f0 == FIRST_TICKET_ID,
                        ..old(self).flags
                    };
                    &&& final(self).ticket_batch@ == bs
                    &&& final(self).ticket_range_for_address@ == rs
                    &&& (status == OperationCompletionStatus::Completed <==> f == last + 1)
                    &&& forall|i: nat| 1 <= i < n ==> spec_can_continue(#[trigger] spec_gas_iter(gas.gas_left, gas.gas_per_iteration, i), gas.gas_per_iteration)
                    &&& status == OperationCompletionStatus::InterruptedBeforeOutOfGas
                        ==> !spec_can_continue(spec_gas_iter(gas.gas_left, gas.gas_per_iteration, n), gas.gas_per_iteration)
                    &&& status == OperationCompletionStatus::Completed ==> {
                        let new_last = (last - k) as usize;
                        &&& k <= last
                        &&& *final(self) == (EpochLaunchpad {
                            ticket_batch: final(self).ticket_batch,
                            ticket_range_for_address: final(self).ticket_range_for_address,
                            last_ticket_id: new_last,
                            nr_winning_tickets: if old(self).nr_winning_tickets > new_last { new_last } else { old(self).nr_winning_tickets },
                            flags: Flags { were_tickets_filtered: true, ..flags },
                            current_ongoing_operation: OngoingOperationType::Idle,
                            ..*old(self)
                        })
                    }
                    &&& status == OperationCompletionStatus::InterruptedBeforeOutOfGas ==> *final(self) == (EpochLaunchpad {
                        ticket_batch: final(self).ticket_batch,
                        ticket_range_for_address: final(self).ticket_range_for_address,
                        flags,
                        current_ongoing_operation: OngoingOperationType::FilterTickets { first_ticket_id_in_batch: f, nr_removed: k },
                        ..*old(self)
                    })
                }
            },
    {
        self.require_winner_selection_period(ctx.block_epoch)?;
        let mut flags = self.flags;
        if flags.were_tickets_filtered {
            return Err(LaunchpadError::TicketsAlreadyFiltered);
        }
        let last_ticket_id = self.last_ticket_id;
        if last_ticket_id == usize::MAX {
            return Err(LaunchpadError::ArithmeticError);
        }
        let (first0, removed0) = self.load_filter_tickets_operation()?;
        let mut first_ticket_id_in_batch = first0;
        let mut nr_removed = removed0;
        if first_ticket_id_in_batch == FIRST_TICKET_ID {
            flags.has_winner_selection_process_started = true;
        }
        let mut batches = self.ticket_batch.clone();
        let mut ranges = self.ticket_range_for_address.clone();
        let ghost b0 = batches@;
        let ghost r0 = ranges@;
        let ghost conf = self.nr_confirmed_tickets@;
        let ghost bl = self.blacklisted@;
        let mut gas_left = gas.gas_left;
        let ghost mut n: nat = 0;
        let mut status = OperationCompletionStatus::InterruptedBeforeOutOfGas;
        loop
            invariant_except_break
                gas.gas_per_iteration > 0,
                *self == *old(self),
                spec_epoch_may_filter(self, *ctx),
                conf == self.nr_confirmed_tickets@,
                bl == self.blacklisted@,
                self.stage_at(ctx.block_epoch) == LaunchStage::WinnerSelection,
                !self.flags.were_tickets_filtered,
                last_ticket_id == self.last_ticket_id,
                last_ticket_id < usize::MAX,
                spec_filter_iterate(conf, bl, b0, r0, first0, removed0, n) == Some((batches@, ranges@, first_ticket_id_in_batch, nr_removed)),
                forall|i: nat| 1 <= i <= n ==> not_at_end(#[trigger] spec_filter_iterate(conf, bl, b0, r0, first0, removed0, i), last_ticket_id),
                status == OperationCompletionStatus::InterruptedBeforeOutOfGas,
                n == 0 || spec_can_continue(gas_left, gas.gas_per_iteration),
                b0 == self.ticket_batch@,
                r0 == self.ticket_range_for_address@,
                (first0, removed0) == spec_epoch_filter_start(self),
                gas_left == spec_gas_iter(gas.gas_left, gas.gas_per_iteration, n),
                forall|i: nat| 1 <= i <= n ==> spec_can_continue(#[trigger] spec_gas_iter(gas.gas_left, gas.gas_per_iteration, i), gas.gas_per_iteration),
            ensures
                *self == *old(self),
                n >= 1,
                spec_filter_ran(conf, bl, b0, r0, first0, removed0, last_ticket_id, n),
                spec_filter_iterate(conf, bl, b0, r0, first0, removed0, n) == Some((batches@, ranges@, first_ticket_id_in_batch, nr_removed)),
                status == OperationCompletionStatus::Completed <==> first_ticket_id_in_batch == last_ticket_id + 1,
                forall|i: nat| 1 <= i < n ==> spec_can_continue(#[trigger] spec_gas_iter(gas.gas_left, gas.gas_per_iteration, i), gas.gas_per_iteration),
                status == OperationCompletionStatus::InterruptedBeforeOutOfGas
                    ==> !spec_can_continue(spec_gas_iter(gas.gas_left, gas.gas_per_iteration, n), gas.gas_per_iteration),
            decreases gas_left,
        {
            match filter_batch_step(&mut batches, &mut ranges, &self.nr_confirmed_tickets, &self.blacklisted, first_ticket_id_in_batch, nr_removed) {
                None => {
                    proof {
                        lemma_filter_fails_at(conf, bl, b0, r0, first0, removed0, last_ticket_id, gas.gas_left, gas.gas_per_iteration, n + 1);
                    }
                    return Err(LaunchpadError::ArithmeticError);
                },
                Some((f, k)) => {
                    first_ticket_id_in_batch = f;
                    nr_removed = k;
                },
            }
            proof {
                n = n + 1;
            }
            let ghost g0 = gas_left;
            gas_left = gas_after(gas_left, gas.gas_per_iteration);
            if first_ticket_id_in_batch == last_ticket_id + 1 {
                status = OperationCompletionStatus::Completed;
                break;
            }
            if !self.can_continue_operation(gas_left, gas.gas_per_iteration) {
                break;
            }
            assert(gas_left < g0);
        }
        match status {
            OperationCompletionStatus::InterruptedBeforeOutOfGas => {
                self.ticket_batch = batches;
                self.ticket_range_for_address = ranges;
                self.save_progress(OngoingOperationType::FilterTickets { first_ticket_id_in_batch, nr_removed });
            },
            OperationCompletionStatus::Completed => {
                if nr_removed > last_ticket_id {
                    proof {
                        lemma_filter_fails_at(conf, bl, b0, r0, first0, removed0, last_ticket_id, gas.gas_left, gas.gas_per_iteration, n);
                    }
                    return Err(LaunchpadError::ArithmeticError);
                }
                let new_last_ticket_id = last_ticket_id - nr_removed;
                if self.nr_winning_tickets > new_last_ticket_id {
                    self.nr_winning_tickets = new_last_ticket_id;
                }
                self.ticket_batch = batches;
                self.ticket_range_for_address = ranges;
                self.last_ticket_id = new_last_ticket_id;
                flags.were_tickets_filtered = true;
                self.clear_operation();
            },
        }
        self.flags = flags;
        proof {
            assert(spec_epoch_filter_start(old(self)) == (first0, removed0));
            assert(b0 == old(self).ticket_batch@);
            assert(r0 == old(self).ticket_range_for_address@);
            assert(spec_filter_iterate(conf, bl, b0, r0, first0, removed0, n) == Some((batches@, ranges@, first_ticket_id_in_batch, nr_removed)));
        }
        Ok(status)
    }

    /// Runs the shuffle while the gas lasts, from where it stopped, until the last
    /// winning position is drawn; then the winning tickets' payment can be claimed.
    fn select_winners(&mut self, ctx: &CallContext, gas: GasBudget, fresh_seed: [u8; 32]) -> (r: Result<OperationCompletionStatus, LaunchpadError>)
        ensures
            !spec_epoch_may_select(old(self), *ctx) ==> r is Err,
            old(self).stage_at(ctx.block_epoch) != LaunchStage::WinnerSelection
                ==> r == Err::<OperationCompletionStatus, _>(LaunchpadError::NotInWinnerSelectionPeriod),
            old(self).stage_at(ctx.block_epoch) == LaunchStage::WinnerSelection && !old(self).flags.were_tickets_filtered
                ==> r == Err::<OperationCompletionStatus, _>(LaunchpadError::MustFilterFirst),
            old(self).stage_at(ctx.block_epoch) == LaunchStage::WinnerSelection && old(self).flags.were_tickets_filtered
                && old(self).flags.were_winners_selected ==> r == Err::<OperationCompletionStatus, _>(LaunchpadError::WinnersAlreadySelected),
            old(self).stage_at(ctx.block_epoch) == LaunchStage::WinnerSelection && old(self).flags.were_tickets_filtered
                && !old(self).flags.were_winners_selected && old(self).last_ticket_id < usize::MAX
                && (old(self).current_ongoing_operation is FilterTickets || old(self).current_ongoing_operation is AdditionalSelection)
                ==> r == Err::<OperationCompletionStatus, _>(LaunchpadError::AnotherOperationInProgress),
            spec_epoch_may_select(old(self), *ctx) && r is Err ==> r == Err::<OperationCompletionStatus, _>(LaunchpadError::ArithmeticError)
                && spec_select_failed(
                    spec_epoch_select_start(old(self), fresh_seed).1,
                    old(self).nr_winning_tickets,
                    old(self).ticket_price.amount * spec_ticket_count_u32(old(self).nr_winning_tickets),
                    gas.gas_left,
                    gas.gas_per_iteration,
                ),
            r is Err ==> *final(self) == *old(self),
            r is Ok ==> spec_epoch_may_select(old(self), *ctx),
            r matches Ok(status) ==> {
                let (rng0, p0) = spec_epoch_select_start(old(self), fresh_seed);
                let last = old(self).last_ticket_id;
                let w = old(self).nr_winning_tickets;
                exists|n: nat| #![trigger spec_shuffle_iterate(old(self).ticket_status@, old(self).ticket_pos_to_id@, rng0.seed@, rng0.index as int, p0, last, n)]
                    n >= 1 && !(p0 <= w < p0 + n - 1) && {
                    let (st, pm, sd, ix) = spec_shuffle_iterate(old(self).ticket_status@, old(self).ticket_pos_to_id@, rng0.seed@, rng0.index as int, p0, last, n);
                    &&& final(self).ticket_status@ == st
                    &&& final(self).ticket_pos_to_id@ == pm
                    &&& (status == OperationCompletionStatus::Completed <==> p0 + n - 1 == w)
                    &&& forall|i: nat| 1 <= i < n ==> spec_can_continue(#[trigger] spec_gas_iter(gas.gas_left, gas.gas_per_iteration, i), gas.gas_per_iteration)
                    &&& status == OperationCompletionStatus::InterruptedBeforeOutOfGas
                        ==> !spec_can_continue(spec_gas_iter(gas.gas_left, gas.gas_per_iteration, n), gas.gas_per_iteration)
                    &&& status == OperationCompletionStatus::Completed ==> *final(self) == (EpochLaunchpad {
                        ticket_status: final(self).ticket_status,
                        ticket_pos_to_id: final(self).ticket_pos_to_id,
                        claimable_ticket_payment: (old(self).ticket_price.amount * spec_ticket_count_u32(w)) as u128,
                        flags: Flags { were_winners_selected: true, ..old(self).flags },
                        current_ongoing_operation: OngoingOperationType::Idle,
                        ..*old(self)
                    })
                    &&& status == OperationCompletionStatus::InterruptedBeforeOutOfGas ==> {
                        &&& final(self).current_ongoing_operation matches OngoingOperationType::SelectWinners { rng, ticket_position }
                            && rng.seed@ == sd && rng.index == ix && ticket_position == p0 + n
                        &&& *final(self) == (EpochLaunchpad {
                            ticket_status: final(self).ticket_status,
                            ticket_pos_to_id: final(self).ticket_pos_to_id,
                            current_ongoing_operation: final(self).current_ongoing_operation,
                            ..*old(self)
                        })
                    }
                }
            },
    {
        self.require_winner_selection_period(ctx.block_epoch)?;
        let mut flags = self.flags;
        if !flags.were_tickets_filtered {
            return Err(LaunchpadError::MustFilterFirst);
        }
        if flags.were_winners_selected {
            return Err(LaunchpadError::WinnersAlreadySelected);
        }
        let nr_winning_tickets = self.nr_winning_tickets;
        let last_ticket_position = self.last_ticket_id;
        if last_ticket_position == usize::MAX {
            return Err(LaunchpadError::ArithmeticError);
        }
        let (rng0, pos0) = self.load_select_winners_operation(fresh_seed)?;
        let mut rng = rng0;
        let mut ticket_position = pos0;
        let mut status_map = self.ticket_status.clone();
        let mut pos_map = self.ticket_pos_to_id.clone();
        let ghost st0 = status_map@;
        let ghost pm0 = pos_map@;
        let mut gas_left = gas.gas_left;
        let ghost mut n: nat = 0;
        let mut status = OperationCompletionStatus::InterruptedBeforeOutOfGas;
        loop
            invariant_except_break
                gas.gas_per_iteration > 0,
                *self == *old(self),
                spec_epoch_may_select(self, *ctx),
                last_ticket_position == self.last_ticket_id,
                last_ticket_position < usize::MAX,
                self.stage_at(ctx.block_epoch) == LaunchStage::WinnerSelection,
                self.flags.were_tickets_filtered && !self.flags.were_winners_selected,
                nr_winning_tickets == self.nr_winning_tickets,
                ticket_position == pos0 + n,
                ({
                    let (st, pm, sd, ix) = spec_shuffle_iterate(st0, pm0, rng0.seed@, rng0.index as int, pos0, last_ticket_position, n);
                    &&& status_map@ == st
                    &&& pos_map@ == pm
                    &&& rng.seed@ == sd
                    &&& rng.index == ix
                }),
                !(pos0 <= nr_winning_tickets < pos0 + n),
                status == OperationCompletionStatus::InterruptedBeforeOutOfGas,
                n == 0 || spec_can_continue(gas_left, gas.gas_per_iteration),
                (rng0, pos0) == spec_epoch_select_start(self, fresh_seed),
                gas_left == spec_gas_iter(gas.gas_left, gas.gas_per_iteration, n),
                forall|i: nat| 1 <= i <= n ==> spec_can_continue(#[trigger] spec_gas_iter(gas.gas_left, gas.gas_per_iteration, i), gas.gas_per_iteration),
            ensures
                *self == *old(self),
                n >= 1,
                !(pos0 <= nr_winning_tickets < pos0 + n - 1),
                ({
                    let (st, pm, sd, ix) = spec_shuffle_iterate(st0, pm0, rng0.seed@, rng0.index as int, pos0, last_ticket_position, n);
                    &&& status_map@ == st
                    &&& pos_map@ == pm
                    &&& rng.seed@ == sd
                    &&& rng.index == ix
                }),
                status == OperationCompletionStatus::Completed <==> pos0 + n - 1 == nr_winning_tickets,
                status == OperationCompletionStatus::InterruptedBeforeOutOfGas ==> ticket_position == pos0 + n,
                forall|i: nat| 1 <= i < n ==> spec_can_continue(#[trigger] spec_gas_iter(gas.gas_left, gas.gas_per_iteration, i), gas.gas_per_iteration),
                status == OperationCompletionStatus::InterruptedBeforeOutOfGas
                    ==> !spec_can_continue(spec_gas_iter(gas.gas_left, gas.gas_per_iteration, n), gas.gas_per_iteration),
            decreases gas_left,
        {
            shuffle_step(&mut status_map, &mut pos_map, &mut rng, ticket_position, last_ticket_position);
            proof {
                n = n + 1;
            }
            let ghost g0 = gas_left;
            gas_left = gas_after(gas_left, gas.gas_per_iteration);
            if ticket_position == nr_winning_tickets {
                status = OperationCompletionStatus::Completed;
                break;
            }
            if ticket_position == usize::MAX {
                proof {
                    lemma_select_fails_at(pos0, nr_winning_tickets, self.ticket_price.amount * spec_ticket_count_u32(nr_winning_tickets),
                        gas.gas_left, gas.gas_per_iteration, n);
                }
                return Err(LaunchpadError::ArithmeticError);
            }
            ticket_position = ticket_position + 1;
            if !self.can_continue_operation(gas_left, gas.gas_per_iteration) {
                break;
            }
            assert(gas_left < g0);
        }
        match status {
            OperationCompletionStatus::InterruptedBeforeOutOfGas => {
                self.ticket_status = status_map;
                self.ticket_pos_to_id = pos_map;
                self.save_progress(OngoingOperationType::SelectWinners { rng, ticket_position });
            },
            OperationCompletionStatus::Completed => {
                let count = ((nr_winning_tickets as u64) % 0x1_0000_0000) as u128;
                let claimable_ticket_payment = match self.ticket_price.amount.checked_mul(count) {
                    Some(a) => a,
                    None => {
                        proof {
                            lemma_select_fails_at(pos0, nr_winning_tickets, self.ticket_price.amount * spec_ticket_count_u32(nr_winning_tickets),
                                gas.gas_left, gas.gas_per_iteration, n);
                        }
                        return Err(LaunchpadError::ArithmeticError);
                    },
                };
                self.claimable_ticket_payment = claimable_ticket_payment;
                self.ticket_status = status_map;
                self.ticket_pos_to_id = pos_map;
                flags.were_winners_selected = true;
                self.clear_operation();
            },
        }
        self.flags = flags;
        proof {
            assert(spec_epoch_select_start(old(self), fresh_seed) == (rng0, pos0));
            assert(st0 == old(self).ticket_status@);
            assert(pm0 == old(self).ticket_pos_to_id@);
        }
        Ok(status)
    }

    /// Fisher-Yates: the ticket at a random position in `current..=last` wins, and the
    /// ticket at the current position takes its place.
    fn shuffle_single_ticket(&mut self, rng: &mut Random, current_ticket_position: usize, last_ticket_position: usize)
        ensures
            ({
                let (st, pm, sd, ix) = spec_shuffle_step(old(self).ticket_status@, old(self).ticket_pos_to_id@, old(rng).seed@,
                    old(rng).index as int, current_ticket_position, last_ticket_position);
                &&& final(self).ticket_status@ == st
                &&& final(self).ticket_pos_to_id@ == pm
                &&& final(rng).seed@ == sd
                &&& final(rng).index == ix
                &&& *final(self) == (EpochLaunchpad {
                    ticket_status: final(self).ticket_status,
                    ticket_pos_to_id: final(self).ticket_pos_to_id,
                    ..*old(self)
                })
            }),
    {
        shuffle_step(&mut self.ticket_status, &mut self.ticket_pos_to_id, rng, current_ticket_position, last_ticket_position);
    }

    /// A user's winning ticket ids, once winners are selected; none before.
    fn get_winning_ticket_ids_for_address(&self, address: Address) -> (r: Vec<usize>)
        ensures
            r@ == self.winning_ids_for_address(address),
    {
        if !self.flags.were_winners_selected {
            return Vec::new();
        }
        match self.ticket_range_for_address.get(&address) {
            Some(range) => winning_ids_in_table(&self.ticket_status, *range),
            None => Vec::new(),
        }
    }

    /// How many winning tickets a user holds, once winners are selected.
    fn get_number_of_winning_tickets_for_address(&self, address: Address) -> (r: usize)
        ensures
            r == self.winning_ids_for_address(address).len(),
    {
        self.get_winning_ticket_ids_for_address(address).len()
    }
}

} // verus!
