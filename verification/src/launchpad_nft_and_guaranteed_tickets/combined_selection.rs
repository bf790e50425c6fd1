//! The secondary selection: first the guaranteed tickets are given and the left-over
//! ones drawn, then the NFT winners are drawn; each phase runs while the gas lasts and
//! the whole is saved between calls.

use vstd::prelude::*;

use crate::launchpad_common::config::{CallContext, LaunchpadState};
use crate::launchpad_common::errors::LaunchpadError;
use crate::launchpad_common::storage::Address;
use crate::launchpad_common::launch_stage::{Flags, LaunchStage, LaunchStageModule};
use crate::launchpad_common::ongoing_operation::{GasBudget, OngoingOperationModule, OngoingOperationType, OperationCompletionStatus};
use crate::launchpad_common::random::{lemma_random_round_trip, spec_decode_random, spec_encode_random, Random};
use crate::launchpad_guaranteed_tickets::guaranteed_ticket_winners::{
    spec_v1_leftover_failed, spec_v1_leftover_ran, spec_v1_select_failed, spec_v1_select_ran, GuaranteedTicketWinnersModule,
};
use crate::launchpad_guaranteed_tickets::state::GuaranteedTicketsLaunchpadV1;
use crate::launchpad_guaranteed_tickets_v2::guaranteed_ticket_winners::{
    lemma_operation_round_trip, op_view, spec_decode_operation, spec_encode_operation, GuaranteedTicketsSelectionOperation,
    SelectionView,
};
use crate::launchpad_nft_and_guaranteed_tickets::state::NftAndGuaranteedLaunchpad;
use crate::launchpad_with_nft::nft_winners_selection::{nft_draw_view, spec_nft_failed, spec_nft_ran, NftDrawView, NftWinnersSelectionModule};
use crate::launchpad_with_nft::state::NftState;

verus! {

/// Where the secondary selection stands: giving the guaranteed tickets, or drawing the
/// NFT winners.
#[derive(Debug, Clone, Copy)]
pub enum CombinedSelectionStep {
    GuaranteedTicketsDistribution { op: GuaranteedTicketsSelectionOperation },
    NftSelection { rng: Random },
}

impl CombinedSelectionStep {
    /// The start: giving the guaranteed tickets with a fresh operation.
    pub fn default(fresh_seed: [u8; 32]) -> (r: CombinedSelectionStep)
        ensures
            r matches CombinedSelectionStep::GuaranteedTicketsDistribution { op } && op_view(op) == (fresh_seed@, 0int, 0usize, 1usize, 0usize),
    {
        CombinedSelectionStep::GuaranteedTicketsDistribution { op: GuaranteedTicketsSelectionOperation::default(fresh_seed) }
    }
}

/// The bytes under which a step is saved: a tag, then the operation or the generator.
pub open spec fn spec_encode_step(s: CombinedSelectionStep) -> Seq<u8> {
    match s {
        CombinedSelectionStep::GuaranteedTicketsDistribution { op } => seq![0u8] + spec_encode_operation(op),
        CombinedSelectionStep::NftSelection { rng } => seq![1u8] + spec_encode_random(rng),
    }
}

/// Whether some bytes hold a step.
pub open spec fn spec_step_decodes(b: Seq<u8>) -> bool {
    b.len() > 0 && ((b[0] == 0 && spec_decode_operation(b.skip(1)) is Some) || (b[0] == 1 && spec_decode_random(b.skip(1)) is Some))
}

/// A saved step is read back as it was: the same phase, with the same operation or
/// generator, when its counts fit in 32 bits.
pub proof fn lemma_step_round_trip(s: CombinedSelectionStep)
    requires
        match s {
            CombinedSelectionStep::GuaranteedTicketsDistribution { op } => op.rng.index <= u32::MAX
                && op.leftover_tickets <= u32::MAX && op.leftover_ticket_pos_offset <= u32::MAX
                && op.total_additional_winning_tickets <= u32::MAX,
            CombinedSelectionStep::NftSelection { rng } => rng.index <= u32::MAX,
        },
    ensures
        spec_step_decodes(spec_encode_step(s)),
        spec_encode_step(s)[0] == 0 <==> s is GuaranteedTicketsDistribution,
        s matches CombinedSelectionStep::GuaranteedTicketsDistribution { op } ==> spec_decode_operation(spec_encode_step(s).skip(1))
            == Some((
                op.rng.seed@,
                op.rng.index as int,
                op.leftover_tickets as int,
                op.leftover_ticket_pos_offset as int,
                op.total_additional_winning_tickets as int,
            )),
        s matches CombinedSelectionStep::NftSelection { rng } ==> spec_decode_random(spec_encode_step(s).skip(1))
            == Some((rng.seed@, rng.index as int)),
{
    match s {
        CombinedSelectionStep::GuaranteedTicketsDistribution { op } => {
            assert(spec_encode_step(s).skip(1) =~= spec_encode_operation(op));
            lemma_operation_round_trip(op);
        },
        CombinedSelectionStep::NftSelection { rng } => {
            assert(spec_encode_step(s).skip(1) =~= spec_encode_random(rng));
            lemma_random_round_trip(rng);
        },
    }
}

/// Copies the bytes after the first.
fn tail_bytes(b: &Vec<u8>) -> (r: Vec<u8>)
    requires
        b@.len() > 0,
    ensures
        r@ == b@.skip(1),
{
    let mut out: Vec<u8> = Vec::new();
    let mut i: usize = 1;
    while i < b.len()
        invariant
            1 <= i <= b@.len(),
            out@ == b@.subrange(1, i as int),
        decreases b.len() - i,
    {
        out.push(b[i]);
        i = i + 1;
        assert(out@ =~= b@.subrange(1, i as int));
    }
    assert(b@.subrange(1, b@.len() as int) =~= b@.skip(1));
    out
}

impl CombinedSelectionStep {
    /// The bytes under which the step is saved between calls.
    pub fn encode(&self) -> (r: Vec<u8>)
        ensures
            r@ == spec_encode_step(*self),
    {
        let mut out: Vec<u8> = Vec::new();
        match self {
            CombinedSelectionStep::GuaranteedTicketsDistribution { op } => {
                out.push(0u8);
                let mut body = op.encode();
                out.append(&mut body);
            },
            CombinedSelectionStep::NftSelection { rng } => {
                out.push(1u8);
                let mut body = rng.encode();
                out.append(&mut body);
            },
        }
        assert(out@ =~= spec_encode_step(*self));
        out
    }

    /// The step saved under some bytes; refused unless they hold one.
    pub fn decode(data: &Vec<u8>) -> (r: Result<CombinedSelectionStep, LaunchpadError>)
        ensures
            r is Err <==> !spec_step_decodes(data@),
            r is Err ==> r == Err::<CombinedSelectionStep, _>(LaunchpadError::InvalidOperationData),
            r matches Ok(step) ==> match step {
                CombinedSelectionStep::GuaranteedTicketsDistribution { op } => data@[0] == 0
                    && spec_decode_operation(data@.skip(1)) == Some((
                        op.rng.seed@,
                        op.rng.index as int,
                        op.leftover_tickets as int,
                        op.leftover_ticket_pos_offset as int,
                        op.total_additional_winning_tickets as int,
                    )),
                CombinedSelectionStep::NftSelection { rng } => data@[0] == 1
                    && spec_decode_random(data@.skip(1)) == Some((rng.seed@, rng.index as int)),
            },
    {
        if data.len() == 0 {
            return Err(LaunchpadError::InvalidOperationData);
        }
        let tag = data[0];
        let body = tail_bytes(data);
        if tag == 0 {
            let op = GuaranteedTicketsSelectionOperation::decode(&body)?;
            Ok(CombinedSelectionStep::GuaranteedTicketsDistribution { op })
        } else if tag == 1 {
            let rng = Random::decode(&body)?;
            Ok(CombinedSelectionStep::NftSelection { rng })
        } else {
            Err(LaunchpadError::InvalidOperationData)
        }
    }
}

/// What a run of the guaranteed phase did: the top tier's tickets were given, and, once
/// that was done, the left-over tickets drawn; once both were done, the added winning
/// tickets were paid for and counted as winning.
pub open spec fn spec_guaranteed_substep(
    old: &GuaranteedTicketsLaunchpadV1,
    new: &GuaranteedTicketsLaunchpadV1,
    op0: GuaranteedTicketsSelectionOperation,
    op: GuaranteedTicketsSelectionOperation,
    gas0: u64,
    cost: u64,
    gas: u64,
    completed: bool,
) -> bool {
    exists|st1: Map<usize, bool>, op1: GuaranteedTicketsSelectionOperation, g1: u64, completed1: bool| {
        &&& #[trigger] spec_v1_select_ran(
            old.max_tier_users@,
            old.base.ticket_status@,
            op0,
            old.base.nr_confirmed_tickets@,
            old.base.ticket_range_for_address@,
            old.max_tier_tickets,
            gas0,
            cost,
            new.max_tier_users@,
            st1,
            op1,
            g1,
            completed1,
        )
        &&& !completed1 ==> !completed && op == op1 && gas == g1 && new.base.ticket_status@ == st1
            && new.base.ticket_pos_to_id@ == old.base.ticket_pos_to_id@
            && *new == (GuaranteedTicketsLaunchpadV1 {
                base: LaunchpadState { ticket_status: new.base.ticket_status, ticket_pos_to_id: new.base.ticket_pos_to_id, ..old.base },
                max_tier_users: new.max_tier_users,
                ..*old
            })
        &&& completed1 ==> spec_v1_leftover_ran(
            st1,
            old.base.ticket_pos_to_id@,
            op_view(op1),
            old.base.nr_winning_tickets,
            old.base.last_ticket_id,
            g1,
            cost,
            new.base.ticket_status@,
            new.base.ticket_pos_to_id@,
            op_view(op),
            gas,
            completed,
        ) && *new == (GuaranteedTicketsLaunchpadV1 {
            base: LaunchpadState {
                ticket_status: new.base.ticket_status,
                ticket_pos_to_id: new.base.ticket_pos_to_id,
                claimable_ticket_payment: if completed {
                    (old.base.claimable_ticket_payment + old.base.ticket_price.amount * op.total_additional_winning_tickets) as u128
                } else {
                    old.base.claimable_ticket_payment
                },
                nr_winning_tickets: if completed {
                    (old.base.nr_winning_tickets + op.total_additional_winning_tickets) as usize
                } else {
                    old.base.nr_winning_tickets
                },
                ..old.base
            },
            max_tier_users: new.max_tier_users,
            ..*old
        })
    }
}

/// Paying for `added` more winning tickets, and counting them, leaves the integers.
pub open spec fn spec_added_winners_overflow(base: &LaunchpadState, added: usize) -> bool {
    ||| base.ticket_price.amount * added > u128::MAX
    ||| base.claimable_ticket_payment + base.ticket_price.amount * added > u128::MAX
    ||| base.nr_winning_tickets + added > usize::MAX
}

/// Why the guaranteed phase is refused: the giving of the guaranteed tickets fails with
/// `e`; or it finishes and the draw of the left-over tickets fails; or both finish and
/// paying for the added winning tickets leaves the integers.
pub open spec fn spec_guaranteed_substep_failed(
    old: &GuaranteedTicketsLaunchpadV1,
    op0: GuaranteedTicketsSelectionOperation,
    gas0: u64,
    cost: u64,
    e: LaunchpadError,
) -> bool {
    ||| spec_v1_select_failed(
        old.max_tier_users@,
        old.base.ticket_status@,
        op0,
        old.base.nr_confirmed_tickets@,
        old.base.ticket_range_for_address@,
        old.max_tier_tickets,
        gas0,
        cost,
        e,
    )
    ||| e == LaunchpadError::ArithmeticError && exists|ws1: Seq<Address>, st1: Map<usize, bool>, op1: GuaranteedTicketsSelectionOperation, g1: u64| {
        &&& #[trigger] spec_v1_select_ran(
            old.max_tier_users@,
            old.base.ticket_status@,
            op0,
            old.base.nr_confirmed_tickets@,
            old.base.ticket_range_for_address@,
            old.max_tier_tickets,
            gas0,
            cost,
            ws1,
            st1,
            op1,
            g1,
            true,
        )
        &&& {
            ||| spec_v1_leftover_failed(
                st1,
                old.base.ticket_pos_to_id@,
                op_view(op1),
                old.base.nr_winning_tickets,
                old.base.last_ticket_id,
                g1,
                cost,
            )
            ||| exists|st2: Map<usize, bool>, pm2: Map<usize, usize>, o2: SelectionView, g2: u64| {
                &&& #[trigger] spec_v1_leftover_ran(
                    st1,
                    old.base.ticket_pos_to_id@,
                    op_view(op1),
                    old.base.nr_winning_tickets,
                    old.base.last_ticket_id,
                    g1,
                    cost,
                    st2,
                    pm2,
                    o2,
                    g2,
                    true,
                )
                &&& spec_added_winners_overflow(&old.base, o2.4)
            }
        }
    }
}

/// Why the NFT phase is refused: the draw fails, or it finishes and what the winners
/// paid leaves the integers.
pub open spec fn spec_nft_substep_failed(old: &NftState, rng0: Random, gas0: u64, cost: u64) -> bool {
    let v0 = nft_draw_view(old, rng0, old.nft_selection_winners@.len() as int);
    ||| spec_nft_failed(v0, old.total_available_nfts, gas0, cost)
    ||| exists|v: NftDrawView, g: u64| {
        &&& #[trigger] spec_nft_ran(v0, old.total_available_nfts, gas0, cost, v, g, true)
        &&& old.nft_cost.amount * v.1.len() > u128::MAX
    }
}

/// What a run of the NFT phase did: NFT winners were drawn and, once the draw was over,
/// what the winners paid was set aside.
pub open spec fn spec_nft_substep(
    old: &NftState,
    new: &NftState,
    rng0: Random,
    rng: Random,
    gas0: u64,
    cost: u64,
    gas: u64,
    completed: bool,
) -> bool {
    exists|selected: int| {
        &&& #[trigger] spec_nft_ran(
            nft_draw_view(old, rng0, old.nft_selection_winners@.len() as int),
            old.total_available_nfts,
            gas0,
            cost,
            nft_draw_view(new, rng, selected),
            gas,
            completed,
        )
        &&& *new == (NftState {
            confirmed_nft_user_list: new.confirmed_nft_user_list,
            nft_selection_winners: new.nft_selection_winners,
            claimable_nft_payment: if completed {
                (old.nft_cost.amount * new.nft_selection_winners@.len()) as u128
            } else {
                old.claimable_nft_payment
            },
            ..*old
        })
    }
}

/// Why the secondary selection cannot run now: it is not the winner selection, the
/// lottery has not picked its winners, the step is done, another operation is in
/// progress, or the saved step cannot be read.
pub open spec fn spec_secondary_error(base: &LaunchpadState, round: u64) -> Option<LaunchpadError> {
    if base.stage_at(round) != LaunchStage::WinnerSelection {
        Some(LaunchpadError::NotInWinnerSelectionPeriod)
    } else if !base.flags.were_winners_selected {
        Some(LaunchpadError::MustSelectBaseWinnersFirst)
    } else if base.flags.was_additional_step_completed {
        Some(LaunchpadError::AlreadyPerformedStep)
    } else {
        match base.current_ongoing_operation {
            OngoingOperationType::Idle => None,
            OngoingOperationType::AdditionalSelection { encoded_data } => if spec_step_decodes(encoded_data@) {
                None
            } else {
                Some(LaunchpadError::InvalidOperationData)
            },
            _ => Some(LaunchpadError::AnotherOperationInProgress),
        }
    }
}

/// The step that saved bytes hold: the tag of its phase, then its operation or
/// generator, each by its view.
pub open spec fn spec_saved_step(data: Seq<u8>, step: CombinedSelectionStep) -> bool {
    &&& data.len() > 0
    &&& match step {
        CombinedSelectionStep::GuaranteedTicketsDistribution { op } => data[0] == 0
            && spec_decode_operation(data.skip(1)) == Some((
                op.rng.seed@,
                op.rng.index as int,
                op.leftover_tickets as int,
                op.leftover_ticket_pos_offset as int,
                op.total_additional_winning_tickets as int,
            )),
        CombinedSelectionStep::NftSelection { rng } => data[0] == 1
            && spec_decode_random(data.skip(1)) == Some((rng.seed@, rng.index as int)),
    }
}

/// Where the secondary selection starts: the guaranteed phase with a fresh operation on
/// the seed, or the step that was saved.
pub open spec fn spec_step_start(base: &LaunchpadState, fresh_seed: [u8; 32], step: CombinedSelectionStep) -> bool {
    match base.current_ongoing_operation {
        OngoingOperationType::Idle => step matches CombinedSelectionStep::GuaranteedTicketsDistribution { op }
            && op_view(op) == (fresh_seed@, 0int, 0usize, 1usize, 0usize),
        OngoingOperationType::AdditionalSelection { encoded_data } => spec_saved_step(encoded_data@, step),
        _ => false,
    }
}

/// The guaranteed part after the NFT phase ended on a generator: the step is marked
/// complete and nothing is in progress any more, or, out of gas, the generator is saved.
pub open spec fn spec_nft_phase_end(g: &GuaranteedTicketsLaunchpadV1, new: &GuaranteedTicketsLaunchpadV1, rng: Random, completed: bool) -> bool {
    if completed {
        *new == (GuaranteedTicketsLaunchpadV1 {
            base: LaunchpadState {
                flags: Flags { was_additional_step_completed: true, ..g.base.flags },
                current_ongoing_operation: OngoingOperationType::Idle,
                ..g.base
            },
            ..*g
        })
    } else {
        &&& new.base.current_ongoing_operation matches OngoingOperationType::AdditionalSelection { encoded_data }
            && encoded_data@ == spec_encode_step(CombinedSelectionStep::NftSelection { rng })
        &&& *new == (GuaranteedTicketsLaunchpadV1 {
            base: LaunchpadState { current_ongoing_operation: new.base.current_ongoing_operation, ..g.base },
            ..*g
        })
    }
}

/// What a run of the secondary selection did from the step it started on: the
/// guaranteed phase ran, and, where it finished, the NFT phase ran on a fresh generator;
/// or the NFT phase ran on the saved generator.  Where a phase ran out of gas its step
/// was saved.
pub open spec fn spec_secondary_effect(
    old: &NftAndGuaranteedLaunchpad,
    new: &NftAndGuaranteedLaunchpad,
    fresh_seed: [u8; 32],
    gas0: u64,
    cost: u64,
    gas: u64,
    completed: bool,
) -> bool {
    exists|step0: CombinedSelectionStep| #[trigger] spec_step_start(&old.guaranteed.base, fresh_seed, step0) && match step0 {
        CombinedSelectionStep::GuaranteedTicketsDistribution { op: op0 } => exists|
            mid: GuaranteedTicketsLaunchpadV1,
            op1: GuaranteedTicketsSelectionOperation,
            g1: u64,
            c1: bool,
        | #[trigger] spec_guaranteed_substep(&old.guaranteed, &mid, op0, op1, gas0, cost, g1, c1) && if c1 {
            exists|rng1: Random| #[trigger] spec_nft_substep(&old.nft, &new.nft, Random { seed: fresh_seed, index: 0 }, rng1, g1, cost, gas, completed)
                && spec_nft_phase_end(&mid, &new.guaranteed, rng1, completed)
        } else {
            &&& !completed
            &&& gas == g1
            &&& new.nft == old.nft
            &&& new.guaranteed.base.current_ongoing_operation matches OngoingOperationType::AdditionalSelection { encoded_data }
                && encoded_data@ == spec_encode_step(CombinedSelectionStep::GuaranteedTicketsDistribution { op: op1 })
            &&& new.guaranteed == (GuaranteedTicketsLaunchpadV1 {
                base: LaunchpadState { current_ongoing_operation: new.guaranteed.base.current_ongoing_operation, ..mid.base },
                ..mid
            })
        },
        CombinedSelectionStep::NftSelection { rng: rng0 } => exists|rng1: Random|
            #[trigger] spec_nft_substep(&old.nft, &new.nft, rng0, rng1, gas0, cost, gas, completed)
                && spec_nft_phase_end(&old.guaranteed, &new.guaranteed, rng1, completed),
    }
}

/// A secondary selection that no refusal stops and that still fails with `e`, from the
/// step it starts on: the guaranteed phase fails; or it finishes and the NFT phase on a
/// fresh generator then overflows; or the NFT phase on the saved generator overflows.
pub open spec fn spec_secondary_failed(
    old: &NftAndGuaranteedLaunchpad,
    fresh_seed: [u8; 32],
    gas0: u64,
    cost: u64,
    e: LaunchpadError,
) -> bool {
    exists|step0: CombinedSelectionStep| #[trigger] spec_step_start(&old.guaranteed.base, fresh_seed, step0) && match step0 {
        CombinedSelectionStep::GuaranteedTicketsDistribution { op: op0 } => {
            ||| spec_guaranteed_substep_failed(&old.guaranteed, op0, gas0, cost, e)
            ||| e == LaunchpadError::ArithmeticError && exists|mid: GuaranteedTicketsLaunchpadV1, op1: GuaranteedTicketsSelectionOperation, g1: u64|
                #[trigger] spec_guaranteed_substep(&old.guaranteed, &mid, op0, op1, gas0, cost, g1, true)
                && spec_nft_substep_failed(&old.nft, Random { seed: fresh_seed, index: 0 }, g1, cost)
        },
        CombinedSelectionStep::NftSelection { rng: rng0 } => e == LaunchpadError::ArithmeticError
            && spec_nft_substep_failed(&old.nft, rng0, gas0, cost),
    }
}

/// Ends the NFT phase on a generator: once the draw is done the step is marked complete
/// and nothing is in progress any more; out of gas, the generator is saved.
fn finish_nft_phase(g: &mut GuaranteedTicketsLaunchpadV1, rng: Random, status: OperationCompletionStatus)
    ensures
        spec_nft_phase_end(old(g), final(g), rng, status == OperationCompletionStatus::Completed),
        old(g).wf() ==> final(g).wf(),
{
    let ghost g0 = *g;
    match status {
        OperationCompletionStatus::Completed => {
            g.base.flags.was_additional_step_completed = true;
            g.base.current_ongoing_operation = OngoingOperationType::Idle;
        },
        OperationCompletionStatus::InterruptedBeforeOutOfGas => {
            let step = CombinedSelectionStep::NftSelection { rng };
            let encoded_data = step.encode();
            g.base.save_progress(OngoingOperationType::AdditionalSelection { encoded_data });
        },
    }
    assert(g.base.ticket_range_for_address@ == g0.base.ticket_range_for_address@);
    assert(g.base.last_ticket_id == g0.base.last_ticket_id);
    assert(g.users_with_guaranteed_ticket@ == g0.users_with_guaranteed_ticket@);
    assert(g.max_tier_users@ == g0.max_tier_users@);
}

/// The secondary selection.
pub trait CombinedSelectionModule {
    /// The launchpad's parts are well formed.
    spec fn combined_wf(&self) -> bool;

    fn select_guaranteed_tickets_substep(&mut self, op: &mut GuaranteedTicketsSelectionOperation, gas: &mut GasBudget) -> Result<OperationCompletionStatus, LaunchpadError>
        requires
            old(self).combined_wf(),
            old(gas).gas_per_iteration > 0,
    ;

    fn select_nft_winners_substep(&mut self, rng: &mut Random, gas: &mut GasBudget) -> Result<OperationCompletionStatus, LaunchpadError>
        requires
            old(self).combined_wf(),
            old(gas).gas_per_iteration > 0,
    ;

    fn secondary_selection_step(&mut self, ctx: &CallContext, gas: &mut GasBudget, fresh_seed: [u8; 32]) -> Result<OperationCompletionStatus, LaunchpadError>
        requires
            old(self).combined_wf(),
            old(gas).gas_per_iteration > 0,
    ;
}

impl CombinedSelectionModule for NftAndGuaranteedLaunchpad {
    open spec fn combined_wf(&self) -> bool {
        self.wf()
    }

    /// Gives the guaranteed tickets, then draws the left-over ones, while the gas lasts;
    /// once both are done the added winning tickets are paid for and counted as winning.
    /// A refused call changes nothing.
    fn select_guaranteed_tickets_substep(&mut self, op: &mut GuaranteedTicketsSelectionOperation, gas: &mut GasBudget) -> (r: Result<OperationCompletionStatus, LaunchpadError>)
        ensures
            r is Err ==> *final(op) == *old(op) && final(self).nft == old(self).nft
                && final(self).guaranteed.max_tier_users@ == old(self).guaranteed.max_tier_users@
                && final(self).guaranteed.base.ticket_status@ == old(self).guaranteed.base.ticket_status@
                && final(self).guaranteed.base.ticket_pos_to_id@ == old(self).guaranteed.base.ticket_pos_to_id@
                && final(self).guaranteed == (GuaranteedTicketsLaunchpadV1 {
                    base: LaunchpadState {
                        ticket_status: final(self).guaranteed.base.ticket_status,
                        ticket_pos_to_id: final(self).guaranteed.base.ticket_pos_to_id,
                        ..old(self).guaranteed.base
                    },
                    max_tier_users: final(self).guaranteed.max_tier_users,
                    ..old(self).guaranteed
                }),
            r matches Err(e) ==> spec_guaranteed_substep_failed(&old(self).guaranteed, *old(op), old(gas).gas_left, old(gas).gas_per_iteration, e),
            r matches Ok(status) ==> final(self).nft == old(self).nft && spec_guaranteed_substep(
                &old(self).guaranteed,
                &final(self).guaranteed,
                *old(op),
                *final(op),
                old(gas).gas_left,
                old(gas).gas_per_iteration,
                final(gas).gas_left,
                status == OperationCompletionStatus::Completed,
            ),
            final(self).wf(),
            final(gas).gas_per_iteration == old(gas).gas_per_iteration,
    {
        let ghost old_g = self.guaranteed;
        let ghost op0 = *op;
        let ghost gas0 = gas.gas_left;
        let saved_users = self.guaranteed.max_tier_users.clone();
        let saved_status = self.guaranteed.base.ticket_status.clone();
        let saved_pos_to_id = self.guaranteed.base.ticket_pos_to_id.clone();
        let saved_op = *op;
        let first = self.guaranteed.select_guaranteed_tickets(op, gas)?;
        let ghost st1 = self.guaranteed.base.ticket_status@;
        let ghost op1 = *op;
        let ghost g1 = gas.gas_left;
        if first == OperationCompletionStatus::InterruptedBeforeOutOfGas {
            assert(spec_v1_select_ran(
                old_g.max_tier_users@, old_g.base.ticket_status@, op0, old_g.base.nr_confirmed_tickets@,
                old_g.base.ticket_range_for_address@, old_g.max_tier_tickets, gas0, gas.gas_per_iteration,
                self.guaranteed.max_tier_users@, st1, op1, g1, false));
            return Ok(first);
        }
        let second = match self.guaranteed.distribute_leftover_tickets(op, gas) {
            Ok(s) => s,
            Err(e) => {
                self.guaranteed.max_tier_users = saved_users;
                self.guaranteed.base.ticket_status = saved_status;
                *op = saved_op;
                return Err(e);
            },
        };
        if second == OperationCompletionStatus::Completed {
            let added = op.total_additional_winning_tickets;
            let payment = match self.guaranteed.base.ticket_price.amount.checked_mul(added as u128) {
                Some(p) => p,
                None => {
                    self.guaranteed.max_tier_users = saved_users;
                    self.guaranteed.base.ticket_status = saved_status;
                    self.guaranteed.base.ticket_pos_to_id = saved_pos_to_id;
                    *op = saved_op;
                    return Err(LaunchpadError::ArithmeticError);
                },
            };
            let claimable = match self.guaranteed.base.claimable_ticket_payment.checked_add(payment) {
                Some(c) => c,
                None => {
                    self.guaranteed.max_tier_users = saved_users;
                    self.guaranteed.base.ticket_status = saved_status;
                    self.guaranteed.base.ticket_pos_to_id = saved_pos_to_id;
                    *op = saved_op;
                    return Err(LaunchpadError::ArithmeticError);
                },
            };
            if added > usize::MAX - self.guaranteed.base.nr_winning_tickets {
                self.guaranteed.max_tier_users = saved_users;
                self.guaranteed.base.ticket_status = saved_status;
                self.guaranteed.base.ticket_pos_to_id = saved_pos_to_id;
                *op = saved_op;
                return Err(LaunchpadError::ArithmeticError);
            }
            self.guaranteed.base.claimable_ticket_payment = claimable;
            self.guaranteed.base.nr_winning_tickets = self.guaranteed.base.nr_winning_tickets + added;
        }
        assert(spec_v1_select_ran(
            old_g.max_tier_users@, old_g.base.ticket_status@, op0, old_g.base.nr_confirmed_tickets@,
            old_g.base.ticket_range_for_address@, old_g.max_tier_tickets, gas0, gas.gas_per_iteration,
            self.guaranteed.max_tier_users@, st1, op1, g1, true));
        Ok(second)
    }

    /// Draws the NFT winners while the gas lasts; once the draw is over what the winners
    /// paid is set aside.  A refused call changes nothing.
    fn select_nft_winners_substep(&mut self, rng: &mut Random, gas: &mut GasBudget) -> (r: Result<OperationCompletionStatus, LaunchpadError>)
        ensures
            r is Err ==> *final(rng) == *old(rng) && final(self).guaranteed == old(self).guaranteed
                && final(self).nft.confirmed_nft_user_list@ == old(self).nft.confirmed_nft_user_list@
                && final(self).nft.nft_selection_winners@ == old(self).nft.nft_selection_winners@
                && final(self).nft == (NftState {
                    confirmed_nft_user_list: final(self).nft.confirmed_nft_user_list,
                    nft_selection_winners: final(self).nft.nft_selection_winners,
                    ..old(self).nft
                }),
            r matches Err(e) ==> e == LaunchpadError::ArithmeticError
                && spec_nft_substep_failed(&old(self).nft, *old(rng), old(gas).gas_left, old(gas).gas_per_iteration),
            r matches Ok(status) ==> final(self).guaranteed == old(self).guaranteed && spec_nft_substep(
                &old(self).nft,
                &final(self).nft,
                *old(rng),
                *final(rng),
                old(gas).gas_left,
                old(gas).gas_per_iteration,
                final(gas).gas_left,
                status == OperationCompletionStatus::Completed,
            ),
            final(self).wf(),
            final(gas).gas_per_iteration == old(gas).gas_per_iteration,
    {
        let saved_list = self.nft.confirmed_nft_user_list.clone();
        let saved_winners = self.nft.nft_selection_winners.clone();
        let saved_rng = *rng;
        let ghost nft0 = self.nft;
        let ghost rng0 = *rng;
        let ghost gas0 = gas.gas_left;
        let op_result = self.nft.select_nft_winners(rng, gas)?;
        let ghost completed = op_result == OperationCompletionStatus::Completed;
        let ghost selected = choose|selected: int| spec_nft_ran(
            nft_draw_view(&nft0, rng0, nft0.nft_selection_winners@.len() as int),
            nft0.total_available_nfts,
            gas0,
            gas.gas_per_iteration,
            nft_draw_view(&self.nft, *rng, selected),
            gas.gas_left,
            completed,
        );
        assert(spec_nft_ran(
            nft_draw_view(&nft0, rng0, nft0.nft_selection_winners@.len() as int),
            nft0.total_available_nfts,
            gas0,
            gas.gas_per_iteration,
            nft_draw_view(&self.nft, *rng, selected),
            gas.gas_left,
            completed,
        ));
        if op_result == OperationCompletionStatus::Completed {
            let winners_selected = self.nft.nft_selection_winners.len();
            let claimable = match self.nft.nft_cost.amount.checked_mul(winners_selected as u128) {
                Some(c) => c,
                None => {
                    self.nft.confirmed_nft_user_list = saved_list;
                    self.nft.nft_selection_winners = saved_winners;
                    *rng = saved_rng;
                    return Err(LaunchpadError::ArithmeticError);
                },
            };
            self.nft.claimable_nft_payment = claimable;
        }
        assert(spec_nft_ran(
            nft_draw_view(&nft0, rng0, nft0.nft_selection_winners@.len() as int),
            nft0.total_available_nfts,
            gas0,
            gas.gas_per_iteration,
            nft_draw_view(&self.nft, *rng, selected),
            gas.gas_left,
            completed,
        ));
        Ok(op_result)
    }

    /// Runs the secondary selection from where it stands, while the gas lasts: the
    /// guaranteed phase first, then, once it is done, the NFT phase with a fresh
    /// generator; where the gas runs out the step is saved, and once both are done the
    /// step is marked complete.  A refused call changes nothing.
    #[verifier::spinoff_prover]
    #[verifier::rlimit(50)]
    fn secondary_selection_step(&mut self, ctx: &CallContext, gas: &mut GasBudget, fresh_seed: [u8; 32]) -> (r: Result<OperationCompletionStatus, LaunchpadError>)
        ensures
            spec_secondary_error(&old(self).guaranteed.base, ctx.block_round) matches Some(e) ==> r == Err::<OperationCompletionStatus, _>(e),
            r is Err ==> {
                &&& final(self).guaranteed.max_tier_users@ == old(self).guaranteed.max_tier_users@
                &&& final(self).guaranteed.base.ticket_status@ == old(self).guaranteed.base.ticket_status@
                &&& final(self).guaranteed.base.ticket_pos_to_id@ == old(self).guaranteed.base.ticket_pos_to_id@
                &&& final(self).guaranteed == (GuaranteedTicketsLaunchpadV1 {
                    base: LaunchpadState {
                        ticket_status: final(self).guaranteed.base.ticket_status,
                        ticket_pos_to_id: final(self).guaranteed.base.ticket_pos_to_id,
                        ..old(self).guaranteed.base
                    },
                    max_tier_users: final(self).guaranteed.max_tier_users,
                    ..old(self).guaranteed
                })
                &&& final(self).nft.confirmed_nft_user_list@ == old(self).nft.confirmed_nft_user_list@
                &&& final(self).nft.nft_selection_winners@ == old(self).nft.nft_selection_winners@
                &&& final(self).nft == (NftState {
                    confirmed_nft_user_list: final(self).nft.confirmed_nft_user_list,
                    nft_selection_winners: final(self).nft.nft_selection_winners,
                    ..old(self).nft
                })
            },
            r matches Err(e) ==> (spec_secondary_error(&old(self).guaranteed.base, ctx.block_round) is None
                ==> spec_secondary_failed(old(self), fresh_seed, old(gas).gas_left, old(gas).gas_per_iteration, e)),
            r matches Ok(status) ==> {
                &&& spec_secondary_error(&old(self).guaranteed.base, ctx.block_round) is None
                &&& spec_secondary_effect(
                    old(self),
                    final(self),
                    fresh_seed,
                    old(gas).gas_left,
                    old(gas).gas_per_iteration,
                    final(gas).gas_left,
                    status == OperationCompletionStatus::Completed,
                )
            },
            final(self).wf(),
            final(gas).gas_per_iteration == old(gas).gas_per_iteration,
    {
        self.guaranteed.base.require_winner_selection_period(ctx.block_round)?;
        let flags = self.guaranteed.base.flags;
        if !flags.were_winners_selected {
            return Err(LaunchpadError::MustSelectBaseWinnersFirst);
        }
        if flags.was_additional_step_completed {
            return Err(LaunchpadError::AlreadyPerformedStep);
        }
        let loaded = self.guaranteed.base.load_additional_selection_operation()?;
        let step0 = match loaded {
            None => CombinedSelectionStep::default(fresh_seed),
            Some(data) => CombinedSelectionStep::decode(&data)?,
        };
        let ghost old_self = *self;
        let ghost gas0 = gas.gas_left;
        assert(spec_step_start(&old_self.guaranteed.base, fresh_seed, step0));
        match step0 {
            CombinedSelectionStep::GuaranteedTicketsDistribution { op } => {
                let ghost op0 = op;
                let saved_users = self.guaranteed.max_tier_users.clone();
                let saved_status = self.guaranteed.base.ticket_status.clone();
                let saved_pos_to_id = self.guaranteed.base.ticket_pos_to_id.clone();
                let saved_claimable = self.guaranteed.base.claimable_ticket_payment;
                let saved_winning = self.guaranteed.base.nr_winning_tickets;
                let mut op = op;
                let first = match self.select_guaranteed_tickets_substep(&mut op, gas) {
                    Ok(s) => s,
                    Err(e) => {
                        assert(spec_secondary_failed(&old_self, fresh_seed, gas0, gas.gas_per_iteration, e));
                        return Err(e);
                    },
                };
                let ghost mid = self.guaranteed;
                let ghost op1 = op;
                let ghost g1 = gas.gas_left;
                let ghost c1 = first == OperationCompletionStatus::Completed;
                assert(spec_guaranteed_substep(&old_self.guaranteed, &mid, op0, op1, gas0, gas.gas_per_iteration, g1, c1));
                if first == OperationCompletionStatus::InterruptedBeforeOutOfGas {
                    let step = CombinedSelectionStep::GuaranteedTicketsDistribution { op };
                    let encoded_data = step.encode();
                    self.guaranteed.base.save_progress(OngoingOperationType::AdditionalSelection { encoded_data });
                    return Ok(OperationCompletionStatus::InterruptedBeforeOutOfGas);
                }
                let mut rng = Random::from_hash(fresh_seed, 0);
                let second = match self.select_nft_winners_substep(&mut rng, gas) {
                    Ok(s) => s,
                    Err(e) => {
                        assert(spec_secondary_failed(&old_self, fresh_seed, gas0, gas.gas_per_iteration, e));
                        self.guaranteed.max_tier_users = saved_users;
                        self.guaranteed.base.ticket_status = saved_status;
                        self.guaranteed.base.ticket_pos_to_id = saved_pos_to_id;
                        self.guaranteed.base.claimable_ticket_payment = saved_claimable;
                        self.guaranteed.base.nr_winning_tickets = saved_winning;
                        return Err(e);
                    },
                };
                let ghost rng1 = rng;
                assert(spec_nft_substep(&old_self.nft, &self.nft, Random { seed: fresh_seed, index: 0 }, rng1, g1,
                    gas.gas_per_iteration, gas.gas_left, second == OperationCompletionStatus::Completed));
                finish_nft_phase(&mut self.guaranteed, rng, second);
                assert(spec_nft_phase_end(&mid, &self.guaranteed, rng1, second == OperationCompletionStatus::Completed));
                Ok(second)
            },
            CombinedSelectionStep::NftSelection { rng } => {
                let mut rng = rng;
                let second = match self.select_nft_winners_substep(&mut rng, gas) {
                    Ok(s) => s,
                    Err(e) => {
                        assert(spec_secondary_failed(&old_self, fresh_seed, gas0, gas.gas_per_iteration, e));
                        return Err(e);
                    },
                };
                let ghost rng1 = rng;
                assert(spec_nft_substep(&old_self.nft, &self.nft, step0->rng, rng1, gas0,
                    gas.gas_per_iteration, gas.gas_left, second == OperationCompletionStatus::Completed));
                finish_nft_phase(&mut self.guaranteed, rng, second);
                assert(spec_nft_phase_end(&old_self.guaranteed, &self.guaranteed, rng1, second == OperationCompletionStatus::Completed));
                Ok(second)
            },
        }
    }
}

} // verus!
