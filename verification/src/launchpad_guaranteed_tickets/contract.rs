//! Creating the launchpad with staking and migration guarantees, and its status view.

use std::collections::HashMap;
use vstd::prelude::*;

use crate::launchpad_common::config::{CallContext, LaunchpadState};
use crate::launchpad_common::errors::LaunchpadError;
use crate::launchpad_common::launch_stage::Flags;
use crate::launchpad_common::launchpad_main::{spec_init_error, spec_fresh, spec_valid_init_args, LaunchpadInitArgs};
use crate::launchpad_common::storage::{get_by_address, stored_or, Address};
use crate::launchpad_guaranteed_tickets::state::GuaranteedTicketsLaunchpadV1;

verus! {

broadcast use vstd::std_specs::hash::group_hash_axioms;

impl GuaranteedTicketsLaunchpadV1 {
    /// Creates the launchpad: the shared state from the arguments, with no stage flag
    /// set, and a positive staking threshold for a guaranteed ticket.
    pub fn init(ctx: &CallContext, args: LaunchpadInitArgs, min_confirmed_for_guaranteed_ticket: usize) -> (r: Result<GuaranteedTicketsLaunchpadV1, LaunchpadError>)
        ensures
            r is Ok <==> spec_valid_init_args(&args) && min_confirmed_for_guaranteed_ticket > 0,
            !spec_valid_init_args(&args) ==> r == Err::<GuaranteedTicketsLaunchpadV1, _>(spec_init_error(&args)),
            spec_valid_init_args(&args) && min_confirmed_for_guaranteed_ticket == 0
                ==> r == Err::<GuaranteedTicketsLaunchpadV1, _>(LaunchpadError::InvalidMinConfirmed),
            r matches Ok(s) ==> {
                &&& spec_fresh(&s.base)
                &&& s.wf()
                &&& s.base.launchpad_token_id@ == args.launchpad_token_id@
                &&& s.base.launchpad_tokens_per_winning_ticket == args.launchpad_tokens_per_winning_ticket
                &&& s.base.ticket_price.token_id@ == args.ticket_payment_token@
                &&& s.base.ticket_price.amount == args.ticket_price
                &&& s.base.nr_winning_tickets == args.nr_winning_tickets
                &&& s.base.configuration.confirmation_period_start_round == args.confirmation_period_start_round
                &&& s.base.configuration.winner_selection_start_round == args.winner_selection_start_round
                &&& s.base.configuration.claim_start_round == args.claim_start_round
                &&& s.base.flags == (Flags {
                    has_winner_selection_process_started: false,
                    were_tickets_filtered: false,
                    were_winners_selected: false,
                    was_additional_step_completed: false,
                })
                &&& s.base.support_address == ctx.caller
                &&& s.min_confirmed_for_guaranteed_ticket == min_confirmed_for_guaranteed_ticket
                &&& s.users_with_guaranteed_ticket@.len() == 0
                &&& s.total_guaranteed_tickets == 0
                &&& s.user_ticket_status@.is_empty()
                &&& s.max_tier_tickets == 0
                &&& s.max_tier_users@.len() == 0
                &&& s.user_total_claimable_balance@.is_empty()
                &&& s.user_claimed_balance@.is_empty()
                &&& s.unlock_schedule is None
            },
    {
        let flags = Flags {
            has_winner_selection_process_started: false,
            were_tickets_filtered: false,
            were_winners_selected: false,
            was_additional_step_completed: false,
        };
        let args = LaunchpadInitArgs { flags, ..args };
        let base = LaunchpadState::init_base(ctx, args)?;
        if min_confirmed_for_guaranteed_ticket == 0 {
            return Err(LaunchpadError::InvalidMinConfirmed);
        }
        Ok(GuaranteedTicketsLaunchpadV1 {
            base,
            min_confirmed_for_guaranteed_ticket,
            users_with_guaranteed_ticket: Vec::new(),
            total_guaranteed_tickets: 0,
            user_ticket_status: HashMap::new(),
            max_tier_tickets: 0,
            max_tier_users: Vec::new(),
            user_total_claimable_balance: HashMap::new(),
            user_claimed_balance: HashMap::new(),
            unlock_schedule: None,
        })
    }

    /// A user's staking and energy tickets, confirmed tickets, and staking and migration
    /// guaranteed tickets; refused for a user without a status.
    pub fn user_tickets_status(&self, address: Address) -> (r: Result<(usize, usize, usize, usize, usize), LaunchpadError>)
        ensures
            r is Ok <==> self.user_ticket_status@.contains_key(address),
            r is Err ==> r == Err::<(usize, usize, usize, usize, usize), _>(LaunchpadError::UserNotFound),
            r matches Ok(t) ==> {
                let s = self.user_ticket_status@[address];
                t == (
                    s.staking_tickets_allowance,
                    s.energy_tickets_allowance,
                    stored_or(self.base.nr_confirmed_tickets@, address, 0),
                    s.staking_guaranteed_tickets,
                    s.migration_guaranteed_tickets,
                )
            },
    {
        match self.user_ticket_status.get(&address) {
            None => Err(LaunchpadError::UserNotFound),
            Some(s) => {
                let confirmed = get_by_address(&self.base.nr_confirmed_tickets, address, 0);
                Ok((s.staking_tickets_allowance, s.energy_tickets_allowance, confirmed, s.staking_guaranteed_tickets, s.migration_guaranteed_tickets))
            },
        }
    }
}

} // verus!
