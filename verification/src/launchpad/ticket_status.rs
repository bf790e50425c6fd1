//! The status of a ticket across several draws, each draw counted as a generation.

use vstd::prelude::*;

verus! {

/// The status of a ticket: not yet set, winning or confirmed in some generation, or
/// redeemed.
#[derive(Debug, Clone, Copy, PartialEq, Eq, Structural)]
pub enum TicketStatus {
    Unset,
    Winning { generation: u8 },
    Confirmed { generation: u8 },
    Redeemed,
}

impl TicketStatus {
    /// Whether the ticket won in the given generation.
    pub fn is_winning(&self, current_generation: u8) -> (r: bool)
        ensures
            r <==> (*self matches TicketStatus::Winning { generation } && generation == current_generation),
    {
        if let TicketStatus::Winning { generation } = *self {
            if generation == current_generation {
                return true;
            }
        }
        false
    }

    /// Whether the ticket is confirmed; in the given generation where one is given,
    /// in any generation where none is.
    pub fn is_confirmed(&self, opt_current_generation: Option<u8>) -> (r: bool)
        ensures
            r <==> (*self matches TicketStatus::Confirmed { generation } && match opt_current_generation {
                Some(g) => generation == g,
                None => true,
            }),
    {
        match *self {
            TicketStatus::Confirmed { generation } => {
                if let Some(current_generation) = opt_current_generation {
                    generation == current_generation
                } else {
                    true
                }
            },
            _ => false,
        }
    }
}

} // verus!
