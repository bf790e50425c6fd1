# launchpad

A verified model of the MultiversX launchpad contracts: a token sale decided by lottery
tickets. Users are allotted tickets, confirm (pay for) some of them, the unconfirmed and
blacklisted tickets are filtered out, a Fisher-Yates shuffle draws the winning tickets,
and users claim launchpad tokens for their winning tickets and a refund for the others.

Every flavour keeps its storage as plain values (maps, sets and vectors keyed by integer
addresses and ticket ids) and its endpoints are functions from a call context and the
state to a result and the new state; what a call sends is returned as transfers.

Layout of `src/`:

- `launchpad_common`: the shared rules: stages, setup, tickets, blacklist, confirmation
  and claims, the filtering and the shuffle, saved progress of long operations, the
  random generator and token identifiers.
- `launchpad`: the first flavour, whose stages follow the epoch.
- `launchpad_guaranteed_tickets` and `launchpad_guaranteed_tickets_v2`: guaranteed
  winning tickets for staking and migration, and release of the tokens by schedule.
- `launchpad_with_nft` and `launchpad_v2`: an extra draw of mystery SFTs.
- `launchpad_nft_and_guaranteed_tickets`: the guarantees followed by the NFT draw.
- `launchpad_locked_tokens`: part of the launchpad tokens locked until an epoch.

`app/` holds the glue to the chain that the library leaves out: turning the framework's
addresses and payments into the library's values and back.
