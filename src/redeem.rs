use vstd::prelude::*;

use crate::derivation::{
    assert_derivation, auction_manager_seed_seq, auction_manager_seeds, derived_bump,
    derived_matches, prize_tracking_seed_seq, program_address_of, same_key,
};
use crate::error::MetaplexError;
use crate::placement::{
    edition_window, total_claimed, total_expected_redemptions, window_max, window_min,
    WinningConfig, WinningConfigType,
};
use crate::ticket::{
    create_or_update_prize_tracking, ticket_after, tracking_result, PrizeTrackingTicket,
};

verus! {

/// The addresses that one redemption works with.
#[derive(Clone, Copy, Debug)]
pub struct RedeemAccounts {
    pub program_id: [u8; 32],
    pub auction: [u8; 32],
    pub auction_manager: [u8; 32],
    pub prize_tracking_ticket: [u8; 32],
    pub metadata: [u8; 32],
    pub metadata_mint: [u8; 32],
    pub metadata_owner: [u8; 32],
    pub token_metadata_program: [u8; 32],
}

/// What the caller has to mint once a redemption is accepted: the edition
/// number, and the bump seeds of the auction manager and the ticket.
#[derive(Clone, Copy, Debug, PartialEq, Eq, Structural)]
pub struct MintOrder {
    pub edition: u64,
    pub auction_manager_bump: u8,
    pub prize_tracking_bump: u8,
}

/// The redemptions that a ticket created now would expect: the total claimed
/// from the box when there is no ticket yet; unused, and 0, otherwise.
pub open spec fn expected_for(
    configs: Seq<WinningConfig>,
    order: u8,
    ticket: Option<PrizeTrackingTicket>,
) -> u64 {
    if ticket.is_none() {
        total_claimed(configs, order) as u64
    } else {
        0
    }
}

/// What allocating `edition_offset` to placement `winning_index` returns, given
/// the derivation `d` of the ticket's address: the final edition number, which
/// is the offset plus the ledger's baseline, and the ticket's bump seed.
pub open spec fn allocation_result(
    configs: Seq<WinningConfig>,
    winning_index: int,
    order: u8,
    edition_offset: u64,
    ticket: Option<PrizeTrackingTicket>,
    supply: u64,
    d: Option<(Seq<u8>, u8)>,
    ticket_address: Seq<u8>,
) -> Result<(u64, u8), MetaplexError> {
    if window_max(configs, winning_index, order) > u64::MAX {
        Err(MetaplexError::NumericalOverflowError)
    } else if edition_offset < window_min(configs, winning_index, order) || edition_offset
        >= window_max(configs, winning_index, order) {
        Err(MetaplexError::InvalidEditionNumber)
    } else if ticket.is_none() && total_claimed(configs, order) > u64::MAX {
        Err(MetaplexError::NumericalOverflowError)
    } else if !derived_matches(d, ticket_address) {
        Err(MetaplexError::DerivedKeyInvalid)
    } else {
        match tracking_result(ticket, supply) {
            Err(e) => Err(e),
            Ok(baseline) => if edition_offset + baseline > u64::MAX {
                Err(MetaplexError::NumericalOverflowError)
            } else {
                Ok(((edition_offset + baseline) as u64, derived_bump(d)))
            },
        }
    }
}

/// The ledger after an allocation: used once when the allocation succeeds,
/// as it was when it fails.
pub open spec fn allocation_ticket(
    configs: Seq<WinningConfig>,
    winning_index: int,
    order: u8,
    edition_offset: u64,
    ticket: Option<PrizeTrackingTicket>,
    metadata: [u8; 32],
    supply: u64,
    d: Option<(Seq<u8>, u8)>,
    ticket_address: Seq<u8>,
) -> Option<PrizeTrackingTicket> {
    if allocation_result(
        configs,
        winning_index,
        order,
        edition_offset,
        ticket,
        supply,
        d,
        ticket_address,
    ) is Ok {
        ticket_after(ticket, metadata, expected_for(configs, order, ticket), supply)
    } else {
        ticket
    }
}

/// The derivation of the prize tracking ticket of a redemption.
pub open spec fn ticket_derivation(accounts: RedeemAccounts) -> Option<(Seq<u8>, u8)> {
    program_address_of(
        prize_tracking_seed_seq(
            accounts.program_id@,
            accounts.auction_manager@,
            accounts.metadata_mint@,
        ),
        accounts.program_id@,
    )
}

/// Allocates the edition `edition_offset` to placement `winning_index` of the
/// box `order`. The offset must lie in the placement's window; the ticket at
/// `accounts.prize_tracking_ticket` must be the derived one. The ledger is used
/// once, created with the total claimed from the box when absent, and the final
/// edition number is the offset plus the ledger's baseline. On any failure the
/// ledger is left as it was.
pub fn allocate_edition(
    accounts: &RedeemAccounts,
    configs: &Vec<WinningConfig>,
    winning_index: usize,
    order: u8,
    edition_offset: u64,
    ticket: &mut Option<PrizeTrackingTicket>,
    supply: u64,
) -> (r: Result<(u64, u8), MetaplexError>)
    requires
        winning_index < configs@.len(),
    ensures
        r == allocation_result(
            configs@,
            winning_index as int,
            order,
            edition_offset,
            *old(ticket),
            supply,
            ticket_derivation(*accounts),
            accounts.prize_tracking_ticket@,
        ),
        *final(ticket) == allocation_ticket(
            configs@,
            winning_index as int,
            order,
            edition_offset,
            *old(ticket),
            accounts.metadata,
            supply,
            ticket_derivation(*accounts),
            accounts.prize_tracking_ticket@,
        ),
{
    let (min, max) = match edition_window(configs, winning_index, order) {
        Ok(w) => w,
        Err(e) => {
            return Err(e);
        },
    };
    if edition_offset < min || edition_offset >= max {
        return Err(MetaplexError::InvalidEditionNumber);
    }
    let expected_redemptions: u64 = if ticket.is_none() {
        match total_expected_redemptions(configs, order) {
            Ok(t) => t,
            Err(e) => {
                return Err(e);
            },
        }
    } else {
        0
    };
    let mut staged: Option<PrizeTrackingTicket> = *ticket;
    let (baseline, bump) = match create_or_update_prize_tracking(
        &accounts.program_id,
        &accounts.auction_manager,
        &accounts.prize_tracking_ticket,
        &mut staged,
        &accounts.metadata,
        &accounts.metadata_mint,
        expected_redemptions,
        supply,
    ) {
        Ok(p) => p,
        Err(e) => {
            return Err(e);
        },
    };
    match edition_offset.checked_add(baseline) {
        Some(edition) => {
            *ticket = staged;
            Ok((edition, bump))
        },
        None => Err(MetaplexError::NumericalOverflowError),
    }
}

/// The offsets just outside a placement's window, one below its first edition
/// and its end, are refused with `InvalidEditionNumber`, whatever the ledger
/// and the derivation hold.
pub proof fn lemma_offsets_outside_window_rejected(
    configs: Seq<WinningConfig>,
    winning_index: int,
    order: u8,
    ticket: Option<PrizeTrackingTicket>,
    supply: u64,
    d: Option<(Seq<u8>, u8)>,
    ticket_address: Seq<u8>,
)
    requires
        0 <= winning_index < configs.len(),
        window_max(configs, winning_index, order) <= u64::MAX,
    ensures
        allocation_result(
            configs,
            winning_index,
            order,
            (window_min(configs, winning_index, order) - 1) as u64,
            ticket,
            supply,
            d,
            ticket_address,
        ) == Err::<(u64, u8), MetaplexError>(MetaplexError::InvalidEditionNumber),
        allocation_result(
            configs,
            winning_index,
            order,
            window_max(configs, winning_index, order) as u64,
            ticket,
            supply,
            d,
            ticket_address,
        ) == Err::<(u64, u8), MetaplexError>(MetaplexError::InvalidEditionNumber),
{
}

/// Allocating the same offset to the same placement again after a success
/// succeeds again with the same edition number: the ledger keeps its baseline
/// and counts one more redemption, with no cap at the expected redemptions.
pub proof fn lemma_repeat_allocation(
    configs: Seq<WinningConfig>,
    winning_index: int,
    order: u8,
    edition_offset: u64,
    ticket: Option<PrizeTrackingTicket>,
    metadata: [u8; 32],
    supply_first: u64,
    supply_second: u64,
    d: Option<(Seq<u8>, u8)>,
    ticket_address: Seq<u8>,
)
    requires
        0 <= winning_index < configs.len(),
        allocation_result(
            configs,
            winning_index,
            order,
            edition_offset,
            ticket,
            supply_first,
            d,
            ticket_address,
        ) is Ok,
        ticket is Some ==> ticket.unwrap().redemptions + 2 <= u64::MAX,
    ensures
        ({
            let once = allocation_ticket(
                configs,
                winning_index,
                order,
                edition_offset,
                ticket,
                metadata,
                supply_first,
                d,
                ticket_address,
            );
            let twice = allocation_ticket(
                configs,
                winning_index,
                order,
                edition_offset,
                once,
                metadata,
                supply_second,
                d,
                ticket_address,
            );
            &&& allocation_result(
                configs,
                winning_index,
                order,
                edition_offset,
                once,
                supply_second,
                d,
                ticket_address,
            ) == allocation_result(
                configs,
                winning_index,
                order,
                edition_offset,
                ticket,
                supply_first,
                d,
                ticket_address,
            )
            &&& twice.unwrap().redemptions == once.unwrap().redemptions + 1
            &&& twice.unwrap().supply_snapshot == once.unwrap().supply_snapshot
            &&& twice.unwrap().expected_redemptions == once.unwrap().expected_redemptions
        }),
{
}

/// Whether a redemption asks for an allocation: the auction was not cancelled
/// and the bidder holds a winning index within the placements.
pub open spec fn allocation_applies(
    configs: Seq<WinningConfig>,
    cancelled: bool,
    win_index: Option<usize>,
) -> bool {
    !cancelled && win_index is Some && (win_index.unwrap() as int) < configs.len()
}

/// Redeems a printing-v2 bid. The destination must hold exactly one token and
/// the metadata must be owned by the token metadata program. When the auction
/// was cancelled or the bidder did not win a placement there is nothing to
/// mint (`Ok(None)`). Otherwise the prize must be a printing-v2 prize, the
/// auction manager's address must be the derived one, and the edition is
/// allocated as `allocate_edition` does. Returns what to mint.
pub fn process_redeem_printing_v2_bid(
    accounts: &RedeemAccounts,
    configs: &Vec<WinningConfig>,
    cancelled: bool,
    win_index: Option<usize>,
    prize_type: WinningConfigType,
    order: u8,
    edition_offset: u64,
    new_edition_account_amount: u64,
    ticket: &mut Option<PrizeTrackingTicket>,
    supply: u64,
) -> (r: Result<Option<MintOrder>, MetaplexError>)
    ensures
        ({
            let am = program_address_of(
                auction_manager_seed_seq(accounts.auction@),
                accounts.program_id@,
            );
            if new_edition_account_amount != 1 {
                &&& r == Err::<Option<MintOrder>, MetaplexError>(
                    MetaplexError::ProvidedAccountDoesNotContainOneToken,
                )
                &&& *final(ticket) == *old(ticket)
            } else if accounts.metadata_owner@ != accounts.token_metadata_program@ {
                &&& r == Err::<Option<MintOrder>, MetaplexError>(MetaplexError::IncorrectOwner)
                &&& *final(ticket) == *old(ticket)
            } else if !allocation_applies(configs@, cancelled, win_index) {
                &&& r == Ok::<Option<MintOrder>, MetaplexError>(None)
                &&& *final(ticket) == *old(ticket)
            } else if prize_type != WinningConfigType::PrintingV2 {
                &&& r == Err::<Option<MintOrder>, MetaplexError>(
                    MetaplexError::WrongBidEndpointForPrize,
                )
                &&& *final(ticket) == *old(ticket)
            } else if !derived_matches(am, accounts.auction_manager@) {
                &&& r == Err::<Option<MintOrder>, MetaplexError>(
                    MetaplexError::DerivedKeyInvalid,
                )
                &&& *final(ticket) == *old(ticket)
            } else {
                let idx = win_index.unwrap() as int;
                &&& *final(ticket) == allocation_ticket(
                    configs@,
                    idx,
                    order,
                    edition_offset,
                    *old(ticket),
                    accounts.metadata,
                    supply,
                    ticket_derivation(*accounts),
                    accounts.prize_tracking_ticket@,
                )
                &&& match allocation_result(
                    configs@,
                    idx,
                    order,
                    edition_offset,
                    *old(ticket),
                    supply,
                    ticket_derivation(*accounts),
                    accounts.prize_tracking_ticket@,
                ) {
                    Ok((edition, bump)) => r == Ok::<Option<MintOrder>, MetaplexError>(
                        Some(
                            MintOrder {
                                edition,
                                auction_manager_bump: derived_bump(am),
                                prize_tracking_bump: bump,
                            },
                        ),
                    ),
                    Err(e) => r == Err::<Option<MintOrder>, MetaplexError>(e),
                }
            }
        }),
{
    if new_edition_account_amount != 1 {
        return Err(MetaplexError::ProvidedAccountDoesNotContainOneToken);
    }
    if !same_key(&accounts.metadata_owner, &accounts.token_metadata_program) {
        return Err(MetaplexError::IncorrectOwner);
    }
    if cancelled {
        return Ok(None);
    }
    let winning_index = match win_index {
        Some(i) => i,
        None => {
            return Ok(None);
        },
    };
    if winning_index >= configs.len() {
        return Ok(None);
    }
    if prize_type != WinningConfigType::PrintingV2 {
        return Err(MetaplexError::WrongBidEndpointForPrize);
    }
    let seeds = auction_manager_seeds(&accounts.auction);
    let auction_manager_bump = match assert_derivation(
        &accounts.program_id,
        &accounts.auction_manager,
        &seeds,
    ) {
        Ok(b) => b,
        Err(e) => {
            return Err(e);
        },
    };
    match allocate_edition(accounts, configs, winning_index, order, edition_offset, ticket, supply) {
        Ok((edition, prize_tracking_bump)) => Ok(
            Some(MintOrder { edition, auction_manager_bump, prize_tracking_bump }),
        ),
        Err(e) => Err(e),
    }
}

} // verus!
