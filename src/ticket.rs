use vstd::prelude::*;

use crate::derivation::{
    assert_derivation, derived_bump, derived_matches, prize_tracking_seed_seq,
    prize_tracking_seeds, program_address_of,
};
use crate::error::MetaplexError;
use vstd::bytes::{
    spec_u64_from_le_bytes, spec_u64_to_le_bytes, u64_from_le_bytes, u64_to_le_bytes,
};
use vstd::slice::slice_subrange;

verus! {

/// Leading tag byte of a stored prize tracking ticket.
pub const PRIZE_TRACKING_TICKET_KEY: u8 = 8;

/// Size in bytes of a stored prize tracking ticket: tag, metadata address,
/// three counters and reserved space.
pub const PRIZE_TRACKING_TICKET_SIZE: usize = 107;

/// The ledger of one (auction manager, mint) pair: the supply frozen when the
/// ticket was created, the redemptions expected then, and the redemptions so far.
#[derive(Clone, Copy, Debug)]
pub struct PrizeTrackingTicket {
    pub key: u8,
    pub metadata: [u8; 32],
    pub supply_snapshot: u64,
    pub expected_redemptions: u64,
    pub redemptions: u64,
}

/// A fresh ticket for `metadata`, with its baseline frozen at `supply`.
pub open spec fn new_ticket(metadata: [u8; 32], expected_redemptions: u64, supply: u64) -> PrizeTrackingTicket {
    PrizeTrackingTicket {
        key: PRIZE_TRACKING_TICKET_KEY,
        metadata,
        supply_snapshot: supply,
        expected_redemptions,
        redemptions: 1,
    }
}

/// The ledger after one use: created when absent, otherwise counted once more;
/// left as it was when the counter is full.
pub open spec fn ticket_after(
    ticket: Option<PrizeTrackingTicket>,
    metadata: [u8; 32],
    expected_redemptions: u64,
    supply: u64,
) -> Option<PrizeTrackingTicket> {
    match ticket {
        None => Some(new_ticket(metadata, expected_redemptions, supply)),
        Some(t) => if t.redemptions < u64::MAX {
            Some(PrizeTrackingTicket { redemptions: (t.redemptions + 1) as u64, ..t })
        } else {
            Some(t)
        },
    }
}

/// What one use of the ledger returns: the frozen baseline, which is `supply`
/// for a fresh ticket, or `NumericalOverflowError` when the counter is full.
pub open spec fn tracking_result(ticket: Option<PrizeTrackingTicket>, supply: u64) -> Result<
    u64,
    MetaplexError,
> {
    match ticket {
        None => Ok(supply),
        Some(t) => if t.redemptions < u64::MAX {
            Ok(t.supply_snapshot)
        } else {
            Err(MetaplexError::NumericalOverflowError)
        },
    }
}

/// The stored form of a ticket: tag byte, metadata address, the baseline, the
/// expected redemptions and the redemptions as little-endian `u64`s, then 50
/// reserved zero bytes.
pub open spec fn ticket_bytes(t: PrizeTrackingTicket) -> Seq<u8> {
    seq![t.key] + t.metadata@ + spec_u64_to_le_bytes(t.supply_snapshot) + spec_u64_to_le_bytes(
        t.expected_redemptions,
    ) + spec_u64_to_le_bytes(t.redemptions) + Seq::new(50, |i: int| 0u8)
}

/// Whether `data` is a stored prize tracking ticket: of the ticket's size and
/// starting with its tag.
pub open spec fn is_ticket_record(data: Seq<u8>) -> bool {
    data.len() == PRIZE_TRACKING_TICKET_SIZE && data[0] == PRIZE_TRACKING_TICKET_KEY
}

/// Whether `t` is the ticket that the stored record `data` holds.
pub open spec fn ticket_decodes(data: Seq<u8>, t: PrizeTrackingTicket) -> bool {
    &&& t.key == data[0]
    &&& t.metadata@ == data.subrange(1, 33)
    &&& t.supply_snapshot == spec_u64_from_le_bytes(data.subrange(33, 41))
    &&& t.expected_redemptions == spec_u64_from_le_bytes(data.subrange(41, 49))
    &&& t.redemptions == spec_u64_from_le_bytes(data.subrange(49, 57))
}

fn push_all(v: &mut Vec<u8>, s: &Vec<u8>)
    ensures
        final(v)@ == old(v)@ + s@,
{
    let mut i: usize = 0;
    while i < s.len()
        invariant
            i <= s@.len(),
            v@ == old(v)@ + s@.subrange(0, i as int),
        decreases s@.len() - i,
    {
        v.push(s[i]);
        i += 1;
        assert(s@.subrange(0, i as int) =~= s@.subrange(0, i - 1 as int).push(s@[i - 1]));
    }
    assert(s@.subrange(0, s@.len() as int) =~= s@);
}

impl PrizeTrackingTicket {
    /// The stored form of this ticket.
    pub fn pack(&self) -> (r: Vec<u8>)
        ensures
            r@ == ticket_bytes(*self),
            r@.len() == PRIZE_TRACKING_TICKET_SIZE,
    {
        let mut r: Vec<u8> = Vec::new();
        r.push(self.key);
        let mut i: usize = 0;
        while i < 32
            invariant
                i <= 32,
                self.metadata@.len() == 32,
                r@ =~= seq![self.key] + self.metadata@.subrange(0, i as int),
            decreases 32 - i,
        {
            r.push(self.metadata[i]);
            i += 1;
        }
        assert(self.metadata@.subrange(0, 32) =~= self.metadata@);
        push_all(&mut r, &u64_to_le_bytes(self.supply_snapshot));
        push_all(&mut r, &u64_to_le_bytes(self.expected_redemptions));
        push_all(&mut r, &u64_to_le_bytes(self.redemptions));
        let ghost filled = r@;
        let mut k: usize = 0;
        while k < 50
            invariant
                k <= 50,
                r@ =~= filled + Seq::new(k as nat, |i: int| 0u8),
            decreases 50 - k,
        {
            r.push(0u8);
            k += 1;
        }
        r
    }

    /// Reads a stored ticket: none when `data` is not of the ticket's size or
    /// does not start with its tag.
    pub fn unpack(data: &[u8]) -> (r: Option<PrizeTrackingTicket>)
        ensures
            r.is_some() == is_ticket_record(data@),
            r.is_some() ==> ticket_decodes(data@, r.unwrap()),
    {
        if data.len() != PRIZE_TRACKING_TICKET_SIZE || data[0] != PRIZE_TRACKING_TICKET_KEY {
            return None;
        }
        let mut metadata: [u8; 32] = [0u8; 32];
        let mut i: usize = 0;
        while i < 32
            invariant
                i <= 32,
                data@.len() == PRIZE_TRACKING_TICKET_SIZE,
                metadata@.len() == 32,
                forall|j: int| 0 <= j < i ==> metadata@[j] == data@[1 + j],
            decreases 32 - i,
        {
            metadata[i] = data[1 + i];
            i += 1;
        }
        assert(metadata@ =~= data@.subrange(1, 33));
        let supply_snapshot = u64_from_le_bytes(slice_subrange(data, 33, 41));
        let expected_redemptions = u64_from_le_bytes(slice_subrange(data, 41, 49));
        let redemptions = u64_from_le_bytes(slice_subrange(data, 49, 57));
        Some(
            PrizeTrackingTicket {
                key: data[0],
                metadata,
                supply_snapshot,
                expected_redemptions,
                redemptions,
            },
        )
    }
}

/// Reading back the stored form of a ticket gives the same ticket.
pub proof fn lemma_pack_unpack(t: PrizeTrackingTicket)
    requires
        t.key == PRIZE_TRACKING_TICKET_KEY,
    ensures
        is_ticket_record(ticket_bytes(t)),
        ticket_decodes(ticket_bytes(t), t),
{
    vstd::bytes::lemma_auto_spec_u64_to_from_le_bytes();
    let b = ticket_bytes(t);
    let s1 = spec_u64_to_le_bytes(t.supply_snapshot);
    let s2 = spec_u64_to_le_bytes(t.expected_redemptions);
    let s3 = spec_u64_to_le_bytes(t.redemptions);
    assert(b.subrange(1, 33) =~= t.metadata@);
    assert(b.subrange(33, 41) =~= s1);
    assert(b.subrange(41, 49) =~= s2);
    assert(b.subrange(49, 57) =~= s3);
}

/// Uses the ledger once. An absent ticket is created with `redemptions == 1`,
/// `supply` as its frozen baseline and `expected_redemptions` as given; an
/// existing one keeps its baseline and counts one more redemption, or fails
/// with `NumericalOverflowError`, unchanged, when the counter is full.
/// Returns the baseline.
pub fn track_prize(
    ticket: &mut Option<PrizeTrackingTicket>,
    metadata: &[u8; 32],
    expected_redemptions: u64,
    supply: u64,
) -> (r: Result<u64, MetaplexError>)
    ensures
        r == tracking_result(*old(ticket), supply),
        *final(ticket) == ticket_after(*old(ticket), *metadata, expected_redemptions, supply),
        old(ticket).is_none() ==> final(ticket).unwrap().redemptions == 1,
        old(ticket).is_some() && r.is_ok() ==> final(ticket).unwrap().redemptions
            == old(ticket).unwrap().redemptions + 1,
{
    match ticket {
        None => {
            *ticket = Some(
                PrizeTrackingTicket {
                    key: PRIZE_TRACKING_TICKET_KEY,
                    metadata: *metadata,
                    supply_snapshot: supply,
                    expected_redemptions,
                    redemptions: 1,
                },
            );
            Ok(supply)
        },
        Some(t) => match t.redemptions.checked_add(1) {
            Some(next) => {
                t.redemptions = next;
                Ok(t.supply_snapshot)
            },
            None => Err(MetaplexError::NumericalOverflowError),
        },
    }
}

/// Checks that `ticket_address` is the prize tracking ticket derived for
/// `auction_manager` and `metadata_mint`, then uses the ledger once as
/// `track_prize` does. Returns the baseline and the ticket's bump seed; fails
/// with `DerivedKeyInvalid`, leaving the ledger as it was, when the address is
/// not the derived one.
pub fn create_or_update_prize_tracking(
    program_id: &[u8; 32],
    auction_manager: &[u8; 32],
    ticket_address: &[u8; 32],
    ticket: &mut Option<PrizeTrackingTicket>,
    metadata: &[u8; 32],
    metadata_mint: &[u8; 32],
    expected_redemptions: u64,
    supply: u64,
) -> (r: Result<(u64, u8), MetaplexError>)
    ensures
        ({
            let d = program_address_of(
                prize_tracking_seed_seq(program_id@, auction_manager@, metadata_mint@),
                program_id@,
            );
            &&& derived_matches(d, ticket_address@) ==> {
                &&& *final(ticket) == ticket_after(
                    *old(ticket),
                    *metadata,
                    expected_redemptions,
                    supply,
                )
                &&& match tracking_result(*old(ticket), supply) {
                    Ok(b) => r == Ok::<(u64, u8), MetaplexError>((b, derived_bump(d))),
                    Err(e) => r == Err::<(u64, u8), MetaplexError>(e),
                }
            }
            &&& !derived_matches(d, ticket_address@) ==> {
                &&& *final(ticket) == *old(ticket)
                &&& r == Err::<(u64, u8), MetaplexError>(MetaplexError::DerivedKeyInvalid)
            }
        }),
{
    let seeds = prize_tracking_seeds(program_id, auction_manager, metadata_mint);
    let bump = match assert_derivation(program_id, ticket_address, &seeds) {
        Ok(b) => b,
        Err(e) => {
            return Err(e);
        },
    };
    match track_prize(ticket, metadata, expected_redemptions, supply) {
        Ok(baseline) => Ok((baseline, bump)),
        Err(e) => Err(e),
    }
}

/// Using an existing ledger twice returns the same baseline both times and
/// raises the counter by exactly one each time.
pub proof fn lemma_tracking_twice(
    t: PrizeTrackingTicket,
    metadata: [u8; 32],
    expected_first: u64,
    expected_second: u64,
    supply_first: u64,
    supply_second: u64,
)
    requires
        t.redemptions + 2 <= u64::MAX,
    ensures
        ({
            let once = ticket_after(Some(t), metadata, expected_first, supply_first);
            let twice = ticket_after(once, metadata, expected_second, supply_second);
            &&& tracking_result(Some(t), supply_first) == Ok::<u64, MetaplexError>(
                t.supply_snapshot,
            )
            &&& tracking_result(once, supply_second) == Ok::<u64, MetaplexError>(
                t.supply_snapshot,
            )
            &&& once.unwrap().redemptions == t.redemptions + 1
            &&& twice.unwrap().redemptions == t.redemptions + 2
            &&& twice.unwrap().supply_snapshot == t.supply_snapshot
        }),
{
}

/// A fresh ledger returns the supply it was given as its baseline and starts
/// its counter at one.
pub proof fn lemma_tracking_fresh(metadata: [u8; 32], expected: u64, supply: u64)
    ensures
        tracking_result(None, supply) == Ok::<u64, MetaplexError>(supply),
        ticket_after(None, metadata, expected, supply).unwrap().redemptions == 1,
        ticket_after(None, metadata, expected, supply).unwrap().supply_snapshot == supply,
        ticket_after(None, metadata, expected, supply).unwrap().expected_redemptions == expected,
{
}

/// A ledger whose counter is full refuses the next use with
/// `NumericalOverflowError` and stays as it was.
pub proof fn lemma_tracking_full(t: PrizeTrackingTicket, metadata: [u8; 32], expected: u64, supply: u64)
    requires
        t.redemptions == u64::MAX,
    ensures
        tracking_result(Some(t), supply) == Err::<u64, MetaplexError>(
            MetaplexError::NumericalOverflowError,
        ),
        ticket_after(Some(t), metadata, expected, supply) == Some(t),
{
}

} // verus!
