use metaplex::{
    allocate_edition, assert_derivation, auction_manager_seeds, check_derivation,
    create_or_update_prize_tracking, prize_tracking_seeds, process_redeem_printing_v2_bid,
    MetaplexError, MintOrder, PrizeTrackingTicket, RedeemAccounts, WinningConfig,
    WinningConfigItem, WinningConfigType,
};
use solana_program::pubkey::Pubkey;

const BOX_A: u8 = 0;
const BOX_B: u8 = 1;

fn item(index: u8, amount: u8) -> WinningConfigItem {
    WinningConfigItem {
        safety_deposit_box_index: index,
        amount,
        winning_config_type: WinningConfigType::PrintingV2,
    }
}

fn scenario() -> Vec<WinningConfig> {
    vec![
        WinningConfig { items: vec![item(BOX_A, 3)] },
        WinningConfig { items: vec![item(BOX_A, 2)] },
        WinningConfig { items: vec![item(BOX_B, 1)] },
    ]
}

fn accounts() -> RedeemAccounts {
    let program_id = [11u8; 32];
    let auction = [12u8; 32];
    let metadata_mint = [13u8; 32];
    let program = Pubkey::new_from_array(program_id);
    let (auction_manager, _) =
        Pubkey::find_program_address(&[b"metaplex", auction.as_ref()], &program);
    let (ticket, _) = Pubkey::find_program_address(
        &[b"metaplex", program_id.as_ref(), auction_manager.as_ref(), metadata_mint.as_ref()],
        &program,
    );
    RedeemAccounts {
        program_id,
        auction,
        auction_manager: auction_manager.to_bytes(),
        prize_tracking_ticket: ticket.to_bytes(),
        metadata: [14u8; 32],
        metadata_mint,
        metadata_owner: [15u8; 32],
        token_metadata_program: [15u8; 32],
    }
}

#[test]
fn scenario_first_allocation_creates_ledger() {
    let acc = accounts();
    let configs = scenario();
    let mut ticket: Option<PrizeTrackingTicket> = None;
    let (edition, _) = allocate_edition(&acc, &configs, 1, BOX_A, 4, &mut ticket, 10).unwrap();
    assert_eq!(edition, 14);
    let t = ticket.unwrap();
    assert_eq!(t.expected_redemptions, 5);
    assert_eq!(t.supply_snapshot, 10);
    assert_eq!(t.redemptions, 1);
    assert_eq!(t.metadata, acc.metadata);
}

#[test]
fn baseline_is_frozen_across_placements() {
    let acc = accounts();
    let configs = scenario();
    let mut ticket: Option<PrizeTrackingTicket> = None;
    assert_eq!(allocate_edition(&acc, &configs, 0, BOX_A, 2, &mut ticket, 10).unwrap().0, 12);
    assert_eq!(allocate_edition(&acc, &configs, 1, BOX_A, 5, &mut ticket, 99).unwrap().0, 15);
    let t = ticket.unwrap();
    assert_eq!(t.supply_snapshot, 10);
    assert_eq!(t.redemptions, 2);
    assert_eq!(t.expected_redemptions, 5);
}

#[test]
fn offsets_just_outside_window_fail() {
    let acc = accounts();
    let configs = scenario();
    let mut ticket: Option<PrizeTrackingTicket> = None;
    for offset in [3u64, 6u64, 0u64] {
        assert_eq!(
            allocate_edition(&acc, &configs, 1, BOX_A, offset, &mut ticket, 10),
            Err(MetaplexError::InvalidEditionNumber)
        );
    }
    assert!(ticket.is_none());
}

#[test]
fn placement_without_claim_has_empty_window() {
    let acc = accounts();
    let configs = scenario();
    let mut ticket: Option<PrizeTrackingTicket> = None;
    assert_eq!(
        allocate_edition(&acc, &configs, 2, BOX_A, 6, &mut ticket, 10),
        Err(MetaplexError::InvalidEditionNumber)
    );
}

#[test]
fn repeat_allocation_is_not_capped() {
    let acc = accounts();
    let configs = scenario();
    let mut ticket: Option<PrizeTrackingTicket> = None;
    let first = allocate_edition(&acc, &configs, 1, BOX_B, 1, &mut ticket, 0);
    assert_eq!(first, Err(MetaplexError::InvalidEditionNumber));
    let first = allocate_edition(&acc, &configs, 2, BOX_B, 1, &mut ticket, 7).unwrap();
    assert_eq!(first.0, 8);
    for n in 2..5u64 {
        let again = allocate_edition(&acc, &configs, 2, BOX_B, 1, &mut ticket, 7).unwrap();
        assert_eq!(again, first);
        assert_eq!(ticket.unwrap().redemptions, n);
        assert_eq!(ticket.unwrap().expected_redemptions, 1);
    }
}

#[test]
fn final_edition_overflow_leaves_ledger_unchanged() {
    let acc = accounts();
    let configs = scenario();
    let mut ticket: Option<PrizeTrackingTicket> = None;
    assert_eq!(
        allocate_edition(&acc, &configs, 0, BOX_A, 3, &mut ticket, u64::MAX - 2),
        Err(MetaplexError::NumericalOverflowError)
    );
    assert!(ticket.is_none());
}

#[test]
fn wrong_ticket_address_fails_derivation() {
    let mut acc = accounts();
    acc.prize_tracking_ticket = [0u8; 32];
    let configs = scenario();
    let mut ticket: Option<PrizeTrackingTicket> = None;
    assert_eq!(
        allocate_edition(&acc, &configs, 0, BOX_A, 1, &mut ticket, 10),
        Err(MetaplexError::DerivedKeyInvalid)
    );
    assert!(ticket.is_none());
}

#[test]
fn ledger_derivation_and_bump() {
    let acc = accounts();
    let program = Pubkey::new_from_array(acc.program_id);
    let (_, bump) = Pubkey::find_program_address(
        &[b"metaplex", acc.program_id.as_ref(), acc.auction_manager.as_ref(), acc.metadata_mint.as_ref()],
        &program,
    );
    let mut ticket: Option<PrizeTrackingTicket> = None;
    let r = create_or_update_prize_tracking(
        &acc.program_id,
        &acc.auction_manager,
        &acc.prize_tracking_ticket,
        &mut ticket,
        &acc.metadata,
        &acc.metadata_mint,
        5,
        10,
    );
    assert_eq!(r, Ok((10, bump)));
    assert_eq!(ticket.unwrap().redemptions, 1);
}

#[test]
fn seeds_and_derivation_check() {
    let acc = accounts();
    let seeds = prize_tracking_seeds(&acc.program_id, &acc.auction_manager, &acc.metadata_mint);
    assert_eq!(seeds.len(), 4);
    assert_eq!(seeds[0], b"metaplex".to_vec());
    assert_eq!(seeds[3], acc.metadata_mint.to_vec());
    let am_seeds = auction_manager_seeds(&acc.auction);
    let program = Pubkey::new_from_array(acc.program_id);
    let (_, bump) = Pubkey::find_program_address(&[b"metaplex", acc.auction.as_ref()], &program);
    assert_eq!(assert_derivation(&acc.program_id, &acc.auction_manager, &am_seeds), Ok(bump));
    assert_eq!(
        assert_derivation(&acc.program_id, &acc.auction, &am_seeds),
        Err(MetaplexError::DerivedKeyInvalid)
    );
    assert_eq!(check_derivation(Some(([1u8; 32], 254)), &[1u8; 32]), Ok(254));
    assert_eq!(
        check_derivation(Some(([1u8; 32], 254)), &[2u8; 32]),
        Err(MetaplexError::DerivedKeyInvalid)
    );
    assert_eq!(check_derivation(None, &[1u8; 32]), Err(MetaplexError::DerivedKeyInvalid));
}

#[test]
fn redeem_mints_scenario_edition() {
    let acc = accounts();
    let configs = scenario();
    let program = Pubkey::new_from_array(acc.program_id);
    let (_, am_bump) = Pubkey::find_program_address(&[b"metaplex", acc.auction.as_ref()], &program);
    let (_, ticket_bump) = Pubkey::find_program_address(
        &[b"metaplex", acc.program_id.as_ref(), acc.auction_manager.as_ref(), acc.metadata_mint.as_ref()],
        &program,
    );
    let mut ticket: Option<PrizeTrackingTicket> = None;
    let r = process_redeem_printing_v2_bid(
        &acc,
        &configs,
        false,
        Some(1),
        WinningConfigType::PrintingV2,
        BOX_A,
        4,
        1,
        &mut ticket,
        10,
    );
    assert_eq!(
        r,
        Ok(Some(MintOrder {
            edition: 14,
            auction_manager_bump: am_bump,
            prize_tracking_bump: ticket_bump,
        }))
    );
    assert_eq!(ticket.unwrap().expected_redemptions, 5);
    assert_eq!(ticket.unwrap().redemptions, 1);
}

#[test]
fn redeem_without_allocation() {
    let acc = accounts();
    let configs = scenario();
    let mut ticket: Option<PrizeTrackingTicket> = None;
    let cases = [(true, Some(0usize)), (false, None), (false, Some(3usize))];
    for (cancelled, win_index) in cases {
        let r = process_redeem_printing_v2_bid(
            &acc,
            &configs,
            cancelled,
            win_index,
            WinningConfigType::PrintingV2,
            BOX_A,
            1,
            1,
            &mut ticket,
            10,
        );
        assert_eq!(r, Ok(None));
    }
    assert!(ticket.is_none());
}

#[test]
fn redeem_errors() {
    let acc = accounts();
    let configs = scenario();
    let mut ticket: Option<PrizeTrackingTicket> = None;
    let run = |acc: &RedeemAccounts, kind, amount, ticket: &mut Option<PrizeTrackingTicket>| {
        process_redeem_printing_v2_bid(acc, &configs, false, Some(0), kind, BOX_A, 1, amount, ticket, 10)
    };
    assert_eq!(
        run(&acc, WinningConfigType::PrintingV2, 2, &mut ticket),
        Err(MetaplexError::ProvidedAccountDoesNotContainOneToken)
    );
    assert_eq!(
        run(&acc, WinningConfigType::PrintingV1, 1, &mut ticket),
        Err(MetaplexError::WrongBidEndpointForPrize)
    );
    let mut other_owner = acc;
    other_owner.metadata_owner = [0u8; 32];
    assert_eq!(
        run(&other_owner, WinningConfigType::PrintingV2, 1, &mut ticket),
        Err(MetaplexError::IncorrectOwner)
    );
    let mut bad_manager = acc;
    bad_manager.auction_manager = [0u8; 32];
    assert_eq!(
        run(&bad_manager, WinningConfigType::PrintingV2, 1, &mut ticket),
        Err(MetaplexError::DerivedKeyInvalid)
    );
    assert!(ticket.is_none());
}
