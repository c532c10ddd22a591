//! Edition allocation for printing-v2 auction prizes: the numeric window that
//! each winning placement owns, the prize tracking ledger that freezes a supply
//! baseline, and the redemption step that combines the two.

pub mod derivation;
pub mod error;
pub mod placement;
pub mod redeem;
pub mod ticket;

pub use derivation::{
    assert_derivation, auction_manager_seeds, check_derivation, prize_tracking_seeds, same_key,
};
pub use error::MetaplexError;
pub use placement::{
    count_item_amount_by_safety_deposit_order, edition_window, total_expected_redemptions,
    WinningConfig, WinningConfigItem, WinningConfigType,
};

pub use ticket::{
    create_or_update_prize_tracking, track_prize, PrizeTrackingTicket, PRIZE_TRACKING_TICKET_KEY,
    PRIZE_TRACKING_TICKET_SIZE,
};
pub use redeem::{
    allocate_edition, process_redeem_printing_v2_bid, MintOrder, RedeemAccounts,
};
