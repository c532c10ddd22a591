use vstd::prelude::*;

use crate::error::MetaplexError;

verus! {

/// The kind of prize that a claim of a winning placement hands out.
#[derive(Clone, Copy, Debug, PartialEq, Eq, Structural)]
pub enum WinningConfigType {
    TokenOnlyTransfer,
    FullRightsTransfer,
    PrintingV1,
    PrintingV2,
    Participation,
}

/// One claim of a placement: `amount` editions drawn from the safety deposit
/// box at `safety_deposit_box_index`.
#[derive(Clone, Copy, Debug, PartialEq, Eq, Structural)]
pub struct WinningConfigItem {
    pub safety_deposit_box_index: u8,
    pub amount: u8,
    pub winning_config_type: WinningConfigType,
}

/// What one auction rank wins.
#[derive(Clone, Debug)]
pub struct WinningConfig {
    pub items: Vec<WinningConfigItem>,
}

/// The amount of the first claim in `items` on the box `order`; 0 when none
/// matches. Later claims on the same box are ignored.
pub open spec fn item_amount(items: Seq<WinningConfigItem>, order: u8) -> nat
    decreases items.len(),
{
    if items.len() == 0 {
        0
    } else if items[0].safety_deposit_box_index == order {
        items[0].amount as nat
    } else {
        item_amount(items.drop_first(), order)
    }
}

/// What placement `i` claims from the box `order`.
pub open spec fn placement_amount(configs: Seq<WinningConfig>, i: int, order: u8) -> nat {
    item_amount(configs[i].items@, order)
}

/// What the first `n` placements claim together from the box `order`.
pub open spec fn claimed_before(configs: Seq<WinningConfig>, n: int, order: u8) -> nat
    decreases n,
{
    if n <= 0 {
        0
    } else {
        claimed_before(configs, n - 1, order) + placement_amount(configs, n - 1, order)
    }
}

/// What all placements claim together from the box `order`.
pub open spec fn total_claimed(configs: Seq<WinningConfig>, order: u8) -> nat {
    claimed_before(configs, configs.len() as int, order)
}

/// First edition number of the window of placement `i`; numbering starts at 1.
pub open spec fn window_min(configs: Seq<WinningConfig>, i: int, order: u8) -> int {
    1 + claimed_before(configs, i, order) as int
}

/// One past the last edition number of the window of placement `i`.
pub open spec fn window_max(configs: Seq<WinningConfig>, i: int, order: u8) -> int {
    window_min(configs, i, order) + placement_amount(configs, i, order) as int
}

proof fn lemma_first_match(items: Seq<WinningConfigItem>, order: u8, i: int)
    requires
        0 <= i < items.len(),
        items[i].safety_deposit_box_index == order,
        forall|j: int| 0 <= j < i ==> items[j].safety_deposit_box_index != order,
    ensures
        item_amount(items, order) == items[i].amount as nat,
    decreases i,
{
    if i > 0 {
        lemma_first_match(items.drop_first(), order, i - 1);
    }
}

proof fn lemma_no_match(items: Seq<WinningConfigItem>, order: u8)
    requires
        forall|j: int| 0 <= j < items.len() ==> items[j].safety_deposit_box_index != order,
    ensures
        item_amount(items, order) == 0,
    decreases items.len(),
{
    if items.len() > 0 {
        lemma_no_match(items.drop_first(), order);
    }
}

/// The prefix sums never decrease.
pub proof fn lemma_claimed_before_monotone(configs: Seq<WinningConfig>, i: int, j: int, order: u8)
    requires
        i <= j,
    ensures
        claimed_before(configs, i, order) <= claimed_before(configs, j, order),
    decreases j - i,
{
    if i < j {
        lemma_claimed_before_monotone(configs, i, j - 1, order);
    }
}

/// The amount that `items` claims from the safety deposit box `safety_deposit_index`:
/// that of the first matching claim, or 0 when no claim matches.
pub fn count_item_amount_by_safety_deposit_order(
    items: &Vec<WinningConfigItem>,
    safety_deposit_index: u8,
) -> (r: u64)
    ensures
        r == item_amount(items@, safety_deposit_index),
        (forall|j: int|
            0 <= j < items@.len() ==> items@[j].safety_deposit_box_index != safety_deposit_index)
            ==> r == 0,
        r <= 255,
{
    let mut i: usize = 0;
    while i < items.len()
        invariant
            i <= items@.len(),
            forall|j: int| 0 <= j < i ==> items@[j].safety_deposit_box_index != safety_deposit_index,
        decreases items@.len() - i,
    {
        if items[i].safety_deposit_box_index == safety_deposit_index {
            proof {
                lemma_first_match(items@, safety_deposit_index, i as int);
            }
            return items[i].amount as u64;
        }
        i += 1;
    }
    proof {
        lemma_no_match(items@, safety_deposit_index);
    }
    0
}

/// The half-open window `[min, max)` of edition numbers owned by placement
/// `winning_index` for the box `order`. Fails with `NumericalOverflowError`
/// exactly when `max` does not fit in a `u64`.
pub fn edition_window(configs: &Vec<WinningConfig>, winning_index: usize, order: u8) -> (r: Result<
    (u64, u64),
    MetaplexError,
>)
    requires
        winning_index < configs@.len(),
    ensures
        window_max(configs@, winning_index as int, order) <= u64::MAX ==> r == Ok::<
            (u64, u64),
            MetaplexError,
        >(
            (
                window_min(configs@, winning_index as int, order) as u64,
                window_max(configs@, winning_index as int, order) as u64,
            ),
        ),
        window_max(configs@, winning_index as int, order) > u64::MAX ==> r == Err::<
            (u64, u64),
            MetaplexError,
        >(MetaplexError::NumericalOverflowError),
{
    let mut min: u64 = 1;
    let mut n: usize = 0;
    while n < winning_index
        invariant
            n <= winning_index < configs@.len(),
            min == window_min(configs@, n as int, order),
        decreases winning_index - n,
    {
        let matching = count_item_amount_by_safety_deposit_order(&configs[n].items, order);
        match min.checked_add(matching) {
            Some(m) => {
                min = m;
            },
            None => {
                proof {
                    lemma_claimed_before_monotone(
                        configs@,
                        n as int + 1,
                        winning_index as int,
                        order,
                    );
                }
                return Err(MetaplexError::NumericalOverflowError);
            },
        }
        n += 1;
    }
    let own = count_item_amount_by_safety_deposit_order(&configs[winning_index].items, order);
    match min.checked_add(own) {
        Some(max) => Ok((min, max)),
        None => Err(MetaplexError::NumericalOverflowError),
    }
}

/// The total amount that all placements claim from the box `order`: the number
/// of redemptions a new prize tracking ticket expects. Fails with
/// `NumericalOverflowError` exactly when the total does not fit in a `u64`.
pub fn total_expected_redemptions(configs: &Vec<WinningConfig>, order: u8) -> (r: Result<
    u64,
    MetaplexError,
>)
    ensures
        total_claimed(configs@, order) <= u64::MAX ==> r == Ok::<u64, MetaplexError>(
            total_claimed(configs@, order) as u64,
        ),
        total_claimed(configs@, order) > u64::MAX ==> r == Err::<u64, MetaplexError>(
            MetaplexError::NumericalOverflowError,
        ),
{
    let mut total: u64 = 0;
    let mut n: usize = 0;
    while n < configs.len()
        invariant
            n <= configs@.len(),
            total == claimed_before(configs@, n as int, order),
        decreases configs@.len() - n,
    {
        let matching = count_item_amount_by_safety_deposit_order(&configs[n].items, order);
        match total.checked_add(matching) {
            Some(t) => {
                total = t;
            },
            None => {
                proof {
                    lemma_claimed_before_monotone(
                        configs@,
                        n as int + 1,
                        configs@.len() as int,
                        order,
                    );
                }
                return Err(MetaplexError::NumericalOverflowError);
            },
        }
        n += 1;
    }
    Ok(total)
}

/// Windows of distinct placements never overlap: for `i < j` the window of `i`
/// ends where or before the window of `j` begins, and consecutive windows touch.
/// The first window begins at 1 and the last one ends at `1 + total`.
pub proof fn lemma_windows_disjoint_and_contiguous(configs: Seq<WinningConfig>, order: u8)
    ensures
        forall|i: int, j: int|
            0 <= i < j < configs.len() ==> #[trigger] window_max(configs, i, order) <= #[trigger]
            window_min(configs, j, order),
        forall|i: int|
            0 <= i && i + 1 < configs.len() ==> #[trigger] window_max(configs, i, order)
                == window_min(configs, i + 1, order),
        configs.len() > 0 ==> window_min(configs, 0, order) == 1,
        configs.len() > 0 ==> window_max(configs, configs.len() - 1, order) == 1 + total_claimed(
            configs,
            order,
        ),
{
    assert forall|i: int, j: int|
        0 <= i < j < configs.len() implies #[trigger] window_max(configs, i, order)
        <= #[trigger] window_min(configs, j, order) by {
        lemma_claimed_before_monotone(configs, i + 1, j, order);
    }
}

/// Every edition number in `[1, 1 + total)` lies in the window of some
/// placement, and no number outside that range lies in any window.
pub proof fn lemma_windows_cover_range(configs: Seq<WinningConfig>, order: u8, e: int)
    ensures
        (1 <= e < 1 + total_claimed(configs, order)) <==> (exists|i: int|
            0 <= i < configs.len() && #[trigger] window_min(configs, i, order) <= e < window_max(
                configs,
                i,
                order,
            )),
{
    lemma_cover_prefix(configs, order, e, configs.len() as int);
}

proof fn lemma_cover_prefix(configs: Seq<WinningConfig>, order: u8, e: int, n: int)
    requires
        0 <= n <= configs.len(),
    ensures
        (1 <= e < 1 + claimed_before(configs, n, order)) <==> (exists|i: int|
            0 <= i < n && #[trigger] window_min(configs, i, order) <= e < window_max(configs, i, order)),
    decreases n,
{
    if n > 0 {
        lemma_cover_prefix(configs, order, e, n - 1);
        if exists|i: int|
            0 <= i < n && #[trigger] window_min(configs, i, order) <= e < window_max(configs, i, order) {
            let i = choose|i: int|
                0 <= i < n && #[trigger] window_min(configs, i, order) <= e < window_max(configs, i, order);
            lemma_claimed_before_monotone(configs, i + 1, n, order);
        } else if 1 <= e < 1 + claimed_before(configs, n, order) {
            if e < 1 + claimed_before(configs, n - 1, order) {
            } else {
                assert(window_min(configs, n - 1, order) <= e < window_max(configs, n - 1, order));
            }
        }
    }
}

} // verus!
