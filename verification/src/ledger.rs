//! The zoo's finance ledger: which history slots of the status tracker each transaction updates.
//!
//! The tracker keeps, per category, a monthly row, a yearly row and a running total; each
//! transaction adds its amount to its own category's current month, current year and total, and
//! adds or subtracts it in the shared balance category. Slots are byte offsets into the tracker;
//! the amounts themselves are floating point and are added by the caller.
use vstd::prelude::*;

verus! {

/// A money movement the tracker records.
#[derive(Clone, Copy, Debug, PartialEq, Eq, Structural)]
pub enum Transaction {
    PurchaseFood,
    HealAnimal,
    BuyAnimal,
    SpendConstruction,
    IncreaseAdmissionsIncome,
    BuyPeopleFood,
    IncreaseDonations,
    RefundConstruction,
    RefundAnimalCost,
    SpendKeeperWages,
    SpendGuideWages,
    SpendMaintWages,
    SpendResearch,
    IncreaseEndowment,
    SpendBuildingUpkeep,
    SpendMarketing,
    IncreaseShowAdmission,
}

/// Offset of the shared balance category's monthly row.
pub const BALANCE_MONTHLY: u32 = 0x3f0;
/// Offset of the shared balance category's yearly row.
pub const BALANCE_YEARLY: u32 = 0xb84;
/// Offset of the shared balance category's total.
pub const BALANCE_TOTAL: u32 = 0x110c;

/// A transaction's own monthly row, yearly row and total, and whether it counts against the
/// balance (spending) rather than for it (income and refunds).
pub open spec fn spec_transaction_slots(t: Transaction) -> (u32, u32, u32, bool) {
    match t {
        Transaction::PurchaseFood => (0x150, 0x724, 0x10d4, true),
        Transaction::HealAnimal => (0x180, 0x774, 0x10d8, true),
        Transaction::BuyAnimal => (0x1b0, 0x7c4, 0x10dc, true),
        Transaction::SpendConstruction => (0x1e0, 0x814, 0x10e0, true),
        Transaction::IncreaseAdmissionsIncome => (0x240, 0x8b4, 0x10e8, false),
        Transaction::BuyPeopleFood => (0x270, 0x904, 0x10ec, false),
        Transaction::IncreaseDonations => (0x2d0, 0x9a4, 0x10f4, false),
        Transaction::RefundConstruction => (0x300, 0x9f4, 0x10f8, false),
        Transaction::RefundAnimalCost => (0x330, 0xa44, 0x10fc, false),
        Transaction::SpendKeeperWages => (0x360, 0xa94, 0x1100, true),
        Transaction::SpendGuideWages => (0x390, 0xae4, 0x1104, true),
        Transaction::SpendMaintWages => (0x3c0, 0xb34, 0x1108, true),
        Transaction::SpendResearch => (0x4e0, 0xd14, 0x1120, true),
        Transaction::IncreaseEndowment => (0x510, 0xd64, 0x1124, false),
        Transaction::SpendBuildingUpkeep => (0x690, 0xfe4, 0x1144, true),
        Transaction::SpendMarketing => (0x6c0, 0x1034, 0x1148, true),
        Transaction::IncreaseShowAdmission => (0x6f0, 0x1084, 0x114c, false),
    }
}

/// The slots of a transaction.
pub fn transaction_slots(t: Transaction) -> (r: (u32, u32, u32, bool))
    ensures
        r == spec_transaction_slots(t),
{
    match t {
        Transaction::PurchaseFood => (0x150, 0x724, 0x10d4, true),
        Transaction::HealAnimal => (0x180, 0x774, 0x10d8, true),
        Transaction::BuyAnimal => (0x1b0, 0x7c4, 0x10dc, true),
        Transaction::SpendConstruction => (0x1e0, 0x814, 0x10e0, true),
        Transaction::IncreaseAdmissionsIncome => (0x240, 0x8b4, 0x10e8, false),
        Transaction::BuyPeopleFood => (0x270, 0x904, 0x10ec, false),
        Transaction::IncreaseDonations => (0x2d0, 0x9a4, 0x10f4, false),
        Transaction::RefundConstruction => (0x300, 0x9f4, 0x10f8, false),
        Transaction::RefundAnimalCost => (0x330, 0xa44, 0x10fc, false),
        Transaction::SpendKeeperWages => (0x360, 0xa94, 0x1100, true),
        Transaction::SpendGuideWages => (0x390, 0xae4, 0x1104, true),
        Transaction::SpendMaintWages => (0x3c0, 0xb34, 0x1108, true),
        Transaction::SpendResearch => (0x4e0, 0xd14, 0x1120, true),
        Transaction::IncreaseEndowment => (0x510, 0xd64, 0x1124, false),
        Transaction::SpendBuildingUpkeep => (0x690, 0xfe4, 0x1144, true),
        Transaction::SpendMarketing => (0x6c0, 0x1034, 0x1148, true),
        Transaction::IncreaseShowAdmission => (0x6f0, 0x1084, 0x114c, false),
    }
}

/// One update of a history slot: add `sign` times the amount at `offset`.
#[derive(Clone, Copy, Debug, PartialEq, Eq, Structural)]
pub struct SlotUpdate {
    pub offset: u32,
    pub sign: i8,
}

/// Whether the current month and year indices give in-range row offsets (4 bytes per entry).
pub open spec fn indices_fit(month_index: i32, year_index: i32) -> bool {
    &&& (month_index as u32) * 4 + 0x6f0 <= u32::MAX
    &&& (year_index as u32) * 4 + 0x1084 <= u32::MAX
}

/// The updates of a transaction: its own month, the balance month, its own year, the balance
/// year, its own total and the balance total, in that order; its own slots gain the amount, the
/// balance slots lose it for spending and gain it otherwise.
pub open spec fn spec_transaction_updates(t: Transaction, month_index: i32, year_index: i32) -> Seq<SlotUpdate> {
    let (monthly, yearly, total, spending) = spec_transaction_slots(t);
    let m = (month_index as u32) * 4;
    let y = (year_index as u32) * 4;
    let shared: i8 = if spending { -1i8 } else { 1i8 };
    seq![
        SlotUpdate { offset: (monthly + m) as u32, sign: 1 },
        SlotUpdate { offset: (BALANCE_MONTHLY + m) as u32, sign: shared },
        SlotUpdate { offset: (yearly + y) as u32, sign: 1 },
        SlotUpdate { offset: (BALANCE_YEARLY + y) as u32, sign: shared },
        SlotUpdate { offset: total, sign: 1 },
        SlotUpdate { offset: BALANCE_TOTAL, sign: shared },
    ]
}

/// The slot updates of a transaction in the current month and year.
pub fn transaction_updates(t: Transaction, month_index: i32, year_index: i32) -> (r: Vec<SlotUpdate>)
    requires
        indices_fit(month_index, year_index),
    ensures
        r@ == spec_transaction_updates(t, month_index, year_index),
{
    let (monthly, yearly, total, spending) = transaction_slots(t);
    let m = month_index as u32 * 4;
    let y = year_index as u32 * 4;
    let shared: i8 = if spending {
        -1
    } else {
        1
    };
    let r = vec![
        SlotUpdate { offset: monthly + m, sign: 1 },
        SlotUpdate { offset: BALANCE_MONTHLY + m, sign: shared },
        SlotUpdate { offset: yearly + y, sign: 1 },
        SlotUpdate { offset: BALANCE_YEARLY + y, sign: shared },
        SlotUpdate { offset: total, sign: 1 },
        SlotUpdate { offset: BALANCE_TOTAL, sign: shared },
    ];
    assert(r@ =~= spec_transaction_updates(t, month_index, year_index));
    r
}

/// The slots a batch of admissions counts into: the month, the year and the total of admissions,
/// and the month of the attendance category; each gains the number admitted.
pub fn admissions_updates(month_index: i32, year_index: i32) -> (r: Vec<SlotUpdate>)
    requires
        indices_fit(month_index, year_index),
    ensures
        r@ == seq![
            SlotUpdate { offset: (0x210 + (month_index as u32) * 4) as u32, sign: 1 },
            SlotUpdate { offset: (0x864 + (year_index as u32) * 4) as u32, sign: 1 },
            SlotUpdate { offset: 0x10e4, sign: 1 },
            SlotUpdate { offset: (0x5d0 + (month_index as u32) * 4) as u32, sign: 1 },
        ],
{
    let m = month_index as u32 * 4;
    let y = year_index as u32 * 4;
    let r = vec![
        SlotUpdate { offset: 0x210 + m, sign: 1 },
        SlotUpdate { offset: 0x864 + y, sign: 1 },
        SlotUpdate { offset: 0x10e4, sign: 1 },
        SlotUpdate { offset: 0x5d0 + m, sign: 1 },
    ];
    r
}

/// The slots a change of `delta` endowment members counts into: the members' month, year and
/// total gain `delta`; for a gain the joined triple also gains it, for a loss the left triple
/// loses it (so gains the number who left).
pub open spec fn spec_endowment_updates(delta: i32, month_index: i32, year_index: i32) -> Seq<SlotUpdate> {
    let m = (month_index as u32) * 4;
    let y = (year_index as u32) * 4;
    let base = seq![
        SlotUpdate { offset: (0x540 + m) as u32, sign: 1 },
        SlotUpdate { offset: (0xdb4 + y) as u32, sign: 1 },
        SlotUpdate { offset: 0x1128, sign: 1 },
    ];
    if delta > 0 {
        base + seq![
            SlotUpdate { offset: (0x570 + m) as u32, sign: 1 },
            SlotUpdate { offset: (0xe04 + y) as u32, sign: 1 },
            SlotUpdate { offset: 0x112c, sign: 1 },
        ]
    } else if delta < 0 {
        base + seq![
            SlotUpdate { offset: (0x5a0 + m) as u32, sign: -1i8 },
            SlotUpdate { offset: (0xe54 + y) as u32, sign: -1i8 },
            SlotUpdate { offset: 0x1130, sign: -1i8 },
        ]
    } else {
        base
    }
}

/// The slot updates for a change in endowment membership, each applied with the amount `delta`.
pub fn endowment_updates(delta: i32, month_index: i32, year_index: i32) -> (r: Vec<SlotUpdate>)
    requires
        indices_fit(month_index, year_index),
    ensures
        r@ == spec_endowment_updates(delta, month_index, year_index),
{
    let m = month_index as u32 * 4;
    let y = year_index as u32 * 4;
    let mut r = vec![
        SlotUpdate { offset: 0x540 + m, sign: 1 },
        SlotUpdate { offset: 0xdb4 + y, sign: 1 },
        SlotUpdate { offset: 0x1128, sign: 1 },
    ];
    if delta > 0 {
        r.push(SlotUpdate { offset: 0x570 + m, sign: 1 });
        r.push(SlotUpdate { offset: 0xe04 + y, sign: 1 });
        r.push(SlotUpdate { offset: 0x112c, sign: 1 });
    } else if delta < 0 {
        r.push(SlotUpdate { offset: 0x5a0 + m, sign: -1 });
        r.push(SlotUpdate { offset: 0xe54 + y, sign: -1 });
        r.push(SlotUpdate { offset: 0x1130, sign: -1 });
    }
    assert(r@ =~= spec_endowment_updates(delta, month_index, year_index));
    r
}

/// Where `get_status` reads: the monthly row of `category` at `index` (the current month for
/// -1) when `when` is 0, the yearly row (the current year for -1) when 1, the total when 2; `None`
/// for any other `when`, which reads a global threshold instead. Offsets are relative to the
/// tracker.
pub open spec fn spec_status_offset(category: i32, when: i32, index: i32, month_index: i32, year_index: i32) -> Option<int> {
    if when == 0 {
        Some(0x150 + category * 0x30 + (if index == -1 { month_index } else { index }) * 4)
    } else if when == 1 {
        Some(0x724 + category * 0x50 + (if index == -1 { year_index } else { index }) * 4)
    } else if when == 2 {
        Some(0x10d4 + category * 4)
    } else {
        None
    }
}

/// Whether the status slot's offset stays within 32-bit arithmetic.
pub open spec fn status_offset_fits(category: i32, when: i32, index: i32, month_index: i32, year_index: i32) -> bool {
    let idx = if when == 0 {
        if index == -1 { month_index } else { index }
    } else {
        if index == -1 { year_index } else { index }
    };
    &&& (when == 0 || when == 1) ==> i32::MIN <= idx * 4 <= i32::MAX
    &&& when == 0 ==> i32::MIN <= category * 0x30 <= i32::MAX && i32::MIN <= 0x150 + category * 0x30 <= i32::MAX
        && i32::MIN <= 0x150 + category * 0x30 + idx * 4 <= i32::MAX
    &&& when == 1 ==> i32::MIN <= category * 0x50 <= i32::MAX && i32::MIN <= 0x724 + category * 0x50 <= i32::MAX
        && i32::MIN <= 0x724 + category * 0x50 + idx * 4 <= i32::MAX
    &&& when == 2 ==> i32::MIN <= category * 4 <= i32::MAX && i32::MIN <= 0x10d4 + category * 4 <= i32::MAX
}

/// The offset of the history slot `get_status` reads, if it reads one.
pub fn status_offset(category: i32, when: i32, index: i32, month_index: i32, year_index: i32) -> (r: Option<i32>)
    requires
        status_offset_fits(category, when, index, month_index, year_index),
    ensures
        match spec_status_offset(category, when, index, month_index, year_index) {
            Some(o) => r == Some(o as i32),
            None => r is None,
        },
{
    if when == 0 {
        let idx = if index == -1 {
            month_index
        } else {
            index
        };
        Some(0x150 + category * 0x30 + idx * 4)
    } else if when == 1 {
        let idx = if index == -1 {
            year_index
        } else {
            index
        };
        Some(0x724 + category * 0x50 + idx * 4)
    } else if when == 2 {
        Some(0x10d4 + category * 4)
    } else {
        None
    }
}

/// Every transaction updates six distinct slots, and spending and income move the balance in
/// opposite directions.
pub proof fn law_transactions_touch_six_slots(t: Transaction, month_index: i32, year_index: i32)
    requires
        0 <= month_index < 12,
        0 <= year_index < 20,
    ensures
        spec_transaction_updates(t, month_index, year_index).len() == 6,
        forall|i: int, j: int|
            0 <= i < j < 6 ==> #[trigger] spec_transaction_updates(t, month_index, year_index)[i].offset
                != #[trigger] spec_transaction_updates(t, month_index, year_index)[j].offset,
        spec_transaction_updates(t, month_index, year_index)[1].sign == -spec_transaction_updates(t, month_index, year_index)[0].sign
            <==> spec_transaction_slots(t).3,
{
}

/// Spending lowers the balance and everything else raises it: buying and healing animals,
/// purchasing animal food, construction, keeper, guide and maintenance wages, research, building
/// upkeep and marketing take the amount off the shared balance's current month (offset
/// 0x3f0 plus 4 per month), current year (0xb84 plus 4 per year) and total (0x110c); admissions,
/// guests' food purchases, donations, refunds, endowments and show admissions add it there. The
/// transaction's own month, year and total always gain the amount.
pub proof fn law_spending_lowers_the_balance(t: Transaction, month_index: i32, year_index: i32)
    requires
        0 <= month_index < 12,
        0 <= year_index < 20,
    ensures
        ({
            let u = spec_transaction_updates(t, month_index, year_index);
            let spending = t == Transaction::PurchaseFood || t == Transaction::HealAnimal || t == Transaction::BuyAnimal
                || t == Transaction::SpendConstruction || t == Transaction::SpendKeeperWages || t == Transaction::SpendGuideWages
                || t == Transaction::SpendMaintWages || t == Transaction::SpendResearch || t == Transaction::SpendBuildingUpkeep
                || t == Transaction::SpendMarketing;
            let shared: i8 = if spending { -1i8 } else { 1i8 };
            &&& u.len() == 6
            &&& u[0].sign == 1 && u[2].sign == 1 && u[4].sign == 1
            &&& u[1] == SlotUpdate { offset: (0x3f0 + 4 * month_index) as u32, sign: shared }
            &&& u[3] == SlotUpdate { offset: (0xb84 + 4 * year_index) as u32, sign: shared }
            &&& u[5] == SlotUpdate { offset: 0x110c, sign: shared }
        }),
{
}

/// The history category a transaction's own monthly row belongs to (rows are 0x30 bytes apart
/// from 0x150).
pub open spec fn own_category(t: Transaction) -> int {
    (spec_transaction_slots(t).0 - 0x150) / 0x30
}

/// A transaction's own month, year and total are the three slots of one history category, the
/// same category in each region (monthly rows 0x30 bytes apart from 0x150, yearly rows 0x50 apart
/// from 0x724, totals 4 apart from 0x10d4); that category is one of the tracker's 31 and not the
/// shared balance (category 14), and no two transactions share a category.
pub proof fn law_transaction_owns_a_category(t: Transaction, other: Transaction)
    ensures
        ({
            let (monthly, yearly, total, _) = spec_transaction_slots(t);
            let c = own_category(t);
            &&& 0 <= c < 31
            &&& c != 14
            &&& monthly == 0x150 + 0x30 * c
            &&& yearly == 0x724 + 0x50 * c
            &&& total == 0x10d4 + 4 * c
        }),
        t != other ==> own_category(t) != own_category(other),
        BALANCE_MONTHLY == 0x150 + 0x30 * 14,
        BALANCE_YEARLY == 0x724 + 0x50 * 14,
        BALANCE_TOTAL == 0x10d4 + 4 * 14,
{
}

} // verus!
