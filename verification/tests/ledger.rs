use openzt::ledger::{admissions_updates, endowment_updates, status_offset, transaction_updates, SlotUpdate, Transaction};

fn applied(updates: &[SlotUpdate], amount: f32) -> Vec<(u32, f32)> {
    updates.iter().map(|u| (u.offset, u.sign as f32 * amount)).collect()
}

#[test]
fn spend_construction_touches_exactly_its_own_and_shared_slots() {
    let updates = transaction_updates(Transaction::SpendConstruction, 2, 3);
    let month_off = 2 * 4;
    let year_off = 3 * 4;
    assert_eq!(
        applied(&updates, 5.0),
        vec![
            (0x1e0 + month_off, 5.0),
            (0x3f0 + month_off, -5.0),
            (0x814 + year_off, 5.0),
            (0xb84 + year_off, -5.0),
            (0x10e0, 5.0),
            (0x110c, -5.0),
        ]
    );
}

#[test]
fn refund_animal_cost_adds_to_the_shared_slot_instead_of_subtracting() {
    let updates = transaction_updates(Transaction::RefundAnimalCost, 1, 0);
    let month_off = 1 * 4;
    assert_eq!(
        applied(&updates, 7.5),
        vec![(0x330 + month_off, 7.5), (0x3f0 + month_off, 7.5), (0xa44, 7.5), (0xb84, 7.5), (0x10fc, 7.5), (0x110c, 7.5)]
    );
}

#[test]
fn change_endowment_members_positive_delta_hits_base_and_positive_triples() {
    let updates = endowment_updates(4, 4, 5);
    let month_off = 4 * 4;
    let year_off = 5 * 4;
    assert_eq!(
        applied(&updates, 4.0),
        vec![
            (0x540 + month_off, 4.0),
            (0xdb4 + year_off, 4.0),
            (0x1128, 4.0),
            (0x570 + month_off, 4.0),
            (0xe04 + year_off, 4.0),
            (0x112c, 4.0),
        ]
    );
}

#[test]
fn change_endowment_members_negative_delta_hits_base_and_negative_triples() {
    let updates = endowment_updates(-4, 4, 5);
    let month_off = 4 * 4;
    let year_off = 5 * 4;
    assert_eq!(
        applied(&updates, -4.0),
        vec![
            (0x540 + month_off, -4.0),
            (0xdb4 + year_off, -4.0),
            (0x1128, -4.0),
            (0x5a0 + month_off, 4.0),
            (0xe54 + year_off, 4.0),
            (0x1130, 4.0),
        ]
    );
}

#[test]
fn change_endowment_members_zero_delta_hits_only_the_base_triple() {
    let updates = endowment_updates(0, 4, 5);
    let month_off = 4 * 4;
    let year_off = 5 * 4;
    assert_eq!(applied(&updates, 0.0), vec![(0x540 + month_off, 0.0), (0xdb4 + year_off, 0.0), (0x1128, 0.0)]);
}

#[test]
fn every_transaction_has_six_distinct_slots() {
    for t in [
        Transaction::PurchaseFood,
        Transaction::HealAnimal,
        Transaction::BuyAnimal,
        Transaction::SpendConstruction,
        Transaction::IncreaseAdmissionsIncome,
        Transaction::BuyPeopleFood,
        Transaction::IncreaseDonations,
        Transaction::RefundConstruction,
        Transaction::RefundAnimalCost,
        Transaction::SpendKeeperWages,
        Transaction::SpendGuideWages,
        Transaction::SpendMaintWages,
        Transaction::SpendResearch,
        Transaction::IncreaseEndowment,
        Transaction::SpendBuildingUpkeep,
        Transaction::SpendMarketing,
        Transaction::IncreaseShowAdmission,
    ] {
        let updates = transaction_updates(t, 11, 19);
        assert_eq!(updates.len(), 6);
        for i in 0..6 {
            for j in (i + 1)..6 {
                assert_ne!(updates[i].offset, updates[j].offset);
            }
        }
    }
    assert_eq!(transaction_updates(Transaction::SpendMarketing, 0, 0)[1].sign, -1);
    assert_eq!(transaction_updates(Transaction::BuyPeopleFood, 0, 0)[1].sign, 1);
}

#[test]
fn admissions_and_status_slots() {
    assert_eq!(
        applied(&admissions_updates(3, 1), 12.0),
        vec![(0x210 + 12, 12.0), (0x864 + 4, 12.0), (0x10e4, 12.0), (0x5d0 + 12, 12.0)]
    );
    assert_eq!(status_offset(2, 0, -1, 3, 4), Some(0x150 + 2 * 0x30 + 3 * 4));
    assert_eq!(status_offset(2, 0, 7, 3, 4), Some(0x150 + 2 * 0x30 + 7 * 4));
    assert_eq!(status_offset(2, 1, -1, 3, 4), Some(0x724 + 2 * 0x50 + 4 * 4));
    assert_eq!(status_offset(2, 2, 9, 3, 4), Some(0x10d4 + 2 * 4));
    assert_eq!(status_offset(2, 3, 9, 3, 4), None);
}
