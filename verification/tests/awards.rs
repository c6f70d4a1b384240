use openzt::awards::{
    award_list_item_color, insert_sorted_unique, is_award_config_name, should_report_award_count, AwardConfigFile, AwardData,
    AwardSection, ZTAwardMgrState,
};
use openzt::memory::ZtMemory;

#[test]
fn insert_sorted_unique_keeps_vector_descending_and_deduped() {
    let mut ids = Vec::new();
    for id in [5, 1, 3, 1, 5, 2] {
        insert_sorted_unique(&mut ids, id);
    }
    assert_eq!(ids, vec![5, 3, 2, 1]);
}

#[test]
fn insert_sorted_unique_matches_live_observed_ordering() {
    let mut ids = Vec::new();
    insert_sorted_unique(&mut ids, 0);
    insert_sorted_unique(&mut ids, -1);
    assert_eq!(ids, vec![0, -1]);
}

#[test]
fn should_report_award_count_requires_every_condition() {
    assert!(should_report_award_count(1, 0xb, 10, 0x1000, 10));
    assert!(should_report_award_count(1, 0xb, 10, 0x1000, 20));
    assert!(!should_report_award_count(0, 0xb, 10, 0x1000, 10), "wrong goal kind");
    assert!(!should_report_award_count(1, 0xa, 10, 0x1000, 10), "wrong submetric");
    assert!(!should_report_award_count(1, 0xb, 10, 0, 10), "null game mgr");
    assert!(!should_report_award_count(1, 0xb, 11, 0x1000, 10), "threshold not yet reached");
}

#[test]
fn adding_an_award_twice_keeps_one_copy() {
    let mut mgr = ZTAwardMgrState::new();
    mgr.add_award(7);
    mgr.add_award(7);
    mgr.add_award(9);
    assert_eq!(mgr.earned_ids(), vec![9, 7]);
    assert_eq!(mgr.earned_count(), 2);
}

#[test]
fn insertion_order_does_not_change_the_earned_set() {
    let mut a = ZTAwardMgrState::new();
    let mut b = ZTAwardMgrState::new();
    for id in [4, -2, 10, 4] {
        a.add_award(id);
    }
    for id in [10, 4, -2] {
        b.add_award(id);
    }
    assert_eq!(a.earned_ids(), b.earned_ids());
}

#[test]
fn save_then_load_restores_the_earned_set() {
    let mut mgr = ZTAwardMgrState::new();
    for id in [3, 12, -5, 8] {
        mgr.add_award(id);
    }
    let words = mgr.save();
    assert_eq!(words, vec![4, 12, 8, 3, (-5i32) as u32]);

    let mut loaded = ZTAwardMgrState::new();
    loaded.add_award(99);
    let reads: Vec<Option<u32>> = words[1..].iter().map(|w| Some(*w)).collect();
    assert!(loaded.load(Some(words[0]), &reads));
    assert_eq!(loaded.earned_ids(), mgr.earned_ids());
}

#[test]
fn load_reports_failed_reads_and_missing_count() {
    let mut mgr = ZTAwardMgrState::new();
    assert!(!mgr.load(Some(2), &vec![Some(5), None]));
    assert_eq!(mgr.earned_ids(), vec![5]);
    mgr.add_award(1);
    assert!(!mgr.load(None, &vec![]));
    assert_eq!(mgr.earned_count(), 0);
}

#[test]
fn catalogue_entries_are_stored_and_replaced() {
    let mut mgr = ZTAwardMgrState::new();
    mgr.insert_award(13, AwardData::new(100, 200, "awards/icon13".to_string()));
    let award = mgr.get_award(13).unwrap();
    assert_eq!(award.name_id(), 100);
    assert_eq!(award.tooltip_id(), 200);
    assert_eq!(award.icon(), "awards/icon13");
    mgr.insert_award(13, AwardData::new(101, 0, String::new()));
    assert_eq!(mgr.get_award(13).unwrap().name_id(), 101);
    assert!(mgr.get_award(14).is_none());
}

fn strings(v: &[&str]) -> Vec<String> {
    v.iter().map(|s| s.to_string()).collect()
}

fn section(name: &str, id: &[&str], name_id: &[&str], tooltip_id: &[&str], icon: &[&str]) -> AwardSection {
    AwardSection {
        name: name.to_string(),
        id: strings(id),
        name_id: strings(name_id),
        tooltip_id: strings(tooltip_id),
        icon: strings(icon),
    }
}

#[test]
fn start_reads_only_versioned_files_and_complete_sections() {
    let unversioned = AwardConfigFile { version: vec![], awards: vec![section("1", &["1"], &["5"], &[], &[])] };
    let versioned = AwardConfigFile {
        version: strings(&["", "2"]),
        awards: vec![
            section("13", &["13"], &["3013"], &["4013"], &["", "award13"]),
            section("14", &["14"], &["0"], &["4014"], &[]),
            section("  ", &["15"], &["3015"], &[], &[]),
            section("16", &["x16"], &["3016"], &[], &[]),
            section("17", &["17"], &["3017"], &["oops"], &[]),
            section("13b", &["13"], &["9013"], &[], &[]),
        ],
    };
    let mut mgr = ZTAwardMgrState::new();
    assert!(mgr.start(&vec![unversioned, versioned]));
    assert!(mgr.get_award(1).is_none());
    assert!(mgr.get_award(14).is_none());
    assert!(mgr.get_award(15).is_none());
    assert!(mgr.get_award(16).is_none());
    let a17 = mgr.get_award(17).unwrap();
    assert_eq!((a17.name_id(), a17.tooltip_id(), a17.icon()), (3017, 0, ""));
    let a13 = mgr.get_award(13).unwrap();
    assert_eq!((a13.name_id(), a13.tooltip_id(), a13.icon()), (9013, 0, ""));

    let mut empty = ZTAwardMgrState::new();
    let zero_version = AwardConfigFile { version: strings(&["0"]), awards: vec![section("1", &["1"], &["5"], &[], &[])] };
    assert!(!empty.start(&vec![zero_version]));
}

#[test]
fn award_config_names_match_by_file_name() {
    assert!(is_award_config_name("awards/award001.cfg"));
    assert!(is_award_config_name("AWARDS/AWARD002.CFG"));
    assert!(is_award_config_name("awards/awards.cfg"));
    assert!(!is_award_config_name("award/other.cfg"));
    assert!(!is_award_config_name("awards/award001.ini"));
    assert!(!is_award_config_name("awar.cfg"));
}

#[test]
fn award_count_goal_uses_the_earned_count() {
    let mut mem = ZtMemory::zeroed(0x2000, 0x400).unwrap();
    let goal = 0x2000;
    let game_mgr = 0x2100;
    mem.save_u32(goal + 0xc, 1);
    mem.save_u32(goal + 0x10, 0xb);
    mem.save_u32(goal + 0x1c, 25);
    mem.save_u32(game_mgr + 0x15c, 1);
    mem.save_u32(game_mgr + 0x160, 2);
    let mut mgr = ZTAwardMgrState::new();
    mgr.add_award(4);
    mgr.add_award(6);
    assert_eq!(mgr.award_count_goal_value(&mem, goal, game_mgr), Some(2));
    mem.save_u32(goal + 0x1c, 26);
    assert_eq!(mgr.award_count_goal_value(&mem, goal, game_mgr), None);
    assert_eq!(mgr.award_count_goal_value(&mem, goal, 0), None);
}

#[test]
fn award_list_colour_keeps_the_tooltip_high_byte() {
    assert_eq!(award_list_item_color(0x12345678), 0x12ff00ff);
    assert_eq!(award_list_item_color(0), 0x00ff00ff);
}

#[test]
fn award_save_succeeds_only_when_every_write_does() {
    assert!(openzt::awards::save_succeeded(&vec![]));
    assert!(openzt::awards::save_succeeded(&vec![true, true, true]));
    assert!(!openzt::awards::save_succeeded(&vec![true, false, true]));
    assert!(!openzt::awards::save_succeeded(&vec![false]));
}
