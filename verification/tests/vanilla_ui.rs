use openzt::vanilla_ui::{expansion_label, funding_buttons, listed_categories, zoom_buttons};
use openzt::overlay::StatusRatings;
use openzt::vanilla_ui::{
    animation_resource_name, branch_exists, button_help_id, eq_ignore_ascii_case, list_row_click, meter_of, normalize_resource_name, palette_candidates,
    status_meter_color, status_meter_help_id, status_meter_texture, status_meter_value, Meter, MeterColor, OptionsTab,
    PanelState, ResearchTab, VisualState, CONSERVATION_BRANCH_INDEX, RESEARCH_BRANCH_INDEX,
};

#[test]
fn options_menu_and_research_panel_exclude_each_other() {
    let mut p = PanelState::new();
    p.set_active_options_tab(OptionsTab::Help);
    p.toggle_options_menu();
    assert!(p.options_menu_visible);
    assert_eq!(p.active_options_tab(), OptionsTab::Main);
    p.set_active_research_tab(ResearchTab::Conservation);
    p.toggle_research_panel();
    assert!(p.research_panel_visible);
    assert!(!p.options_menu_visible);
    assert_eq!(p.active_research_tab(), ResearchTab::Status);
    p.toggle_research_panel();
    assert!(!p.research_panel_visible);
    p.toggle_options_menu();
    p.hide_options_menu();
    assert!(!p.options_menu_visible);
}

#[test]
fn expansion_filter_closes_the_menu() {
    let mut p = PanelState::new();
    p.toggle_research_xpac_menu();
    assert!(p.research_xpac_menu_open);
    p.set_research_expansion_filter(3);
    assert_eq!(p.research_expansion_filter(), Some(3));
    assert!(!p.research_xpac_menu_open);
    p.toggle_research_xpac_menu();
    p.clear_research_expansion_filter();
    assert_eq!(p.research_expansion_filter(), None);
    assert!(!p.research_xpac_menu_open);
}

#[test]
fn help_tooltip_clears_when_hover_ends() {
    let mut p = PanelState::new();
    p.begin_help_frame();
    p.request_help_tooltip();
    assert!(!p.finish_help_tooltip_frame());
    p.begin_help_frame();
    assert!(p.finish_help_tooltip_frame());
    p.begin_help_frame();
    assert!(!p.finish_help_tooltip_frame());
}

#[test]
fn branches_exist_by_index() {
    assert!(branch_exists(2, CONSERVATION_BRANCH_INDEX));
    assert!(!branch_exists(1, CONSERVATION_BRANCH_INDEX));
    assert!(!branch_exists(0, RESEARCH_BRANCH_INDEX));
}

#[test]
fn animation_names_by_state() {
    assert_eq!(VisualState::Normal.animation_name(), "N");
    assert_eq!(VisualState::Hover.animation_name(), "H");
    assert_eq!(VisualState::Selected.animation_name(), "S");
    assert_eq!(VisualState::Disabled.animation_name(), "G");
}

#[test]
fn help_ids_of_buttons_and_meters() {
    assert_eq!(button_help_id("ui/main/buyanim/buyanim"), Some(1000));
    assert_eq!(button_help_id("ui/scenario/scenbut/scenbut"), Some(4107));
    assert_eq!(button_help_id("ui/main/staff/staff"), Some(1051));
    assert_eq!(button_help_id("ui/main/unknown/unknown"), None);
    assert_eq!(status_meter_help_id("ui/main/zstat/zstat"), Some(1015));
    assert_eq!(status_meter_help_id("ui/main/astat/astat"), Some(1011));
    assert_eq!(status_meter_help_id("ui/main/gstat/gstat"), Some(1013));
    assert_eq!(status_meter_help_id("ui/main/hstat/hstat"), None);
    assert_eq!(meter_of("ui/main/gstat/gstat"), Some(Meter::Guest));
}

#[test]
fn meter_values_and_textures() {
    let mut r = StatusRatings::new();
    r.set_zoo_rating(120);
    r.set_animal_rating(12);
    assert_eq!(status_meter_value("ui/main/zstat/zstat", &r), 100);
    assert_eq!(status_meter_value("ui/main/astat/astat", &r), 12);
    assert_eq!(status_meter_value("ui/main/gstat/gstat", &r), 75);
    assert_eq!(status_meter_value("ui/main/other", &r), 75);
    assert_eq!(status_meter_texture(24), "ui/sharedui/statr.tga");
    assert_eq!(status_meter_texture(25), "ui/sharedui/staty.tga");
    assert_eq!(status_meter_texture(49), "ui/sharedui/staty.tga");
    assert_eq!(status_meter_texture(50), "ui/sharedui/statg.tga");
    assert_eq!(status_meter_color(0), MeterColor::Red);
}

#[test]
fn resource_names_are_normalised() {
    assert_eq!(normalize_resource_name("\0\0UI\\Main\\Pal.PAL\0"), "ui/main/pal.pal");
    assert_eq!(normalize_resource_name(""), "");
    assert_eq!(normalize_resource_name("\0\0"), "");
    assert_eq!(normalize_resource_name("a\0b"), "a\0b");
    assert_eq!(normalize_resource_name("ÄBC"), "Äbc");
    assert!(eq_ignore_ascii_case("AbC", "aBc"));
    assert!(!eq_ignore_ascii_case("Ab", "Abc"));
}

fn strings(v: &[&str]) -> Vec<String> {
    v.iter().map(|s| s.to_string()).collect()
}

#[test]
fn animation_resource_picks_state_then_normal_then_first() {
    let dirs = strings(&["ui", "main", "buyanim"]);
    let anims = Some(strings(&["n", "h", "G"]));
    assert_eq!(animation_resource_name(&dirs, &anims, VisualState::Hover), Some("ui/main/buyanim/h".to_string()));
    assert_eq!(animation_resource_name(&dirs, &anims, VisualState::Disabled), Some("ui/main/buyanim/G".to_string()));
    assert_eq!(animation_resource_name(&dirs, &anims, VisualState::Selected), Some("ui/main/buyanim/n".to_string()));
    let only = Some(strings(&["x", "y"]));
    assert_eq!(animation_resource_name(&dirs, &only, VisualState::Selected), Some("ui/main/buyanim/x".to_string()));
    assert_eq!(animation_resource_name(&vec![], &only, VisualState::Normal), Some("x".to_string()));
    assert_eq!(animation_resource_name(&dirs, &Some(vec![]), VisualState::Normal), None);
    assert_eq!(animation_resource_name(&dirs, &None, VisualState::Normal), None);
}

#[test]
fn palettes_are_tried_embedded_first() {
    assert_eq!(palette_candidates("ui/main/buyanim/n", Some("UI\\Main\\Buyanim.PAL\0")), strings(&["ui/main/buyanim.pal", "ui/main/buyanim/n.pal"]));
    assert_eq!(palette_candidates("a/b", Some("\0\0")), strings(&["a/b.pal"]));
    assert_eq!(palette_candidates("a/b", None), strings(&["a/b.pal"]));
}

#[test]
fn list_row_click_completes_on_release_over_the_pressed_row() {
    let mut pressed: Option<usize> = None;
    // press over row 2: captured, no click yet
    assert!(!list_row_click(2, &mut pressed, true, true, true, false));
    assert_eq!(pressed, Some(2));
    // another row sees the frame and leaves the capture alone
    assert!(!list_row_click(0, &mut pressed, false, false, true, true));
    assert_eq!(pressed, Some(2));
    // release over row 2: click
    assert!(list_row_click(2, &mut pressed, true, false, false, true));
    assert_eq!(pressed, None);
}

#[test]
fn list_row_click_release_elsewhere_is_no_click() {
    let mut pressed: Option<usize> = Some(1);
    assert!(!list_row_click(1, &mut pressed, false, false, false, true));
    assert_eq!(pressed, None);
    // button no longer down without a release drops the capture
    let mut pressed: Option<usize> = Some(3);
    assert!(!list_row_click(3, &mut pressed, true, false, false, false));
    assert_eq!(pressed, None);
    // still held: keeps the capture
    let mut pressed: Option<usize> = Some(3);
    assert!(!list_row_click(3, &mut pressed, false, false, true, false));
    assert_eq!(pressed, Some(3));
}

#[test]
fn hiding_panels_and_closing_the_expansion_menu() {
    let mut p = PanelState::new();
    p.toggle_research_panel();
    p.toggle_research_xpac_menu();
    assert!(p.research_panel_visible && p.research_xpac_menu_open);
    p.close_research_xpac_menu();
    assert!(!p.research_xpac_menu_open);
    assert!(p.research_panel_visible);
    p.hide_research_panel();
    assert!(!p.research_panel_visible);
    p.hide_options_menu();
    assert!(!p.options_menu_visible);
}

#[test]
fn funding_zoom_and_research_panel_helpers() {
    assert_eq!(funding_buttons(0, 5), (false, true));
    assert_eq!(funding_buttons(4, 5), (true, false));
    assert_eq!(funding_buttons(2, 5), (true, true));
    assert_eq!(zoom_buttons(2), (false, true));
    assert_eq!(zoom_buttons(-2), (true, false));
    assert_eq!(zoom_buttons(0), (true, true));
    assert_eq!(ResearchTab::Status.panel_title_id(), 4001);
    assert_eq!(ResearchTab::Research.panel_title_id(), 4040);
    assert_eq!(ResearchTab::Conservation.panel_title_id(), 4039);
    assert_eq!(ResearchTab::Status.panel_background(), "ui/research/respan/respan");
    assert_eq!(ResearchTab::Research.panel_background(), "ui/research/resconpn/resconpn");
    assert_eq!(listed_categories(None, &vec![0, 1, 2]), vec![0, 1, 2]);
    assert_eq!(listed_categories(Some(1), &vec![0, 1, 2, 1]), vec![1, 3]);
    let options = vec![(0, "Dinosaur Digs".to_string()), (1, "Marine Mania".to_string()), (1, "Other".to_string())];
    assert_eq!(expansion_label(None, &options), "All");
    assert_eq!(expansion_label(Some(1), &options), "Marine Mania");
    assert_eq!(expansion_label(Some(5), &options), "All");
}
