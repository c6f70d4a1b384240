//! The state behind the redrawn game UI: which panels and tabs are open, which help text each
//! element shows, which meter texture a rating uses, and how animation resources are named.
use vstd::prelude::*;
use crate::text::{chars_of, owned, push_char, push_str, str_eq, string_of};

verus! {

/// The tabs of the options menu.
#[derive(Clone, Copy, Debug, PartialEq, Eq, Structural)]
pub enum OptionsTab {
    Main,
    GraphicsSound,
    Help,
    Advanced,
}

/// The tabs of the research panel.
#[derive(Clone, Copy, Debug, PartialEq, Eq, Structural)]
pub enum ResearchTab {
    Status,
    Research,
    Conservation,
}

/// Index of the research branch among the research manager's branches.
pub const RESEARCH_BRANCH_INDEX: usize = 0;

/// Index of the conservation branch among the research manager's branches.
pub const CONSERVATION_BRANCH_INDEX: usize = 1;

/// The open panels of the redrawn UI.
#[derive(Clone, Copy, Debug, PartialEq, Eq, Structural)]
pub struct PanelState {
    pub options_menu_visible: bool,
    pub options_tab: OptionsTab,
    pub research_panel_visible: bool,
    pub research_tab: ResearchTab,
    pub research_xpac_menu_open: bool,
    /// The expansion whose research the list shows; `None` for all.
    pub research_expansion_filter: Option<i32>,
    /// A help tooltip was requested during the frame being drawn.
    pub help_hovered_this_frame: bool,
    /// A help tooltip was requested during the previous frame.
    pub help_hovered_last_frame: bool,
}

/// At most one of the options menu and the research panel is open.
pub open spec fn one_panel_at_most(p: PanelState) -> bool {
    !(p.options_menu_visible && p.research_panel_visible)
}

impl PanelState {
    /// Everything closed, first tabs selected, no filter.
    pub fn new() -> (p: PanelState)
        ensures
            !p.options_menu_visible,
            p.options_tab == OptionsTab::Main,
            !p.research_panel_visible,
            p.research_tab == ResearchTab::Status,
            !p.research_xpac_menu_open,
            p.research_expansion_filter is None,
            !p.help_hovered_this_frame,
            !p.help_hovered_last_frame,
            one_panel_at_most(p),
    {
        PanelState {
            options_menu_visible: false,
            options_tab: OptionsTab::Main,
            research_panel_visible: false,
            research_tab: ResearchTab::Status,
            research_xpac_menu_open: false,
            research_expansion_filter: None,
            help_hovered_this_frame: false,
            help_hovered_last_frame: false,
        }
    }

    /// The panels after `toggle_options_menu`.
    pub open spec fn spec_toggle_options_menu(self) -> PanelState {
        if self.options_menu_visible {
            PanelState { options_menu_visible: false, ..self }
        } else {
            PanelState { options_menu_visible: true, options_tab: OptionsTab::Main, research_panel_visible: false, ..self }
        }
    }

    /// Opens the options menu on its main tab, closing the research panel, or closes it.
    pub fn toggle_options_menu(&mut self)
        ensures
            *final(self) == old(self).spec_toggle_options_menu(),
    {
        let visible = !self.options_menu_visible;
        self.options_menu_visible = visible;
        if visible {
            self.options_tab = OptionsTab::Main;
            self.research_panel_visible = false;
        }
    }

    /// Closes the options menu.
    pub fn hide_options_menu(&mut self)
        ensures
            *final(self) == (PanelState { options_menu_visible: false, ..*old(self) }),
    {
        self.options_menu_visible = false;
    }

    /// Selects an options tab.
    pub fn set_active_options_tab(&mut self, tab: OptionsTab)
        ensures
            *final(self) == (PanelState { options_tab: tab, ..*old(self) }),
    {
        self.options_tab = tab;
    }

    /// The selected options tab.
    pub fn active_options_tab(&self) -> (t: OptionsTab)
        ensures
            t == self.options_tab,
    {
        self.options_tab
    }

    /// The panels after `toggle_research_panel`.
    pub open spec fn spec_toggle_research_panel(self) -> PanelState {
        if self.research_panel_visible {
            PanelState { research_panel_visible: false, ..self }
        } else {
            PanelState { research_panel_visible: true, research_tab: ResearchTab::Status, options_menu_visible: false, ..self }
        }
    }

    /// Opens the research panel on its status tab, closing the options menu, or closes it.
    pub fn toggle_research_panel(&mut self)
        ensures
            *final(self) == old(self).spec_toggle_research_panel(),
    {
        let visible = !self.research_panel_visible;
        self.research_panel_visible = visible;
        if visible {
            self.research_tab = ResearchTab::Status;
            self.options_menu_visible = false;
        }
    }

    /// Closes the research panel.
    pub fn hide_research_panel(&mut self)
        ensures
            *final(self) == (PanelState { research_panel_visible: false, ..*old(self) }),
    {
        self.research_panel_visible = false;
    }

    /// Selects a research tab.
    pub fn set_active_research_tab(&mut self, tab: ResearchTab)
        ensures
            *final(self) == (PanelState { research_tab: tab, ..*old(self) }),
    {
        self.research_tab = tab;
    }

    /// The selected research tab.
    pub fn active_research_tab(&self) -> (t: ResearchTab)
        ensures
            t == self.research_tab,
    {
        self.research_tab
    }

    /// Opens or closes the expansion menu of the research list.
    pub fn toggle_research_xpac_menu(&mut self)
        ensures
            *final(self) == (PanelState { research_xpac_menu_open: !old(self).research_xpac_menu_open, ..*old(self) }),
    {
        self.research_xpac_menu_open = !self.research_xpac_menu_open;
    }

    /// Closes the expansion menu.
    pub fn close_research_xpac_menu(&mut self)
        ensures
            *final(self) == (PanelState { research_xpac_menu_open: false, ..*old(self) }),
    {
        self.research_xpac_menu_open = false;
    }

    /// The expansion filter of the research list.
    pub fn research_expansion_filter(&self) -> (r: Option<i32>)
        ensures
            r == self.research_expansion_filter,
    {
        self.research_expansion_filter
    }

    /// Shows research of every expansion, and closes the expansion menu.
    pub fn clear_research_expansion_filter(&mut self)
        ensures
            *final(self) == (PanelState { research_expansion_filter: None, research_xpac_menu_open: false, ..*old(self) }),
    {
        self.research_expansion_filter = None;
        self.research_xpac_menu_open = false;
    }

    /// Shows research of expansion `id` only, and closes the expansion menu.
    pub fn set_research_expansion_filter(&mut self, id: i32)
        ensures
            *final(self) == (PanelState { research_expansion_filter: Some(id), research_xpac_menu_open: false, ..*old(self) }),
    {
        self.research_expansion_filter = Some(id);
        self.research_xpac_menu_open = false;
    }

    /// Starts a frame: no help tooltip requested yet.
    pub fn begin_help_frame(&mut self)
        ensures
            *final(self) == (PanelState { help_hovered_this_frame: false, ..*old(self) }),
    {
        self.help_hovered_this_frame = false;
    }

    /// Notes that an element asked for its help tooltip during this frame.
    pub fn request_help_tooltip(&mut self)
        ensures
            *final(self) == (PanelState { help_hovered_this_frame: true, ..*old(self) }),
    {
        self.help_hovered_this_frame = true;
    }

    /// Ends a frame. Returns whether to clear the tooltip: it is cleared when the previous frame
    /// requested a help tooltip and this one did not.
    pub fn finish_help_tooltip_frame(&mut self) -> (clear: bool)
        ensures
            clear == (old(self).help_hovered_last_frame && !old(self).help_hovered_this_frame),
            *final(self) == (PanelState { help_hovered_last_frame: old(self).help_hovered_this_frame, ..*old(self) }),
    {
        let hovered = self.help_hovered_this_frame;
        let was_hovered = self.help_hovered_last_frame;
        self.help_hovered_last_frame = hovered;
        was_hovered && !hovered
    }
}

/// Whatever the UI does to its panels, the options menu and the research panel are never open
/// together.
pub proof fn law_one_panel_at_most(p: PanelState, tab: OptionsTab, rtab: ResearchTab, id: i32)
    requires
        one_panel_at_most(p),
    ensures
        one_panel_at_most(p.spec_toggle_options_menu()),
        one_panel_at_most(p.spec_toggle_research_panel()),
        one_panel_at_most(PanelState { options_menu_visible: false, ..p }),
        one_panel_at_most(PanelState { research_panel_visible: false, ..p }),
        one_panel_at_most(PanelState { options_tab: tab, ..p }),
        one_panel_at_most(PanelState { research_tab: rtab, ..p }),
        one_panel_at_most(PanelState { research_xpac_menu_open: !p.research_xpac_menu_open, ..p }),
        one_panel_at_most(PanelState { research_expansion_filter: Some(id), research_xpac_menu_open: false, ..p }),
        one_panel_at_most(PanelState { research_expansion_filter: None, research_xpac_menu_open: false, ..p }),
{
}

/// Toggling a panel twice from closed leaves it closed again, on the tab the first toggle chose.
pub proof fn law_toggle_twice_closes(p: PanelState)
    requires
        !p.options_menu_visible,
        !p.research_panel_visible,
    ensures
        !p.spec_toggle_options_menu().spec_toggle_options_menu().options_menu_visible,
        p.spec_toggle_options_menu().spec_toggle_options_menu().options_tab == OptionsTab::Main,
        !p.spec_toggle_research_panel().spec_toggle_research_panel().research_panel_visible,
        p.spec_toggle_research_panel().spec_toggle_research_panel().research_tab == ResearchTab::Status,
{
}

/// Whether branch `index` can be funded or scrolled: it exists among `branch_count` branches.
pub fn branch_exists(branch_count: usize, index: usize) -> (r: bool)
    ensures
        r == (branch_count > index),
{
    branch_count > index
}

/// One frame of click tracking for row `row_index` of a list, given whether the pointer is over
/// the row and the primary button's state this frame. A press over the row captures it; only the
/// row holding the capture reads or clears it. A release completes a click when the pointer is
/// still over the row; a button that is no longer down drops the capture.
pub fn list_row_click(
    row_index: usize,
    pressed_row: &mut Option<usize>,
    hovered: bool,
    pressed: bool,
    down: bool,
    released: bool,
) -> (clicked: bool)
    ensures
        ({
            let captured = if hovered && pressed { Some(row_index) } else { *old(pressed_row) };
            if captured != Some(row_index) {
                &&& !clicked
                &&& *final(pressed_row) == captured
            } else if released {
                &&& clicked == hovered
                &&& *final(pressed_row) == None::<usize>
            } else {
                &&& !clicked
                &&& *final(pressed_row) == (if down { captured } else { None })
            }
        }),
{
    if hovered && pressed {
        *pressed_row = Some(row_index);
    }
    let holds = match *pressed_row {
        Some(r) => r == row_index,
        None => false,
    };
    if !holds {
        return false;
    }
    if released {
        *pressed_row = None;
        return hovered;
    }
    if !down {
        *pressed_row = None;
    }
    false
}

/// Whether a branch's funding can be lowered and raised: lowered above the first level, raised
/// below the last of `level_count` levels.
pub fn funding_buttons(current_level: i32, level_count: i32) -> (r: (bool, bool))
    requires
        current_level < i32::MAX,
    ensures
        r == (current_level > 0, current_level + 1 < level_count),
{
    (current_level > 0, current_level + 1 < level_count)
}

/// Whether the zoom-in and zoom-out buttons are enabled at `zoom_level`: the view zooms between
/// levels -2 and 2.
pub fn zoom_buttons(zoom_level: i32) -> (r: (bool, bool))
    ensures
        r == (zoom_level < 2, zoom_level > -2),
{
    (zoom_level < 2, zoom_level > -2)
}

impl ResearchTab {
    /// The string id of the research panel's title on this tab: "Program Status" on the status
    /// tab, the branch's name on the others.
    pub fn panel_title_id(self) -> (r: u32)
        ensures
            r == match self {
                ResearchTab::Status => 4001u32,
                ResearchTab::Research => 4040u32,
                ResearchTab::Conservation => 4039u32,
            },
    {
        match self {
            ResearchTab::Status => 4001,
            ResearchTab::Research => 4040,
            ResearchTab::Conservation => 4039,
        }
    }

    /// The background animation of the research panel on this tab.
    pub fn panel_background(self) -> (r: String)
        ensures
            r@ == if self == ResearchTab::Status {
                "ui/research/respan/respan"@
            } else {
                "ui/research/resconpn/resconpn"@
            },
    {
        match self {
            ResearchTab::Status => owned("ui/research/respan/respan"),
            _ => owned("ui/research/resconpn/resconpn"),
        }
    }
}

/// Whether a research category of expansion `expansion_id` is listed under `filter`: every
/// category when there is no filter, else those of the filtered expansion.
pub open spec fn category_listed(filter: Option<i32>, expansion_id: i32) -> bool {
    match filter {
        Some(f) => expansion_id == f,
        None => true,
    }
}

/// The positions of the listed categories among categories of expansions `expansion_ids`, in
/// order.
pub open spec fn spec_listed_categories(filter: Option<i32>, expansion_ids: Seq<i32>) -> Seq<usize>
    decreases expansion_ids.len(),
{
    if expansion_ids.len() == 0 {
        Seq::empty()
    } else {
        let rest = spec_listed_categories(filter, expansion_ids.drop_last());
        if category_listed(filter, expansion_ids.last()) {
            rest.push((expansion_ids.len() - 1) as usize)
        } else {
            rest
        }
    }
}

/// The positions of the categories the research list shows, given each category's expansion.
pub fn listed_categories(filter: Option<i32>, expansion_ids: &Vec<i32>) -> (r: Vec<usize>)
    ensures
        r@ == spec_listed_categories(filter, expansion_ids@),
{
    let mut out: Vec<usize> = Vec::new();
    let mut i: usize = 0;
    while i < expansion_ids.len()
        invariant
            i <= expansion_ids@.len(),
            out@ == spec_listed_categories(filter, expansion_ids@.take(i as int)),
        decreases expansion_ids@.len() - i,
    {
        assert(expansion_ids@.take(i + 1).drop_last() =~= expansion_ids@.take(i as int));
        let listed = match filter {
            Some(f) => expansion_ids[i] == f,
            None => true,
        };
        if listed {
            out.push(i);
        }
        i = i + 1;
    }
    assert(expansion_ids@.take(expansion_ids@.len() as int) =~= expansion_ids@);
    out
}

/// The label of the expansion menu's button: the name of the first expansion option whose id is
/// the filter, else "All".
pub open spec fn spec_expansion_label(filter: Option<i32>, options: Seq<(i32, String)>) -> Seq<char> {
    match filter {
        Some(f) => if choose_first_option(options, f) < options.len() {
            options[choose_first_option(options, f)].1@
        } else {
            "All"@
        },
        None => "All"@,
    }
}

/// The first position of an option with id `f`, or the length when there is none.
pub open spec fn choose_first_option(options: Seq<(i32, String)>, f: i32) -> int
    decreases options.len(),
{
    if options.len() == 0 {
        0
    } else if options[0].0 == f {
        0
    } else {
        1 + choose_first_option(options.drop_first(), f)
    }
}

proof fn lemma_first_option(options: Seq<(i32, String)>, f: i32)
    ensures
        0 <= choose_first_option(options, f) <= options.len(),
        forall|k: int| 0 <= k < choose_first_option(options, f) ==> options[k].0 != f,
        choose_first_option(options, f) < options.len() ==> options[choose_first_option(options, f)].0 == f,
    decreases options.len(),
{
    if options.len() > 0 && options[0].0 != f {
        lemma_first_option(options.drop_first(), f);
        assert forall|k: int| 0 <= k < choose_first_option(options, f) implies options[k].0 != f by {
            if k > 0 {
                assert(options[k] == options.drop_first()[k - 1]);
            }
        }
    }
}

/// The label of the expansion menu's button for `filter`, given the expansion options (id, name).
pub fn expansion_label(filter: Option<i32>, options: &Vec<(i32, String)>) -> (r: String)
    ensures
        r@ == spec_expansion_label(filter, options@),
{
    if let Some(f) = filter {
        proof {
            lemma_first_option(options@, f);
        }
        let mut i: usize = 0;
        while i < options.len()
            invariant
                i <= options@.len(),
                filter == Some(f),
                forall|k: int| 0 <= k < i ==> options@[k].0 != f,
                0 <= choose_first_option(options@, f) <= options@.len(),
                forall|k: int| 0 <= k < choose_first_option(options@, f) ==> options@[k].0 != f,
                choose_first_option(options@, f) < options@.len() ==> options@[choose_first_option(options@, f)].0 == f,
            decreases options@.len() - i,
        {
            if options[i].0 == f {
                assert(choose_first_option(options@, f) == i);
                let name = owned(options[i].1.as_str());
                assert(name@ == options@[i as int].1@);
                return name;
            }
            i = i + 1;
        }
        assert(choose_first_option(options@, f) == options@.len()) by {
            if choose_first_option(options@, f) < options@.len() {
                assert(options@[choose_first_option(options@, f)].0 == f);
            }
        }
    }
    owned("All")
}

/// How a UI element is drawn.
#[derive(Clone, Copy, Debug, PartialEq, Eq, Structural)]
pub enum VisualState {
    Normal,
    Hover,
    Selected,
    Disabled,
}

/// The animation an element's state uses: `N`, `H`, `S` or `G`.
pub open spec fn spec_animation_name(v: VisualState) -> char {
    match v {
        VisualState::Normal => 'N',
        VisualState::Hover => 'H',
        VisualState::Selected => 'S',
        VisualState::Disabled => 'G',
    }
}

impl VisualState {
    /// The name of the animation drawn for this state.
    pub fn animation_name(self) -> (r: String)
        ensures
            r@ == seq![spec_animation_name(self)],
    {
        let mut s = String::new();
        let c = match self {
            VisualState::Normal => 'N',
            VisualState::Hover => 'H',
            VisualState::Selected => 'S',
            VisualState::Disabled => 'G',
        };
        push_char(&mut s, c);
        assert(s@ =~= seq![c]);
        s
    }
}

/// The help id of a button of the main UI, by its resource name.
pub open spec fn spec_button_help_id(resource: Seq<char>) -> Option<i32> {
    if resource == "ui/main/buyanim/buyanim"@ {
        Some(1000)
    } else if resource == "ui/main/habitat/habitat"@ {
        Some(1002)
    } else if resource == "ui/main/buyobj/buyobj"@ {
        Some(1001)
    } else if resource == "ui/main/person/person"@ {
        Some(1005)
    } else if resource == "ui/main/undo/undo"@ {
        Some(1075)
    } else if resource == "ui/main/bdoz/bdoz"@ {
        Some(1025)
    } else if resource == "ui/main/msgs/msgs"@ {
        Some(1006)
    } else if resource == "ui/main/resr/resr"@ {
        Some(1019)
    } else if resource == "ui/scenario/scenbut/scenbut"@ {
        Some(4107)
    } else if resource == "ui/main/gameopt/gameopt"@ {
        Some(1004)
    } else if resource == "ui/main/pause/pause"@ {
        Some(1071)
    } else if resource == "ui/main/play/play"@ {
        Some(1072)
    } else if resource == "ui/main/zoomin/zoomin"@ {
        Some(1007)
    } else if resource == "ui/main/zoomout/zoomout"@ {
        Some(1023)
    } else if resource == "ui/main/trees/trees"@ {
        Some(1066)
    } else if resource == "ui/main/guests/guests"@ {
        Some(1068)
    } else if resource == "ui/main/builds/builds"@ {
        Some(1067)
    } else if resource == "ui/main/rotr/rotr"@ {
        Some(1008)
    } else if resource == "ui/main/rotl/rotl"@ {
        Some(1009)
    } else if resource == "ui/main/zstat/zstat"@ {
        Some(1014)
    } else if resource == "ui/main/astat/astat"@ {
        Some(1010)
    } else if resource == "ui/main/gstat/gstat"@ {
        Some(1012)
    } else if resource == "ui/main/hstat/hstat"@ {
        Some(1050)
    } else if resource == "ui/main/staff/staff"@ {
        Some(1051)
    } else {
        None
    }
}

/// The help id of a main-UI button.
pub fn button_help_id(resource: &str) -> (r: Option<i32>)
    ensures
        r == spec_button_help_id(resource@),
{
    if str_eq(resource, "ui/main/buyanim/buyanim") {
        Some(1000)
    } else if str_eq(resource, "ui/main/habitat/habitat") {
        Some(1002)
    } else if str_eq(resource, "ui/main/buyobj/buyobj") {
        Some(1001)
    } else if str_eq(resource, "ui/main/person/person") {
        Some(1005)
    } else if str_eq(resource, "ui/main/undo/undo") {
        Some(1075)
    } else if str_eq(resource, "ui/main/bdoz/bdoz") {
        Some(1025)
    } else if str_eq(resource, "ui/main/msgs/msgs") {
        Some(1006)
    } else if str_eq(resource, "ui/main/resr/resr") {
        Some(1019)
    } else if str_eq(resource, "ui/scenario/scenbut/scenbut") {
        Some(4107)
    } else if str_eq(resource, "ui/main/gameopt/gameopt") {
        Some(1004)
    } else if str_eq(resource, "ui/main/pause/pause") {
        Some(1071)
    } else if str_eq(resource, "ui/main/play/play") {
        Some(1072)
    } else if str_eq(resource, "ui/main/zoomin/zoomin") {
        Some(1007)
    } else if str_eq(resource, "ui/main/zoomout/zoomout") {
        Some(1023)
    } else if str_eq(resource, "ui/main/trees/trees") {
        Some(1066)
    } else if str_eq(resource, "ui/main/guests/guests") {
        Some(1068)
    } else if str_eq(resource, "ui/main/builds/builds") {
        Some(1067)
    } else if str_eq(resource, "ui/main/rotr/rotr") {
        Some(1008)
    } else if str_eq(resource, "ui/main/rotl/rotl") {
        Some(1009)
    } else if str_eq(resource, "ui/main/zstat/zstat") {
        Some(1014)
    } else if str_eq(resource, "ui/main/astat/astat") {
        Some(1010)
    } else if str_eq(resource, "ui/main/gstat/gstat") {
        Some(1012)
    } else if str_eq(resource, "ui/main/hstat/hstat") {
        Some(1050)
    } else if str_eq(resource, "ui/main/staff/staff") {
        Some(1051)
    } else {
        None
    }
}

/// Which rating meter a resource name is.
#[derive(Clone, Copy, Debug, PartialEq, Eq, Structural)]
pub enum Meter {
    Zoo,
    Animal,
    Guest,
}

/// The meter of a resource name, if it is one.
pub open spec fn spec_meter_of(resource: Seq<char>) -> Option<Meter> {
    if resource == "ui/main/zstat/zstat"@ {
        Some(Meter::Zoo)
    } else if resource == "ui/main/astat/astat"@ {
        Some(Meter::Animal)
    } else if resource == "ui/main/gstat/gstat"@ {
        Some(Meter::Guest)
    } else {
        None
    }
}

/// The rating meter a resource name stands for.
pub fn meter_of(resource: &str) -> (r: Option<Meter>)
    ensures
        r == spec_meter_of(resource@),
{
    if str_eq(resource, "ui/main/zstat/zstat") {
        Some(Meter::Zoo)
    } else if str_eq(resource, "ui/main/astat/astat") {
        Some(Meter::Animal)
    } else if str_eq(resource, "ui/main/gstat/gstat") {
        Some(Meter::Guest)
    } else {
        None
    }
}

/// The help id of a rating meter's tooltip.
pub fn status_meter_help_id(resource: &str) -> (r: Option<i32>)
    ensures
        r == match spec_meter_of(resource@) {
            Some(Meter::Zoo) => Some(1015i32),
            Some(Meter::Animal) => Some(1011i32),
            Some(Meter::Guest) => Some(1013i32),
            None => None,
        },
{
    match meter_of(resource) {
        Some(Meter::Zoo) => Some(1015),
        Some(Meter::Animal) => Some(1011),
        Some(Meter::Guest) => Some(1013),
        None => None,
    }
}

/// The value a meter shows: its rating as displayed, or 75 for a resource that is no meter.
pub fn status_meter_value(resource: &str, ratings: &crate::overlay::StatusRatings) -> (r: u8)
    ensures
        r == match spec_meter_of(resource@) {
            Some(Meter::Zoo) => crate::overlay::spec_rating_for_display(ratings.zoo),
            Some(Meter::Animal) => crate::overlay::spec_rating_for_display(ratings.animal),
            Some(Meter::Guest) => crate::overlay::spec_rating_for_display(ratings.guest),
            None => 75u8,
        },
{
    match meter_of(resource) {
        Some(Meter::Zoo) => ratings.zoo_rating(),
        Some(Meter::Animal) => ratings.animal_rating(),
        Some(Meter::Guest) => ratings.guest_rating(),
        None => 75,
    }
}

/// The fill colour of a meter at `value`.
#[derive(Clone, Copy, Debug, PartialEq, Eq, Structural)]
pub enum MeterColor {
    /// Below 25.
    Red,
    /// 25 to 49.
    Yellow,
    /// 50 and above.
    Green,
}

/// The fill colour of a meter: red below 25, yellow below 50, green from 50.
pub fn status_meter_color(value: u8) -> (c: MeterColor)
    ensures
        c == if value <= 24 {
            MeterColor::Red
        } else if value <= 49 {
            MeterColor::Yellow
        } else {
            MeterColor::Green
        },
{
    if value <= 24 {
        MeterColor::Red
    } else if value <= 49 {
        MeterColor::Yellow
    } else {
        MeterColor::Green
    }
}

/// The texture of a meter's fill at `value`.
pub fn status_meter_texture(value: u8) -> (r: String)
    ensures
        r@ == if value <= 24 {
            "ui/sharedui/statr.tga"@
        } else if value <= 49 {
            "ui/sharedui/staty.tga"@
        } else {
            "ui/sharedui/statg.tga"@
        },
{
    let mut s = String::new();
    match status_meter_color(value) {
        MeterColor::Red => push_str(&mut s, "ui/sharedui/statr.tga"),
        MeterColor::Yellow => push_str(&mut s, "ui/sharedui/staty.tga"),
        MeterColor::Green => push_str(&mut s, "ui/sharedui/statg.tga"),
    }
    assert(s@ =~= if value <= 24 {
        "ui/sharedui/statr.tga"@
    } else if value <= 49 {
        "ui/sharedui/staty.tga"@
    } else {
        "ui/sharedui/statg.tga"@
    });
    s
}

/// The ASCII lower-case of `c`: `A`..`Z` become `a`..`z`, everything else stays.
pub open spec fn ascii_lower(c: char) -> char {
    if 'A' <= c <= 'Z' {
        ((c as u32) + 32) as char
    } else {
        c
    }
}

/// `c` in ASCII lower case.
pub fn to_ascii_lower(c: char) -> (r: char)
    ensures
        r == ascii_lower(c),
{
    if 'A' <= c && c <= 'Z' {
        ((c as u8) + 32) as char
    } else {
        c
    }
}

/// Whether two strings are equal up to ASCII case (`eq_ignore_ascii_case`).
pub open spec fn spec_eq_ignore_ascii_case(a: Seq<char>, b: Seq<char>) -> bool {
    a.len() == b.len() && forall|i: int| 0 <= i < a.len() ==> ascii_lower(#[trigger] a[i]) == ascii_lower(b[i])
}

/// Whether `a` and `b` are equal up to ASCII case.
pub fn eq_ignore_ascii_case(a: &str, b: &str) -> (r: bool)
    ensures
        r == spec_eq_ignore_ascii_case(a@, b@),
{
    let ca = chars_of(a);
    let cb = chars_of(b);
    if ca.len() != cb.len() {
        return false;
    }
    let mut i: usize = 0;
    while i < ca.len()
        invariant
            ca@ == a@,
            cb@ == b@,
            ca@.len() == cb@.len(),
            i <= ca@.len(),
            forall|k: int| 0 <= k < i ==> ascii_lower(#[trigger] a@[k]) == ascii_lower(b@[k]),
        decreases ca@.len() - i,
    {
        if to_ascii_lower(ca[i]) != to_ascii_lower(cb[i]) {
            return false;
        }
        i = i + 1;
    }
    true
}

/// A resource name as stored in an animation, made into a lookup key: NUL characters trimmed from
/// both ends, backslashes turned into slashes, ASCII letters lower-cased.
pub open spec fn spec_normalize_resource_name(name: Seq<char>) -> Seq<char> {
    let trimmed = strip_nul_back(strip_nul_front(name));
    Seq::new(trimmed.len(), |i: int| ascii_lower(if trimmed[i] == '\\' { '/' } else { trimmed[i] }))
}

/// `s` without leading NUL characters.
pub open spec fn strip_nul_front(s: Seq<char>) -> Seq<char>
    decreases s.len(),
{
    if s.len() > 0 && s[0] == '\0' {
        strip_nul_front(s.skip(1))
    } else {
        s
    }
}

/// `s` without trailing NUL characters.
pub open spec fn strip_nul_back(s: Seq<char>) -> Seq<char>
    decreases s.len(),
{
    if s.len() > 0 && s.last() == '\0' {
        strip_nul_back(s.drop_last())
    } else {
        s
    }
}

/// Turns a resource name from an animation into a lookup key.
pub fn normalize_resource_name(name: &str) -> (r: String)
    ensures
        r@ == spec_normalize_resource_name(name@),
{
    let v = chars_of(name);
    let n = v.len();
    let mut i: usize = 0;
    assert(name@.skip(0) =~= name@);
    while i < n && v[i] == '\0'
        invariant
            v@ == name@,
            n == v@.len(),
            i <= n,
            strip_nul_front(name@) == strip_nul_front(name@.skip(i as int)),
        decreases n - i,
    {
        assert(name@.skip(i as int).skip(1) =~= name@.skip(i + 1));
        i = i + 1;
    }
    assert(strip_nul_front(name@.skip(i as int)) == name@.skip(i as int));
    let mut j: usize = n;
    assert(name@.skip(i as int) =~= name@.subrange(i as int, j as int));
    while j > i && v[j - 1] == '\0'
        invariant
            v@ == name@,
            n == v@.len(),
            i <= j <= n,
            strip_nul_back(strip_nul_front(name@)) == strip_nul_back(name@.subrange(i as int, j as int)),
            strip_nul_front(name@) == name@.skip(i as int),
        decreases j - i,
    {
        assert(name@.subrange(i as int, j as int).drop_last() =~= name@.subrange(i as int, j - 1));
        j = j - 1;
    }
    let ghost trimmed = name@.subrange(i as int, j as int);
    assert(strip_nul_back(strip_nul_front(name@)) == trimmed);
    let mut out = String::new();
    let mut k: usize = i;
    while k < j
        invariant
            v@ == name@,
            i <= k <= j <= n == v@.len(),
            trimmed == name@.subrange(i as int, j as int),
            out@ == Seq::new((k - i) as nat, |m: int| ascii_lower(if trimmed[m] == '\\' { '/' } else { trimmed[m] })),
        decreases j - k,
    {
        let c = v[k];
        let mapped = if c == '\\' { '/' } else { c };
        push_char(&mut out, to_ascii_lower(mapped));
        k = k + 1;
        assert(out@ =~= Seq::new((k - i) as nat, |m: int| ascii_lower(if trimmed[m] == '\\' { '/' } else { trimmed[m] })));
    }
    assert(out@ =~= spec_normalize_resource_name(name@));
    out
}

/// The index of the animation an element in state `v` uses among `animations`: the first whose
/// name matches the state's up to ASCII case, else the first matching `N`, else the first.
pub open spec fn spec_pick_animation(animations: Seq<Seq<char>>, state: char) -> Option<int> {
    if exists|i: int| 0 <= i < animations.len() && spec_eq_ignore_ascii_case(animations[i], seq![state]) {
        Some(choose|i: int| 0 <= i < animations.len() && spec_eq_ignore_ascii_case(animations[i], seq![state])
            && forall|k: int| 0 <= k < i ==> !spec_eq_ignore_ascii_case(animations[k], seq![state]))
    } else if exists|i: int| 0 <= i < animations.len() && spec_eq_ignore_ascii_case(animations[i], seq!['N']) {
        Some(choose|i: int| 0 <= i < animations.len() && spec_eq_ignore_ascii_case(animations[i], seq!['N'])
            && forall|k: int| 0 <= k < i ==> !spec_eq_ignore_ascii_case(animations[k], seq!['N']))
    } else if animations.len() > 0 {
        Some(0)
    } else {
        None
    }
}

/// The position of the first entry of `names` equal to `target` up to ASCII case.
fn find_ignore_case(names: &Vec<String>, target: &str) -> (r: Option<usize>)
    ensures
        match r {
            Some(i) => i < names@.len() && spec_eq_ignore_ascii_case(names@[i as int]@, target@) && forall|k: int|
                0 <= k < i ==> !spec_eq_ignore_ascii_case(#[trigger] names@[k]@, target@),
            None => forall|k: int| 0 <= k < names@.len() ==> !spec_eq_ignore_ascii_case(#[trigger] names@[k]@, target@),
        },
{
    let mut i: usize = 0;
    while i < names.len()
        invariant
            i <= names@.len(),
            forall|k: int| 0 <= k < i ==> !spec_eq_ignore_ascii_case(#[trigger] names@[k]@, target@),
        decreases names@.len() - i,
    {
        if eq_ignore_ascii_case(names[i].as_str(), target) {
            return Some(i);
        }
        i = i + 1;
    }
    None
}

/// The parts joined with `/` between each two.
pub open spec fn spec_join_slash(parts: Seq<Seq<char>>) -> Seq<char>
    decreases parts.len(),
{
    if parts.len() == 0 {
        Seq::empty()
    } else if parts.len() == 1 {
        parts[0]
    } else {
        spec_join_slash(parts.drop_last()) + seq!['/'] + parts.last()
    }
}

/// The views of a list of strings.
pub open spec fn views(v: Seq<String>) -> Seq<Seq<char>> {
    Seq::new(v.len(), |i: int| v[i]@)
}

/// The resource name of an element's animation: its directories (`dir0`, `dir1`, ... of its
/// `[animation]` section, in order) and the animation picked for `state`, joined with `/`; `None`
/// when the element lists no animations.
pub open spec fn spec_animation_resource_name(dirs: Seq<Seq<char>>, animations: Option<Seq<Seq<char>>>, state: VisualState) -> Option<Seq<char>> {
    match animations {
        None => None,
        Some(a) => match spec_pick_animation(a, spec_animation_name(state)) {
            None => None,
            Some(i) => Some(spec_join_slash(dirs.push(a[i]))),
        },
    }
}

/// Names the animation resource an element in state `state` draws, from its directories and
/// its list of animations (`None` when it has no such list).
pub fn animation_resource_name(dirs: &Vec<String>, animations: &Option<Vec<String>>, state: VisualState) -> (r: Option<String>)
    ensures
        r matches Some(s) ==> spec_animation_resource_name(views(dirs@), match animations {
            Some(a) => Some(views(a@)),
            None => None,
        }, state) == Some(s@),
        r is None ==> spec_animation_resource_name(views(dirs@), match animations {
            Some(a) => Some(views(a@)),
            None => None,
        }, state) is None,
{
    let anims = match animations {
        Some(a) => a,
        None => return None,
    };
    let ghost av = views(anims@);
    let name = state.animation_name();
    let ghost st = spec_animation_name(state);
    let idx = match find_ignore_case(anims, name.as_str()) {
        Some(i) => {
            proof {
                assert(av[i as int] == anims@[i as int]@);
                assert(forall|k: int| 0 <= k < i ==> av[k] == anims@[k]@);
            }
            i
        },
        None => {
            let n = "N";
            proof {
                reveal_strlit("N");
                assert(n@ =~= seq!['N']);
                assert forall|k: int| 0 <= k < av.len() implies !spec_eq_ignore_ascii_case(av[k], seq![st]) by {
                    assert(av[k] == anims@[k]@);
                }
            }
            match find_ignore_case(anims, n) {
                Some(i) => {
                    proof {
                        assert(av[i as int] == anims@[i as int]@);
                        assert(forall|k: int| 0 <= k < i ==> av[k] == anims@[k]@);
                    }
                    i
                },
                None => {
                    proof {
                        assert forall|k: int| 0 <= k < av.len() implies !spec_eq_ignore_ascii_case(av[k], seq!['N']) by {
                            assert(av[k] == anims@[k]@);
                        }
                    }
                    if anims.len() == 0 {
                        return None;
                    }
                    0
                },
            }
        },
    };
    assert(spec_pick_animation(av, st) == Some(idx as int));
    let mut out = String::new();
    let mut i: usize = 0;
    let ghost parts = views(dirs@).push(av[idx as int]);
    while i < dirs.len()
        invariant
            i <= dirs@.len(),
            parts == views(dirs@).push(av[idx as int]),
            out@ == spec_join_slash(parts.take(i as int)),
        decreases dirs@.len() - i,
    {
        if i > 0 {
            push_char(&mut out, '/');
        }
        push_str(&mut out, dirs[i].as_str());
        assert(parts.take(i + 1).drop_last() =~= parts.take(i as int));
        assert(parts.take(i + 1).last() == dirs@[i as int]@);
        proof {
            if i == 0 {
                assert(out@ =~= spec_join_slash(parts.take(1)));
            }
        }
        i = i + 1;
    }
    if dirs.len() > 0 {
        push_char(&mut out, '/');
    }
    push_str(&mut out, anims[idx].as_str());
    assert(parts.take(dirs@.len() as int + 1) =~= parts);
    assert(parts.drop_last() =~= parts.take(dirs@.len() as int));
    Some(out)
}

/// The palette files an animation `base` may be drawn with, in the order they are tried: the
/// palette the animation names (normalised), when its data could be read and the name is not
/// empty, then `base` with `.pal` added.
pub open spec fn spec_palette_candidates(base: Seq<char>, embedded: Option<Seq<char>>) -> Seq<Seq<char>> {
    let fallback = base + seq!['.', 'p', 'a', 'l'];
    match embedded {
        Some(name) => if spec_normalize_resource_name(name).len() > 0 {
            seq![spec_normalize_resource_name(name), fallback]
        } else {
            seq![fallback]
        },
        None => seq![fallback],
    }
}

/// Lists the palette files to try for an animation; `embedded` is the palette name read from the
/// animation's data, `None` when that data could not be parsed.
pub fn palette_candidates(base: &str, embedded: Option<&str>) -> (r: Vec<String>)
    ensures
        r@.len() == spec_palette_candidates(base@, match embedded { Some(e) => Some(e@), None => None }).len(),
        forall|i: int| 0 <= i < r@.len() ==> #[trigger] r@[i]@ == spec_palette_candidates(base@, match embedded { Some(e) => Some(e@), None => None })[i],
{
    let mut fallback = crate::text::owned(base);
    push_str(&mut fallback, ".pal");
    proof {
        reveal_strlit(".pal");
    }
    assert(fallback@ =~= base@ + seq!['.', 'p', 'a', 'l']);
    let mut out: Vec<String> = Vec::new();
    if let Some(name) = embedded {
        let normalized = normalize_resource_name(name);
        if chars_of(normalized.as_str()).len() > 0 {
            out.push(normalized);
        }
    }
    out.push(fallback);
    out
}

} // verus!
