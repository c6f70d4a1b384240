//! The award manager: the set of awards the player has earned, kept as a vector sorted in
//! descending order without duplicates, the award catalogue, and the save-file format of the
//! earned set.
use vstd::prelude::*;
use std::collections::BTreeMap;
use crate::memory::ZtMemory;
use crate::config::{first, first_int_or_zero, spec_first, spec_first_int_or_zero};
use crate::text::{chars_of, spec_trim, trim};
use crate::vanilla_ui::ascii_lower;

verus! {

broadcast use vstd::laws_cmp::group_laws_cmp;

/// One catalogue entry: the award's name and tooltip string ids and its icon resource.
#[derive(Debug)]
pub struct AwardData {
    name_id: i32,
    tooltip_id: i32,
    icon: String,
}

impl Clone for AwardData {
    fn clone(&self) -> (r: Self)
        ensures
            r == *self,
    {
        AwardData { name_id: self.name_id, tooltip_id: self.tooltip_id, icon: self.icon.clone() }
    }
}

impl AwardData {
    /// A catalogue entry with the given fields.
    pub fn new(name_id: i32, tooltip_id: i32, icon: String) -> (a: AwardData)
        ensures
            a.spec_name_id() == name_id,
            a.spec_tooltip_id() == tooltip_id,
            a.spec_icon() == icon@,
    {
        AwardData { name_id, tooltip_id, icon }
    }

    pub closed spec fn spec_name_id(&self) -> i32 {
        self.name_id
    }

    pub closed spec fn spec_tooltip_id(&self) -> i32 {
        self.tooltip_id
    }

    pub closed spec fn spec_icon(&self) -> Seq<char> {
        self.icon@
    }

    /// String id of the award's name.
    pub fn name_id(&self) -> (r: i32)
        ensures
            r == self.spec_name_id(),
    {
        self.name_id
    }

    /// String id of the award's tooltip.
    pub fn tooltip_id(&self) -> (r: i32)
        ensures
            r == self.spec_tooltip_id(),
    {
        self.tooltip_id
    }

    /// Resource name of the award's icon.
    pub fn icon(&self) -> (r: &str)
        ensures
            r@ == self.spec_icon(),
    {
        self.icon.as_str()
    }
}

/// Strictly descending: every element is larger than every later one, so there are no
/// duplicates either.
pub open spec fn sorted_desc(ids: Seq<i32>) -> bool {
    forall|i: int, j: int| 0 <= i < j < ids.len() ==> ids[i] > ids[j]
}

/// The number of leading elements larger than `id`: where `id` goes in a descending vector.
pub open spec fn partition_point(ids: Seq<i32>, id: i32) -> nat
    decreases ids.len(),
{
    if ids.len() == 0 {
        0
    } else if ids[0] > id {
        1 + partition_point(ids.drop_first(), id)
    } else {
        0
    }
}

/// `ids` with `id` added at its place in descending order, unless it is already there.
pub open spec fn inserted(ids: Seq<i32>, id: i32) -> Seq<i32> {
    if ids.contains(id) {
        ids
    } else {
        ids.insert(partition_point(ids, id) as int, id)
    }
}

/// `ids` after each of `new` is inserted in turn.
pub open spec fn inserted_all(ids: Seq<i32>, new: Seq<i32>) -> Seq<i32>
    decreases new.len(),
{
    if new.len() == 0 {
        ids
    } else {
        inserted(inserted_all(ids, new.drop_last()), new.last())
    }
}

/// In a descending vector, the elements before the partition point are larger than `id` and
/// the rest are not.
pub proof fn lemma_partition_point(ids: Seq<i32>, id: i32)
    requires
        sorted_desc(ids),
    ensures
        partition_point(ids, id) <= ids.len(),
        forall|i: int| 0 <= i < partition_point(ids, id) ==> ids[i] > id,
        forall|i: int| partition_point(ids, id) <= i < ids.len() ==> ids[i] <= id,
    decreases ids.len(),
{
    if ids.len() > 0 && ids[0] > id {
        let rest = ids.drop_first();
        assert(sorted_desc(rest));
        lemma_partition_point(rest, id);
        assert forall|i: int| 0 <= i < partition_point(ids, id) implies ids[i] > id by {
            if i > 0 {
                assert(ids[i] == rest[i - 1]);
            }
        }
        assert forall|i: int| partition_point(ids, id) <= i < ids.len() implies ids[i] <= id by {
            assert(ids[i] == rest[i - 1]);
        }
    } else if ids.len() > 0 {
        assert forall|i: int| 0 <= i < ids.len() implies ids[i] <= id by {
            if i > 0 {
                assert(ids[0] > ids[i]);
            }
        }
    }
}

/// Inserting keeps a vector strictly descending, and its elements are the old ones plus `id`.
pub proof fn lemma_inserted(ids: Seq<i32>, id: i32)
    requires
        sorted_desc(ids),
    ensures
        sorted_desc(inserted(ids, id)),
        inserted(ids, id).contains(id),
        forall|x: i32| #[trigger] inserted(ids, id).contains(x) <==> (ids.contains(x) || x == id),
        inserted(ids, id).len() == if ids.contains(id) { ids.len() } else { ids.len() + 1 },
{
    if !ids.contains(id) {
        lemma_partition_point(ids, id);
        let p = partition_point(ids, id) as int;
        let r = ids.insert(p, id);
        assert forall|i: int, j: int| 0 <= i < j < r.len() implies r[i] > r[j] by {
            if j < p {
            } else if j == p {
            } else if i < p {
            } else if i == p {
                assert(ids[j - 1] != id) by {
                    assert(ids.contains(ids[j - 1]));
                }
            } else {
            }
        }
        assert(r[p] == id);
        assert forall|x: i32| #[trigger] r.contains(x) <==> (ids.contains(x) || x == id) by {
            if r.contains(x) {
                let k = choose|k: int| 0 <= k < r.len() && r[k] == x;
                if k < p {
                    assert(ids[k] == x);
                } else if k > p {
                    assert(ids[k - 1] == x);
                }
            }
            if ids.contains(x) {
                let k = choose|k: int| 0 <= k < ids.len() && ids[k] == x;
                if k < p {
                    assert(r[k] == x);
                } else {
                    assert(r[k + 1] == x);
                }
            }
        }
    }
}

/// Inserting several ids keeps a vector strictly descending, and its elements are the old ones
/// plus the new ones.
pub proof fn lemma_inserted_all(ids: Seq<i32>, new: Seq<i32>)
    requires
        sorted_desc(ids),
    ensures
        sorted_desc(inserted_all(ids, new)),
        forall|x: i32| #[trigger] inserted_all(ids, new).contains(x) <==> (ids.contains(x) || new.contains(x)),
    decreases new.len(),
{
    if new.len() > 0 {
        let rest = new.drop_last();
        lemma_inserted_all(ids, rest);
        lemma_inserted(inserted_all(ids, rest), new.last());
        assert forall|x: i32| #[trigger] inserted_all(ids, new).contains(x) <==> (ids.contains(x) || new.contains(x)) by {
            if rest.contains(x) {
                let k = choose|k: int| 0 <= k < rest.len() && rest[k] == x;
                assert(new[k] == x);
            }
            if new.contains(x) && x != new.last() {
                let k = choose|k: int| 0 <= k < new.len() && new[k] == x;
                assert(k != new.len() - 1);
                assert(rest[k] == x);
            }
        }
    }
}

/// Two strictly descending vectors with the same elements are the same vector.
pub proof fn lemma_sorted_desc_determined(a: Seq<i32>, b: Seq<i32>)
    requires
        sorted_desc(a),
        sorted_desc(b),
        forall|x: i32| a.contains(x) <==> b.contains(x),
    ensures
        a == b,
    decreases a.len(),
{
    if a.len() == 0 {
        if b.len() > 0 {
            assert(b.contains(b[0]));
        }
        assert(a =~= b);
    } else {
        assert(a.contains(a[0]));
        assert(b.len() > 0);
        assert(b.contains(b[0]));
        let ka = choose|k: int| 0 <= k < b.len() && b[k] == a[0];
        let kb = choose|k: int| 0 <= k < a.len() && a[k] == b[0];
        assert(a[0] <= b[0]) by {
            if ka > 0 {
                assert(b[0] > b[ka]);
            }
        }
        assert(b[0] <= a[0]) by {
            if kb > 0 {
                assert(a[0] > a[kb]);
            }
        }
        let a2 = a.drop_first();
        let b2 = b.drop_first();
        assert forall|x: i32| a2.contains(x) <==> b2.contains(x) by {
            if a2.contains(x) {
                let k = choose|k: int| 0 <= k < a2.len() && a2[k] == x;
                assert(a[k + 1] == x);
                assert(a.contains(x));
                assert(x < a[0]);
                let j = choose|j: int| 0 <= j < b.len() && b[j] == x;
                assert(j != 0);
                assert(b2[j - 1] == x);
            }
            if b2.contains(x) {
                let k = choose|k: int| 0 <= k < b2.len() && b2[k] == x;
                assert(b[k + 1] == x);
                assert(b.contains(x));
                assert(x < b[0]);
                let j = choose|j: int| 0 <= j < a.len() && a[j] == x;
                assert(j != 0);
                assert(a2[j - 1] == x);
            }
        }
        lemma_sorted_desc_determined(a2, b2);
        assert(a.len() == b.len());
        assert forall|i: int| 0 <= i < a.len() implies a[i] == b[i] by {
            if i > 0 {
                assert(a[i] == a2[i - 1]);
                assert(b[i] == b2[i - 1]);
            }
        }
        assert(a =~= b);
    }
}

/// Adding an award that is already earned changes nothing.
pub proof fn law_add_award_idempotent(ids: Seq<i32>, id: i32)
    requires
        sorted_desc(ids),
    ensures
        inserted(inserted(ids, id), id) == inserted(ids, id),
{
    lemma_inserted(ids, id);
}

/// The earned set depends only on which ids were added, not on their order or repetition:
/// two sequences of additions with the same ids give the same vector.
pub proof fn law_insertion_order_irrelevant(a: Seq<i32>, b: Seq<i32>)
    requires
        forall|x: i32| a.contains(x) <==> b.contains(x),
    ensures
        inserted_all(Seq::empty(), a) == inserted_all(Seq::empty(), b),
{
    lemma_inserted_all(Seq::empty(), a);
    lemma_inserted_all(Seq::empty(), b);
    lemma_sorted_desc_determined(inserted_all(Seq::empty(), a), inserted_all(Seq::empty(), b));
}

/// Adds `id` to a strictly descending vector at its place, unless it is already there.
pub fn insert_sorted_unique(ids: &mut Vec<i32>, id: i32)
    requires
        sorted_desc(old(ids)@),
    ensures
        final(ids)@ == inserted(old(ids)@, id),
        sorted_desc(final(ids)@),
{
    proof {
        lemma_inserted(ids@, id);
    }
    let mut i: usize = 0;
    while i < ids.len()
        invariant
            i <= ids@.len(),
            ids@ == old(ids)@,
            sorted_desc(ids@),
            forall|k: int| 0 <= k < i ==> ids@[k] != id,
        decreases ids@.len() - i,
    {
        if ids[i] == id {
            assert(ids@.contains(id));
            return;
        }
        i = i + 1;
    }
    assert(!ids@.contains(id));
    proof {
        lemma_partition_point(ids@, id);
    }
    let mut pos: usize = 0;
    while pos < ids.len() && ids[pos] > id
        invariant
            pos <= ids@.len(),
            pos <= partition_point(ids@, id),
            sorted_desc(ids@),
            partition_point(ids@, id) <= ids@.len(),
            forall|k: int| partition_point(ids@, id) <= k < ids@.len() ==> ids@[k] <= id,
        decreases ids@.len() - pos,
    {
        pos = pos + 1;
    }
    ids.insert(pos, id);
}

/// A copy of `v`.
fn copy_ids(v: &Vec<i32>) -> (r: Vec<i32>)
    ensures
        r@ == v@,
{
    let mut r: Vec<i32> = Vec::new();
    let mut i: usize = 0;
    while i < v.len()
        invariant
            i <= v@.len(),
            r@ == v@.subrange(0, i as int),
        decreases v@.len() - i,
    {
        r.push(v[i]);
        i = i + 1;
        assert(r@ =~= v@.subrange(0, i as int));
    }
    assert(r@ =~= v@);
    r
}

/// The ids read back by `load`, in read order: every successful read of the count's reads.
pub open spec fn read_ids(reads: Seq<Option<u32>>) -> Seq<i32>
    decreases reads.len(),
{
    if reads.len() == 0 {
        Seq::empty()
    } else {
        match reads.last() {
            Some(v) => read_ids(reads.drop_last()).push(v as i32),
            None => read_ids(reads.drop_last()),
        }
    }
}

/// Whether every read succeeded.
pub open spec fn all_read(reads: Seq<Option<u32>>) -> bool {
    forall|i: int| 0 <= i < reads.len() ==> #[trigger] reads[i] is Some
}

/// The save-file image of an earned set: its size, then every id, each as a 32-bit word.
pub open spec fn saved_words(ids: Seq<i32>) -> Seq<u32> {
    seq![ids.len() as u32] + ids.map_values(|id: i32| id as u32)
}

/// Reading back the words of a save gives back the ids.
proof fn lemma_read_saved(ids: Seq<i32>)
    ensures
        read_ids(ids.map_values(|id: i32| Some(id as u32))) == ids,
        all_read(ids.map_values(|id: i32| Some(id as u32))),
    decreases ids.len(),
{
    let reads = ids.map_values(|id: i32| Some(id as u32));
    if ids.len() > 0 {
        lemma_read_saved(ids.drop_last());
        assert(reads.drop_last() =~= ids.drop_last().map_values(|id: i32| Some(id as u32)));
        let x = ids.last();
        assert((x as u32) as i32 == x) by (bit_vector);
        assert(ids.drop_last().push(ids.last()) =~= ids);
    }
}

/// Saving a valid earned set and loading its words back restores it exactly: the count word
/// is the number of ids, every id word reads back, and re-adding them in file order rebuilds
/// the same vector.
pub proof fn law_save_load_round_trip(ids: Seq<i32>)
    requires
        sorted_desc(ids),
        ids.len() <= u32::MAX,
    ensures
        saved_words(ids)[0] == ids.len(),
        all_read(saved_words(ids).drop_first().map_values(|w: u32| Some(w))),
        saved_words(ids).drop_first().map_values(|w: u32| Some(w)).len() == ids.len(),
        inserted_all(Seq::empty(), read_ids(saved_words(ids).drop_first().map_values(|w: u32| Some(w)))) == ids,
{
    let words = saved_words(ids);
    assert(words.drop_first() =~= ids.map_values(|id: i32| id as u32));
    assert(words.drop_first().map_values(|w: u32| Some(w)) =~= ids.map_values(|id: i32| Some(id as u32)));
    lemma_read_saved(ids);
    lemma_inserted_all(Seq::empty(), ids);
    lemma_sorted_desc_determined(inserted_all(Seq::empty(), ids), ids);
}

/// Offsets into a scenario goal of its kind, submetric and threshold.
pub const GOAL_KIND_OFFSET: u32 = 0xc;
pub const GOAL_SUBMETRIC_OFFSET: u32 = 0x10;
pub const GOAL_THRESHOLD_OFFSET: u32 = 0x1c;
/// The submetric that counts earned awards.
pub const AWARD_COUNT_SUBMETRIC: i32 = 0xb;
/// The goal kind of numeric-statistic goals.
pub const NUMERIC_STAT_GOAL_KIND: i32 = 1;

/// The game manager's elapsed-time metric: its month counter plus twelve times its year counter.
pub open spec fn spec_elapsed_metric(mem: &ZtMemory, game_mgr_ptr: int) -> int {
    (mem.u32_at(game_mgr_ptr + 0x15c) as i32) + (mem.u32_at(game_mgr_ptr + 0x160) as i32) * 12
}

/// Whether computing the elapsed-time metric stays within 32-bit arithmetic.
pub open spec fn elapsed_metric_fits(mem: &ZtMemory, game_mgr_ptr: int) -> bool {
    &&& i32::MIN <= (mem.u32_at(game_mgr_ptr + 0x160) as i32) * 12 <= i32::MAX
    &&& i32::MIN <= spec_elapsed_metric(mem, game_mgr_ptr) <= i32::MAX
}

/// Reads the game manager's elapsed-time metric.
pub fn elapsed_metric(mem: &ZtMemory, game_mgr_ptr: u32) -> (r: i32)
    requires
        game_mgr_ptr + 0x164 <= 0x1_0000_0000,
        mem.range_mapped(game_mgr_ptr + 0x15c, 8),
        elapsed_metric_fits(mem, game_mgr_ptr as int),
    ensures
        r == spec_elapsed_metric(mem, game_mgr_ptr as int),
{
    mem.get_i32(game_mgr_ptr + 0x15c) + mem.get_i32(game_mgr_ptr + 0x160) * 12
}

/// Whether a scenario goal asks for the earned-award count: a numeric-statistic goal on the
/// award-count submetric, with a live game manager, once the threshold is reached.
pub fn should_report_award_count(kind: i32, submetric: i32, threshold: i32, game_mgr_ptr: u32, elapsed: i32) -> (r: bool)
    ensures
        r == (kind == NUMERIC_STAT_GOAL_KIND && submetric == AWARD_COUNT_SUBMETRIC && game_mgr_ptr != 0 && threshold <= elapsed),
{
    kind == NUMERIC_STAT_GOAL_KIND && submetric == AWARD_COUNT_SUBMETRIC && game_mgr_ptr != 0 && threshold <= elapsed
}

/// The colour of an award's row in the awards list: the tooltip id's top byte over magenta.
pub fn award_list_item_color(tooltip_id: i32) -> (r: u32)
    ensures
        r == ((tooltip_id as u32) & 0xff00_0000u32) | 0x00ff_00ffu32,
{
    ((tooltip_id as u32) & 0xff00_0000) | 0x00ff_00ff
}

/// The award manager's state: the earned set, kept strictly descending, and the catalogue.
pub struct ZTAwardMgrState {
    earned_ids: Vec<i32>,
    awards: BTreeMap<i32, AwardData>,
}

impl ZTAwardMgrState {
    /// The earned award ids, largest first.
    pub closed spec fn earned(&self) -> Seq<i32> {
        self.earned_ids@
    }

    /// The catalogue, by award id.
    pub closed spec fn catalogue(&self) -> Map<i32, AwardData> {
        self.awards@
    }

    /// Every catalogue entry has a non-zero id and a non-zero name id.
    pub open spec fn catalogue_valid(&self) -> bool {
        forall|id: i32| #[trigger] self.catalogue().contains_key(id) ==> id != 0 && self.catalogue()[id].spec_name_id() != 0
    }

    /// The earned set is strictly descending, and the catalogue is valid.
    pub open spec fn wf(&self) -> bool {
        &&& sorted_desc(self.earned())
        &&& self.catalogue_valid()
    }

    /// An empty manager: nothing earned, nothing in the catalogue.
    pub fn new() -> (m: ZTAwardMgrState)
        ensures
            m.wf(),
            m.earned() == Seq::<i32>::empty(),
            m.catalogue() == Map::<i32, AwardData>::empty(),
    {
        ZTAwardMgrState { earned_ids: Vec::new(), awards: BTreeMap::new() }
    }

    /// Marks award `id` as earned.
    pub fn add_award(&mut self, id: i32)
        requires
            old(self).wf(),
        ensures
            final(self).wf(),
            final(self).earned() == inserted(old(self).earned(), id),
            final(self).catalogue() == old(self).catalogue(),
    {
        insert_sorted_unique(&mut self.earned_ids, id);
        assert(self.catalogue() == old(self).catalogue());
    }

    /// The catalogue entry for award `id`, if there is one.
    pub fn get_award(&self, id: i32) -> (r: Option<AwardData>)
        ensures
            self.catalogue().contains_key(id) ==> r == Some(self.catalogue()[id]),
            !self.catalogue().contains_key(id) ==> r is None,
            self.wf() ==> (r matches Some(a) ==> id != 0 && a.spec_name_id() != 0),
    {
        match self.awards.get(&id) {
            Some(award) => Some(award.clone()),
            None => None,
        }
    }

    /// The earned award ids, largest first.
    pub fn earned_ids(&self) -> (r: Vec<i32>)
        ensures
            r@ == self.earned(),
    {
        copy_ids(&self.earned_ids)
    }

    /// How many awards have been earned, as the game's 32-bit count.
    pub fn earned_count(&self) -> (r: i32)
        ensures
            r == self.earned().len() as i32,
    {
        self.earned_ids.len() as i32
    }

    /// Adds or replaces the catalogue entry for award `id`; an entry needs a non-zero id and
    /// name id.
    pub fn insert_award(&mut self, id: i32, award: AwardData)
        requires
            old(self).wf(),
            id != 0,
            award.spec_name_id() != 0,
        ensures
            final(self).wf(),
            final(self).catalogue() == old(self).catalogue().insert(id, award),
            final(self).earned() == old(self).earned(),
    {
        self.awards.insert(id, award);
        assert forall|k: i32| #[trigger] self.catalogue().contains_key(k) implies k != 0 && self.catalogue()[k].spec_name_id() != 0 by {
            if k != id {
                assert(old(self).catalogue().contains_key(k));
            }
        }
    }

    /// The earned set as the save file stores it: the count, then every id, as 32-bit words
    /// written in this order.
    pub fn save(&self) -> (words: Vec<u32>)
        ensures
            words@ == saved_words(self.earned()),
    {
        let mut words: Vec<u32> = Vec::new();
        words.push(self.earned_ids.len() as u32);
        let mut i: usize = 0;
        while i < self.earned_ids.len()
            invariant
                i <= self.earned().len(),
                words@ == seq![self.earned().len() as u32] + self.earned().subrange(0, i as int).map_values(|id: i32| id as u32),
            decreases self.earned().len() - i,
        {
            words.push(self.earned_ids[i] as u32);
            i = i + 1;
            assert(self.earned().subrange(0, i as int).map_values(|id: i32| id as u32) =~= self.earned().subrange(
                0,
                i - 1,
            ).map_values(|id: i32| id as u32).push(self.earned_ids@[i - 1] as u32));
            assert(words@ =~= seq![self.earned().len() as u32] + self.earned().subrange(0, i as int).map_values(|id: i32| id as u32));
        }
        assert(self.earned().subrange(0, self.earned().len() as int) =~= self.earned());
        words
    }

    /// What a scenario goal at `goal_ptr` evaluates to when it asks for the earned-award count
    /// (see `should_report_award_count`); `None` when the goal is left to the game.
    pub fn award_count_goal_value(&self, mem: &ZtMemory, goal_ptr: u32, game_mgr_ptr: u32) -> (r: Option<i32>)
        requires
            goal_ptr + 0x20 <= 0x1_0000_0000,
            mem.range_mapped(goal_ptr + GOAL_KIND_OFFSET, 4),
            mem.range_mapped(goal_ptr + GOAL_SUBMETRIC_OFFSET, 4),
            mem.range_mapped(goal_ptr + GOAL_THRESHOLD_OFFSET, 4),
            game_mgr_ptr != 0 ==> game_mgr_ptr + 0x164 <= 0x1_0000_0000 && mem.range_mapped(game_mgr_ptr + 0x15c, 8)
                && elapsed_metric_fits(mem, game_mgr_ptr as int),
        ensures
            ({
                let elapsed = if game_mgr_ptr != 0 { spec_elapsed_metric(mem, game_mgr_ptr as int) } else { 0 };
                let report = mem.u32_at(goal_ptr + GOAL_KIND_OFFSET) as i32 == NUMERIC_STAT_GOAL_KIND
                    && mem.u32_at(goal_ptr + GOAL_SUBMETRIC_OFFSET) as i32 == AWARD_COUNT_SUBMETRIC && game_mgr_ptr != 0
                    && mem.u32_at(goal_ptr + GOAL_THRESHOLD_OFFSET) as i32 <= elapsed;
                &&& report ==> r == Some(self.earned().len() as i32)
                &&& !report ==> r is None
            }),
    {
        let kind = mem.get_i32(goal_ptr + GOAL_KIND_OFFSET);
        let submetric = mem.get_i32(goal_ptr + GOAL_SUBMETRIC_OFFSET);
        let threshold = mem.get_i32(goal_ptr + GOAL_THRESHOLD_OFFSET);
        let elapsed = if game_mgr_ptr != 0 { elapsed_metric(mem, game_mgr_ptr) } else { 0 };
        if should_report_award_count(kind, submetric, threshold, game_mgr_ptr, elapsed) {
            Some(self.earned_count())
        } else {
            None
        }
    }

    /// Reloads the earned set from the save file's reads: `count` is the count word (`None` if
    /// it could not be read) and `reads` the results of reading that many id words. The earned
    /// set is cleared, then every id read is added as by `add_award`. Returns whether every read
    /// succeeded.
    pub fn load(&mut self, count: Option<u32>, reads: &Vec<Option<u32>>) -> (ok: bool)
        requires
            old(self).wf(),
            count matches Some(n) ==> reads@.len() == n,
        ensures
            final(self).wf(),
            final(self).catalogue() == old(self).catalogue(),
            count is None ==> !ok && final(self).earned() == Seq::<i32>::empty(),
            count is Some ==> ok == all_read(reads@) && final(self).earned() == inserted_all(Seq::empty(), read_ids(reads@)),
    {
        self.earned_ids.clear();
        assert(self.catalogue() == old(self).catalogue());
        if count.is_none() {
            return false;
        }
        let mut ok = true;
        let mut i: usize = 0;
        while i < reads.len()
            invariant
                i <= reads@.len(),
                self.wf(),
                self.catalogue() == old(self).catalogue(),
                self.earned() == inserted_all(Seq::empty(), read_ids(reads@.subrange(0, i as int))),
                ok == all_read(reads@.subrange(0, i as int)),
            decreases reads@.len() - i,
        {
            let ghost prefix = reads@.subrange(0, i as int);
            assert(reads@.subrange(0, i + 1).drop_last() =~= prefix);
            match reads[i] {
                Some(id) => {
                    self.add_award(id as i32);
                    assert(read_ids(reads@.subrange(0, i + 1)) == read_ids(prefix).push(id as i32));
                    assert(read_ids(prefix).push(id as i32).drop_last() =~= read_ids(prefix));
                },
                None => {
                    ok = false;
                    assert(read_ids(reads@.subrange(0, i + 1)) == read_ids(prefix));
                },
            }
            assert(ok == all_read(reads@.subrange(0, i + 1))) by {
                if all_read(reads@.subrange(0, i + 1)) {
                    assert(reads@.subrange(0, i + 1)[i as int] is Some);
                    assert forall|k: int| 0 <= k < prefix.len() implies #[trigger] prefix[k] is Some by {
                        assert(reads@.subrange(0, i + 1)[k] is Some);
                    }
                }
            }
            i = i + 1;
        }
        assert(reads@.subrange(0, reads@.len() as int) =~= reads@);
        ok
    }
}

/// Whether saving the earned set succeeded, given the outcome of writing each word of `save`'s
/// result, in order: every word is written even after a failed write, and the save succeeds
/// exactly when every write did.
pub fn save_succeeded(writes: &Vec<bool>) -> (r: bool)
    ensures
        r == (forall|k: int| 0 <= k < writes@.len() ==> #[trigger] writes@[k]),
{
    let mut ok = true;
    let mut i: usize = 0;
    while i < writes.len()
        invariant
            i <= writes@.len(),
            ok == (forall|k: int| 0 <= k < i ==> #[trigger] writes@[k]),
        decreases writes@.len() - i,
    {
        if !writes[i] {
            ok = false;
        }
        i = i + 1;
    }
    ok
}

/// Whatever sequence of `new`, `start`, `add_award`, `load` and `insert_award` built a manager,
/// every award it can look up has a non-zero id and a non-zero name id: each of them keeps the
/// manager well formed, and a well-formed manager's catalogue holds only such entries.
pub proof fn law_catalogue_entries_are_named(m: ZTAwardMgrState, id: i32)
    requires
        m.wf(),
    ensures
        m.catalogue().contains_key(id) ==> id != 0 && m.catalogue()[id].spec_name_id() != 0,
{
}

/// A catalogue entry as plain values: name id, tooltip id, icon.
pub open spec fn entry_view(a: AwardData) -> (i32, i32, Seq<char>) {
    (a.spec_name_id(), a.spec_tooltip_id(), a.spec_icon())
}

/// One section named by an `award` value of an award file's `[Awards]` section, with the values
/// its keys hold (every value of a repeated key, in file order).
pub struct AwardSection {
    /// The `award` value naming the section.
    pub name: String,
    pub id: Vec<String>,
    pub name_id: Vec<String>,
    pub tooltip_id: Vec<String>,
    pub icon: Vec<String>,
}

/// What an award config file holds for the catalogue: the values of `version` in `[Version]`,
/// and each `award` value of `[Awards]` with its section.
pub struct AwardConfigFile {
    pub version: Vec<String>,
    pub awards: Vec<AwardSection>,
}

/// The catalogue entry a section makes: none when the section name is blank or its `id` or
/// `nameID` is missing, unparsable or 0; otherwise the entry under `id`, with the tooltip id 0 and
/// the icon empty when absent.
pub open spec fn section_entry(sec: AwardSection) -> Option<(i32, (i32, i32, Seq<char>))> {
    if spec_trim(sec.name@).len() == 0 {
        None
    } else {
        let id = spec_first_int_or_zero(sec.id@);
        let name_id = spec_first_int_or_zero(sec.name_id@);
        if id != 0 && name_id != 0 {
            Some(
                (
                    id,
                    (
                        name_id,
                        spec_first_int_or_zero(sec.tooltip_id@),
                        match spec_first(sec.icon@) {
                            Some(v) => v,
                            None => Seq::empty(),
                        },
                    ),
                ),
            )
        } else {
            None
        }
    }
}

/// The entries the sections make, in order.
pub open spec fn sections_entries(secs: Seq<AwardSection>) -> Seq<(i32, (i32, i32, Seq<char>))>
    decreases secs.len(),
{
    if secs.len() == 0 {
        Seq::empty()
    } else {
        match section_entry(secs.last()) {
            Some(e) => sections_entries(secs.drop_last()).push(e),
            None => sections_entries(secs.drop_last()),
        }
    }
}

/// The entries a file makes: none unless its version is positive.
pub open spec fn file_entries(f: AwardConfigFile) -> Seq<(i32, (i32, i32, Seq<char>))> {
    if spec_first_int_or_zero(f.version@) <= 0 {
        Seq::empty()
    } else {
        sections_entries(f.awards@)
    }
}

/// The entries the files make, file by file.
pub open spec fn files_entries(files: Seq<AwardConfigFile>) -> Seq<(i32, (i32, i32, Seq<char>))>
    decreases files.len(),
{
    if files.len() == 0 {
        Seq::empty()
    } else {
        files_entries(files.drop_last()) + file_entries(files.last())
    }
}

/// `m` with the entries inserted in order, a later entry replacing an earlier one of the same id.
pub open spec fn insert_entries(m: Map<i32, (i32, i32, Seq<char>)>, es: Seq<(i32, (i32, i32, Seq<char>))>) -> Map<i32, (i32, i32, Seq<char>)>
    decreases es.len(),
{
    if es.len() == 0 {
        m
    } else {
        insert_entries(m, es.drop_last()).insert(es.last().0, es.last().1)
    }
}

/// The file name of a resource path: what follows its last `/`.
pub open spec fn base_name(path: Seq<char>) -> Seq<char>
    decreases path.len(),
{
    if path.len() == 0 {
        path
    } else if path.last() == '/' {
        Seq::empty()
    } else {
        base_name(path.drop_last()).push(path.last())
    }
}

/// `s` in ASCII lower case.
pub open spec fn lowercase(s: Seq<char>) -> Seq<char> {
    Seq::new(s.len(), |i: int| ascii_lower(s[i]))
}

/// Whether a resource path names an award config file: its file name, in lower case, starts
/// with `award` and ends with `.cfg`.
pub open spec fn spec_is_award_config_name(path: Seq<char>) -> bool {
    let base = lowercase(base_name(path));
    base.len() >= 5 && base.take(5) == seq!['a', 'w', 'a', 'r', 'd'] && base.len() >= 4 && base.skip(
        base.len() - 4,
    ) == seq!['.', 'c', 'f', 'g']
}

/// Whether a resource path names an award config file.
#[verifier::loop_isolation(false)]
pub fn is_award_config_name(path: &str) -> (r: bool)
    ensures
        r == spec_is_award_config_name(path@),
{
    let v = chars_of(path);
    let n = v.len();
    let mut start: usize = n;
    while start > 0 && v[start - 1] != '/'
        invariant
            v@ == path@,
            n == v@.len(),
            start <= n,
            forall|k: int| start <= k < n ==> path@[k] != '/',
        decreases start,
    {
        start = start - 1;
    }
    proof {
        lemma_base_name_tail(path@, start as int, n as int);
        assert(path@.take(n as int) =~= path@);
    }
    let ghost base = path@.skip(start as int);
    assert(base_name(path@) == base);
    let len = n - start;
    if len < 5 {
        return false;
    }
    let word = ['a', 'w', 'a', 'r', 'd'];
    let mut i: usize = 0;
    while i < 5
        invariant
            v@ == path@,
            start + 5 <= n == v@.len(),
            base == path@.skip(start as int),
            i <= 5,
            word@ == seq!['a', 'w', 'a', 'r', 'd'],
            forall|k: int| 0 <= k < i ==> ascii_lower(#[trigger] base[k]) == word@[k],
        decreases 5 - i,
    {
        if crate::vanilla_ui::to_ascii_lower(v[start + i]) != word[i] {
            assert(lowercase(base).take(5)[i as int] != seq!['a', 'w', 'a', 'r', 'd'][i as int]);
            return false;
        }
        i = i + 1;
    }
    assert(lowercase(base).take(5) =~= seq!['a', 'w', 'a', 'r', 'd']);
    let ext = ['.', 'c', 'f', 'g'];
    let mut j: usize = 0;
    while j < 4
        invariant
            v@ == path@,
            start + 5 <= n == v@.len(),
            base == path@.skip(start as int),
            j <= 4,
            ext@ == seq!['.', 'c', 'f', 'g'],
            forall|k: int| 0 <= k < j ==> ascii_lower(#[trigger] base[base.len() - 4 + k]) == ext@[k],
        decreases 4 - j,
    {
        if crate::vanilla_ui::to_ascii_lower(v[n - 4 + j]) != ext[j] {
            assert(lowercase(base).skip(base.len() - 4)[j as int] != seq!['.', 'c', 'f', 'g'][j as int]);
            return false;
        }
        j = j + 1;
    }
    assert forall|k: int| 0 <= k < 4 implies lowercase(base).skip(base.len() - 4)[k] == ext@[k] by {
        assert(ascii_lower(base[base.len() - 4 + k]) == ext@[k]);
    }
    assert(lowercase(base).skip(base.len() - 4) =~= seq!['.', 'c', 'f', 'g']);
    true
}

/// Past the last `/` at or after `start` of `path.take(end)`, the base name is the tail from
/// `start`.
proof fn lemma_base_name_tail(path: Seq<char>, start: int, end: int)
    requires
        0 <= start <= end <= path.len(),
        forall|k: int| start <= k < end ==> path[k] != '/',
        start == 0 || path[start - 1] == '/',
    ensures
        base_name(path.take(end)) == path.take(end).skip(start),
    decreases end - start,
{
    if end == start {
        if start == 0 {
            assert(path.take(0) =~= Seq::<char>::empty());
        } else {
            assert(path.take(end).last() == '/');
        }
        assert(path.take(end).skip(start) =~= Seq::<char>::empty());
    } else {
        lemma_base_name_tail(path, start, end - 1);
        assert(path.take(end).drop_last() =~= path.take(end - 1));
        assert(path.take(end).skip(start) =~= path.take(end - 1).skip(start).push(path[end - 1]));
    }
}

impl ZTAwardMgrState {
    /// The catalogue as plain values.
    pub open spec fn catalogue_view(&self) -> Map<i32, (i32, i32, Seq<char>)> {
        self.catalogue().map_values(|a: AwardData| entry_view(a))
    }

    /// Adds the catalogue entry of `sec` if it makes one (see `section_entry`). Returns whether
    /// it did.
    fn load_section(&mut self, sec: &AwardSection) -> (added: bool)
        requires
            old(self).wf(),
        ensures
            final(self).wf(),
            added == section_entry(*sec) is Some,
            final(self).earned() == old(self).earned(),
            final(self).catalogue_view() == match section_entry(*sec) {
                Some(e) => old(self).catalogue_view().insert(e.0, e.1),
                None => old(self).catalogue_view(),
            },
    {
        let name = trim(sec.name.as_str());
        if chars_of(name.as_str()).len() == 0 {
            return false;
        }
        let id = first_int_or_zero(&sec.id);
        let name_id = first_int_or_zero(&sec.name_id);
        if id == 0 || name_id == 0 {
            return false;
        }
        let tooltip_id = first_int_or_zero(&sec.tooltip_id);
        let icon = match first(&sec.icon) {
            Some(v) => v,
            None => String::new(),
        };
        let ghost before = self.catalogue_view();
        let award = AwardData::new(name_id, tooltip_id, icon);
        self.insert_award(id, award);
        assert(self.catalogue_view() =~= before.insert(id, entry_view(award)));
        true
    }

    /// Fills the catalogue from the award config files, in order: a file counts only when its
    /// version is positive; each of its sections then adds or replaces the entry under its id.
    /// Returns whether any entry was added.
    pub fn start(&mut self, files: &Vec<AwardConfigFile>) -> (any: bool)
        requires
            old(self).wf(),
        ensures
            final(self).wf(),
            final(self).earned() == old(self).earned(),
            final(self).catalogue_view() == insert_entries(old(self).catalogue_view(), files_entries(files@)),
            any == (files_entries(files@).len() > 0),
    {
        let ghost start_view = self.catalogue_view();
        let mut any = false;
        let mut i: usize = 0;
        while i < files.len()
            invariant
                i <= files@.len(),
                self.wf(),
                self.earned() == old(self).earned(),
                start_view == old(self).catalogue_view(),
                self.catalogue_view() == insert_entries(start_view, files_entries(files@.take(i as int))),
                any == (files_entries(files@.take(i as int)).len() > 0),
            decreases files@.len() - i,
        {
            let file = &files[i];
            let ghost done = files_entries(files@.take(i as int));
            assert(files@.take(i + 1).drop_last() =~= files@.take(i as int));
            assert(files@.take(i + 1).last() == *file);
            if first_int_or_zero(&file.version) > 0 {
                let mut j: usize = 0;
                while j < file.awards.len()
                    invariant
                        j <= file.awards@.len(),
                        self.wf(),
                        spec_first_int_or_zero(file.version@) > 0,
                        self.earned() == old(self).earned(),
                        self.catalogue_view() == insert_entries(start_view, done + sections_entries(file.awards@.take(j as int))),
                        any == ((done + sections_entries(file.awards@.take(j as int))).len() > 0),
                    decreases file.awards@.len() - j,
                {
                    let ghost prev = done + sections_entries(file.awards@.take(j as int));
                    assert(file.awards@.take(j + 1).drop_last() =~= file.awards@.take(j as int));
                    assert(file.awards@.take(j + 1).last() == file.awards@[j as int]);
                    let added = self.load_section(&file.awards[j]);
                    if added {
                        any = true;
                        let ghost e = section_entry(file.awards@[j as int]).unwrap();
                        assert(done + sections_entries(file.awards@.take(j + 1)) =~= prev.push(e));
                        assert(prev.push(e).drop_last() =~= prev);
                    } else {
                        assert(done + sections_entries(file.awards@.take(j + 1)) =~= prev);
                    }
                    j = j + 1;
                }
                assert(file.awards@.take(file.awards@.len() as int) =~= file.awards@);
            } else {
                assert(done + file_entries(*file) =~= done);
            }
            i = i + 1;
        }
        assert(files@.take(files@.len() as int) =~= files@);
        any
    }
}

} // verus!
