//! The list of monsters: the dataset, the filter on it, the selected record
//! and the panels that show it.

use crate::monster::effect::MonsterElements;
use crate::monster::record::{
    DamageData, MonsterBasicInfo, MonsterDescText, MonsterDrops, MonsterEntity,
    MonsterHabitatData, MonsterMaterialsDrop, MonsterName, MonsterQuestData, StatusAilmentItem,
};
use crate::state::cursor::{lemma_full_turn, lemma_steps_invert};
use crate::state::cursor::{row_after, row_after_steps, row_before, RowCursor, ScrollbarState};
use crate::state::drops::{MaterialSourceTab, MonsterDropRankTab, MonsterDropTabState};
use crate::state::habitat::ChangeableHabitatPageState;
use crate::state::paragraph::ScrollableParagraphState;
use crate::state::quest_list::MonsterOnQuestListState;
use crate::state::weakness::{
    MonsterStatusAndItemWeaknessTab, MonsterWeaknessTab, MonsterWeaknessTabState,
};
use crate::text::{matches_query, name_matches};
use std::rc::Rc;
use vstd::prelude::*;

verus! {

/// Whether a record's display name matches the filter `query`.
pub open spec fn name_filter(query: Seq<char>) -> spec_fn(Rc<MonsterEntity>) -> bool {
    |record: Rc<MonsterEntity>| matches_query(record.name.name@, query)
}

/// The records of `items` whose display name matches `query`, in the order
/// they have in `items`.
pub open spec fn filter_by_name(items: Seq<Rc<MonsterEntity>>, query: Seq<char>) -> Seq<
    Rc<MonsterEntity>,
> {
    items.filter(name_filter(query))
}

/// Filtering keeps the records whose display name matches the query, all
/// of them and no others.
pub proof fn lemma_filter_keeps_the_matches(items: Seq<Rc<MonsterEntity>>, query: Seq<char>)
    ensures
        filter_by_name(items, query).len() <= items.len(),
        forall|i: int|
            0 <= i < filter_by_name(items, query).len() ==> matches_query(
                (#[trigger] filter_by_name(items, query)[i]).name.name@,
                query,
            ) && items.contains(filter_by_name(items, query)[i]),
        forall|i: int|
            0 <= i < items.len() && matches_query(items[i].name.name@, query) ==> filter_by_name(
                items,
                query,
            ).contains(#[trigger] items[i]),
{
    let keep = name_filter(query);
    let found = items.filter(keep);
    items.lemma_filter_len(keep);
    assert forall|i: int| 0 <= i < found.len() implies matches_query(
        (#[trigger] found[i]).name.name@,
        query,
    ) && items.contains(found[i]) by {
        items.lemma_filter_pred(keep, i);
        assert(found.contains(found[i]));
        items.lemma_filter_contains_rev(keep, found[i]);
    }
    assert forall|i: int|
        0 <= i < items.len() && matches_query(items[i].name.name@, query) implies found.contains(
        #[trigger] items[i],
    ) by {
        items.lemma_filter_contains(keep, i);
    }
}

/// `rows` picks the records of `found` out of `items` from left to right:
/// row by row it names a place in `items`, further right each time, where
/// the record of that row stands.
pub open spec fn picks_in_order(
    rows: Seq<int>,
    found: Seq<Rc<MonsterEntity>>,
    items: Seq<Rc<MonsterEntity>>,
) -> bool {
    &&& rows.len() == found.len()
    &&& forall|k: int|
        0 <= k < rows.len() ==> 0 <= #[trigger] rows[k] < items.len() && found[k] == items[rows[k]]
    &&& forall|a: int, b: int| 0 <= a < b < rows.len() ==> #[trigger] rows[a] < #[trigger] rows[b]
}

/// Filtering keeps the order of the records: the records that it keeps
/// stand in the result as they stand in the source, from left to right.
pub proof fn lemma_filter_keeps_order(items: Seq<Rc<MonsterEntity>>, query: Seq<char>)
    ensures
        exists|rows: Seq<int>| picks_in_order(rows, filter_by_name(items, query), items),
    decreases items.len(),
{
    reveal(Seq::filter);
    let keep = name_filter(query);
    if items.len() == 0 {
        assert(picks_in_order(Seq::<int>::empty(), filter_by_name(items, query), items));
    } else {
        let head = items.drop_last();
        lemma_filter_keeps_order(head, query);
        let rows = choose|rows: Seq<int>| picks_in_order(rows, filter_by_name(head, query), head);
        if keep(items.last()) {
            let longer = rows.push(items.len() - 1);
            assert(picks_in_order(longer, filter_by_name(items, query), items));
        } else {
            assert(picks_in_order(rows, filter_by_name(items, query), items));
        }
    }
}

/// Calls `Rc::clone`. Trusted: the new handle points to the same record.
#[verifier::external_body]
fn share(record: &Rc<MonsterEntity>) -> (handle: Rc<MonsterEntity>)
    ensures
        handle == *record,
{
    Rc::clone(record)
}

/// The records of `bundle` whose display name matches `query`, in order.
pub fn filter_records(bundle: &Vec<Rc<MonsterEntity>>, query: &str) -> (found: Vec<
    Rc<MonsterEntity>,
>)
    ensures
        found@ == filter_by_name(bundle@, query@),
{
    let mut found: Vec<Rc<MonsterEntity>> = Vec::new();
    let mut i: usize = 0;
    proof {
        assert(bundle@.take(0) =~= Seq::<Rc<MonsterEntity>>::empty());
        reveal(Seq::filter);
    }
    while i < bundle.len()
        invariant
            i <= bundle.len(),
            found@ == filter_by_name(bundle@.take(i as int), query@),
        decreases bundle.len() - i,
    {
        let keep = name_matches(bundle[i].name.name.as_str(), query);
        proof {
            assert(bundle@.take(i + 1) =~= bundle@.take(i as int).push(bundle@[i as int]));
            bundle@.take(i as int).lemma_filter_push(bundle@[i as int], name_filter(query@));
        }
        if keep {
            found.push(share(&bundle[i]));
        }
        i += 1;
    }
    proof {
        assert(bundle@.take(bundle.len() as int) =~= bundle@);
    }
    found
}

/// The state of the monster browser.
pub struct MonsterListState {
    pub list_state: RowCursor,
    pub list_scrollbar_state: ScrollbarState,
    pub desc_scrollbar_state: ScrollableParagraphState,
    pub habitat_page_state: ChangeableHabitatPageState,
    pub monster_on_quest_list_state: MonsterOnQuestListState,
    pub monster_weakness_tab_state: MonsterWeaknessTabState,
    pub monster_drops_tab_state: MonsterDropTabState,
    pub filter_query: String,
    pub filtered_list: Vec<Rc<MonsterEntity>>,
    pub bundle: Vec<Rc<MonsterEntity>>,
    pub current_data: Rc<MonsterEntity>,
    pub ascii_asset: String,
}

/// The drop panel with the row counts of the eight tables of `drops`, each
/// cut to sixteen bits.
pub open spec fn drops_sized_for(panel: MonsterDropTabState, drops: MonsterDrops) -> MonsterDropTabState {
    MonsterDropTabState {
        low_target_len: drops.low_rank.target@.len() as u16,
        low_broken_part_len: drops.low_rank.broken_part@.len() as u16,
        low_wound_destroy_len: drops.low_rank.wound_destroy@.len() as u16,
        low_carve_len: drops.low_rank.carve@.len() as u16,
        high_target_len: drops.high_rank.target@.len() as u16,
        high_broken_part_len: drops.high_rank.broken_part@.len() as u16,
        high_wound_destroy_len: drops.high_rank.wound_destroy@.len() as u16,
        high_carve_len: drops.high_rank.carve@.len() as u16,
        ..panel
    }
}

/// The row that `next` selects in a list of `len` records, `len > 0`: the
/// first row from the last one, from beyond it and from no row, else the
/// row after.
pub open spec fn record_after(selected: Option<usize>, len: int) -> usize {
    match selected {
        Some(row) => if row >= len - 1 {
            0
        } else {
            (row + 1) as usize
        },
        None => 0,
    }
}

/// The row that `prev` selects in a list of `len` records, `len > 0`: the
/// last row from the first one, the first row from no row, else the row
/// before.
pub open spec fn record_before(selected: Option<usize>, len: int) -> usize {
    match selected {
        Some(row) => if row == 0 {
            (len - 1) as usize
        } else {
            (row - 1) as usize
        },
        None => 0,
    }
}

impl MonsterListState {
    /// The records that the list shows: the dataset while the filter is
    /// empty, else the records that matched it.
    pub open spec fn visible(self) -> Seq<Rc<MonsterEntity>> {
        if self.filter_query@.len() == 0 {
            self.bundle@
        } else {
            self.filtered_list@
        }
    }

    /// The cached lengths of the panels are those of `record`, each cut to
    /// the width of its counter.
    pub open spec fn sized_for(self, record: MonsterEntity) -> bool {
        &&& self.monster_on_quest_list_state.list_len == record.quest_list@.len() as u16
        &&& self.habitat_page_state.habitat_total_page == record.habitats@.len() as u8
        &&& self.monster_weakness_tab_state.damage_data_len
            == record.weaknesses.dmg_data@.len() as u16
        &&& self.monster_drops_tab_state == drops_sized_for(
            self.monster_drops_tab_state,
            record.drops,
        )
    }

    /// This state with `selected` as the selection and `record` shown: the
    /// cached lengths of the panels are those of `record`, and nothing else
    /// differs.
    pub open spec fn showing(self, selected: Option<usize>, record: Rc<MonsterEntity>) -> Self {
        MonsterListState {
            list_state: RowCursor { selected },
            current_data: record,
            monster_on_quest_list_state: self.monster_on_quest_list_state.with_len(
                record.quest_list@.len() as u16,
            ),
            habitat_page_state: ChangeableHabitatPageState {
                habitat_total_page: record.habitats@.len() as u8,
                ..self.habitat_page_state
            },
            monster_weakness_tab_state: self.monster_weakness_tab_state.with_len(
                record.weaknesses.dmg_data@.len() as u16,
            ),
            monster_drops_tab_state: drops_sized_for(self.monster_drops_tab_state, record.drops),
            ..self
        }
    }

    /// `after` is `self` with `selected` as the selection and the record of
    /// that row shown: the record of row 0 for no selection, and a default
    /// record where the list has no such row.
    pub open spec fn selects(self, selected: Option<usize>, after: Self) -> bool {
        let row = match selected {
            Some(row) => row as int,
            None => 0,
        };
        if row < self.visible().len() {
            after == self.showing(selected, self.visible()[row])
        } else {
            after.current_data.is_default() && after == self.showing(selected, after.current_data)
        }
    }

    /// The state is consistent: the dataset is not empty, the records that
    /// match a filter that is not empty are listed, and the record of the
    /// selected row is shown with its lengths cached.
    pub open spec fn wf(self) -> bool {
        &&& self.bundle@.len() > 0
        &&& self.filter_query@.len() > 0 ==> self.filtered_list@ == filter_by_name(
            self.bundle@,
            self.filter_query@,
        )
        &&& self.selects(self.list_state.selected, self)
    }

    /// `after` follows `self` by a step to the next record: unchanged where
    /// no record is listed.
    pub open spec fn next_leads_to(self, after: Self) -> bool {
        if self.visible().len() == 0 {
            after == self
        } else {
            self.selects(
                Some(record_after(self.list_state.selected, self.visible().len() as int)),
                after,
            )
        }
    }

    /// `after` follows `self` by a step to the record before: unchanged
    /// where no record is listed.
    pub open spec fn prev_leads_to(self, after: Self) -> bool {
        if self.visible().len() == 0 {
            after == self
        } else {
            self.selects(
                Some(record_before(self.list_state.selected, self.visible().len() as int)),
                after,
            )
        }
    }

    /// The selection is row `row` of the list, and the record of that row
    /// is shown with its lengths cached.
    pub open spec fn on_record(self, row: usize) -> bool {
        &&& row < self.visible().len()
        &&& self == self.showing(Some(row), self.visible()[row as int])
    }

    /// Each state of `states` but the first follows the one before it by a
    /// step to the next record.
    pub open spec fn next_chain(states: Seq<Self>) -> bool {
        forall|k: int|
            0 <= k && k + 1 < states.len() ==> (#[trigger] states[k]).next_leads_to(states[k + 1])
    }

    /// This state with every panel back at its first position: the first
    /// line, page and row, and the first tab of each pair.
    pub open spec fn after_reset(self) -> Self {
        MonsterListState {
            desc_scrollbar_state: self.desc_scrollbar_state.at(0),
            habitat_page_state: self.habitat_page_state.at(0),
            monster_on_quest_list_state: self.monster_on_quest_list_state.at(0),
            monster_weakness_tab_state: self.monster_weakness_tab_state.after_reset(),
            monster_drops_tab_state: self.monster_drops_tab_state.after_reset(),
            ..self
        }
    }

    /// `after` is `self` with `filter` as its filter: the records that match
    /// are listed, unless the filter is empty; the first of the shown
    /// records is selected, and none where none is shown.
    pub open spec fn refilters(self, filter: Seq<char>, after: Self) -> bool {
        let listed = MonsterListState {
            filter_query: after.filter_query,
            filtered_list: after.filtered_list,
            ..self
        };
        &&& after.filter_query@ == filter
        &&& filter.len() == 0 ==> after.filtered_list@ == self.filtered_list@
        &&& filter.len() > 0 ==> after.filtered_list@ == filter_by_name(self.bundle@, filter)
        &&& listed.selects(
            if listed.visible().len() > 0 {
                Some(0usize)
            } else {
                None
            },
            after,
        )
    }

    /// The browser over `bundle`, with its first record selected and shown.
    /// There is none over an empty dataset.
    pub fn new(bundle: Vec<Rc<MonsterEntity>>) -> (state: Option<Self>)
        ensures
            bundle@.len() == 0 <==> state is None,
            state matches Some(s) ==> s.wf(),
            state matches Some(s) ==> {
                &&& s.bundle == bundle
                &&& s.current_data == bundle@[0]
                &&& s.list_state.selected == Some(0usize)
                &&& s.sized_for(*bundle@[0])
                &&& s.filter_query@.len() == 0
                &&& s.filtered_list@.len() == 0
                &&& s.ascii_asset@.len() == 0
                &&& s.visible() == bundle@
                &&& s.list_scrollbar_state == (ScrollbarState { content_length: 0, position: 0 })
                &&& s.desc_scrollbar_state == (ScrollableParagraphState {
                    scrollbar_state: ScrollbarState { content_length: 0, position: 0 },
                    position: 0,
                    height: 0,
                })
                &&& s.habitat_page_state.habitat_current_page == 0
                &&& s.monster_on_quest_list_state.list_state.selected is None
                &&& s.monster_on_quest_list_state.scrollbar_state == (ScrollbarState {
                    content_length: 0,
                    position: 0,
                })
                &&& s.monster_weakness_tab_state == MonsterWeaknessTabState::initial().with_len(
                    s.monster_weakness_tab_state.damage_data_len,
                )
                &&& s.monster_drops_tab_state == drops_sized_for(
                    MonsterDropTabState::initial(),
                    bundle@[0].drops,
                )
            },
    {
        if bundle.len() == 0 {
            return None;
        }
        let current_data = share(&bundle[0]);
        let quest_list_len = current_data.quest_list.len() as u16;
        let h_total_page = current_data.habitats.len() as u8;
        let damage_data_len = current_data.weaknesses.dmg_data.len() as u16;

        let low_target_len = current_data.drops.low_rank.target.len() as u16;
        let low_broken_part_len = current_data.drops.low_rank.broken_part.len() as u16;
        let low_wound_destroy_len = current_data.drops.low_rank.wound_destroy.len() as u16;
        let low_carve_len = current_data.drops.low_rank.carve.len() as u16;

        let high_target_len = current_data.drops.high_rank.target.len() as u16;
        let high_broken_part_len = current_data.drops.high_rank.broken_part.len() as u16;
        let high_wound_destroy_len = current_data.drops.high_rank.wound_destroy.len() as u16;
        let high_carve_len = current_data.drops.high_rank.carve.len() as u16;

        let filtered_list = Vec::with_capacity(bundle.len());

        let mut monster_on_quest_list_state = MonsterOnQuestListState::default();
        monster_on_quest_list_state.list_len = quest_list_len;
        let mut habitat_page_state = ChangeableHabitatPageState::default();
        habitat_page_state.habitat_total_page = h_total_page;
        let mut monster_weakness_tab_state = MonsterWeaknessTabState::default();
        monster_weakness_tab_state.damage_data_len = damage_data_len;
        let mut monster_drops_tab_state = MonsterDropTabState::default();
        monster_drops_tab_state.low_target_len = low_target_len;
        monster_drops_tab_state.low_broken_part_len = low_broken_part_len;
        monster_drops_tab_state.low_wound_destroy_len = low_wound_destroy_len;
        monster_drops_tab_state.low_carve_len = low_carve_len;
        monster_drops_tab_state.high_target_len = high_target_len;
        monster_drops_tab_state.high_broken_part_len = high_broken_part_len;
        monster_drops_tab_state.high_wound_destroy_len = high_wound_destroy_len;
        monster_drops_tab_state.high_carve_len = high_carve_len;

        Some(
            MonsterListState {
                bundle,
                current_data,
                filtered_list,
                list_state: RowCursor::with_selected(Some(0)),
                monster_on_quest_list_state,
                habitat_page_state,
                monster_weakness_tab_state,
                monster_drops_tab_state,
                list_scrollbar_state: ScrollbarState::default(),
                desc_scrollbar_state: ScrollableParagraphState::default(),
                filter_query: String::new(),
                ascii_asset: String::new(),
            },
        )
    }

    /// The same browser with `path` as the directory of its icons.
    pub fn path(self, path: String) -> (state: Self)
        ensures
            state == (MonsterListState { ascii_asset: path, ..self }),
            self.wf() ==> state.wf(),
    {
        let mut state = self;
        state.ascii_asset = path;
        state
    }

    /// Shows the record of the selected row, and sets the cached lengths of
    /// the panels to those of that record.
    pub fn update_selected_monster_data(&mut self)
        ensures
            old(self).selects(old(self).list_state.selected, *final(self)),
            final(self).sized_for(*final(self).current_data),
            old(self).wf() ==> final(self).wf(),
    {
        let idx = match self.list_state.selected() {
            Some(i) => i,
            None => 0,
        };
        let current_monster = {
            let items = self.list_items();
            if idx < items.len() {
                share(&items[idx])
            } else {
                Rc::new(MonsterEntity::default())
            }
        };
        self.current_data = current_monster;

        self.monster_on_quest_list_state.list_len = self.current_data.quest_list.len() as u16;
        self.habitat_page_state.habitat_total_page = self.current_data.habitats.len() as u8;
        self.monster_weakness_tab_state.damage_data_len =
            self.current_data.weaknesses.dmg_data.len() as u16;

        self.monster_drops_tab_state.low_target_len =
            self.current_data.drops.low_rank.target.len() as u16;
        self.monster_drops_tab_state.low_broken_part_len =
            self.current_data.drops.low_rank.broken_part.len() as u16;
        self.monster_drops_tab_state.low_wound_destroy_len =
            self.current_data.drops.low_rank.wound_destroy.len() as u16;
        self.monster_drops_tab_state.low_carve_len =
            self.current_data.drops.low_rank.carve.len() as u16;

        self.monster_drops_tab_state.high_target_len =
            self.current_data.drops.high_rank.target.len() as u16;
        self.monster_drops_tab_state.high_broken_part_len =
            self.current_data.drops.high_rank.broken_part.len() as u16;
        self.monster_drops_tab_state.high_wound_destroy_len =
            self.current_data.drops.high_rank.wound_destroy.len() as u16;
        self.monster_drops_tab_state.high_carve_len =
            self.current_data.drops.high_rank.carve.len() as u16;
    }

    /// Selects the next record, the first one after the last. An empty list
    /// is left as it is.
    pub fn next(&mut self)
        ensures
            old(self).next_leads_to(*final(self)),
            old(self).visible().len() > 0 ==> final(self).sized_for(*final(self).current_data),
            old(self).wf() ==> final(self).wf(),
    {
        let len = self.list_items().len();
        if len == 0 {
            return ;
        }
        let idx = match self.list_state.selected() {
            Some(i) => {
                if i >= len - 1 {
                    0
                } else {
                    i.saturating_add(1)
                }
            },
            None => 0,
        };
        self.select(idx);
    }

    /// Selects the record before, the last one before the first. An empty
    /// list is left as it is.
    pub fn prev(&mut self)
        ensures
            old(self).prev_leads_to(*final(self)),
            old(self).visible().len() > 0 ==> final(self).sized_for(*final(self).current_data),
            old(self).wf() ==> final(self).wf(),
    {
        let len = self.list_items().len();
        if len == 0 {
            return ;
        }
        let idx = match self.list_state.selected() {
            Some(i) => {
                if i == 0 {
                    len - 1
                } else {
                    i.saturating_sub(1)
                }
            },
            None => 0,
        };
        self.select(idx);
    }

    /// Selects row `idx`, whether or not the list has such a row, and shows
    /// its record.
    pub fn select(&mut self, idx: usize)
        ensures
            old(self).selects(Some(idx), *final(self)),
            final(self).sized_for(*final(self).current_data),
            old(self).wf() ==> final(self).wf(),
    {
        self.list_state.select(Some(idx));
        self.update_selected_monster_data();
    }

    /// The quests of the shown record.
    pub fn get_quest_list(&self) -> (quests: &Vec<MonsterQuestData>)
        ensures
            *quests == self.current_data.quest_list,
    {
        &self.current_data.quest_list
    }

    /// The habitats of the shown record.
    pub fn get_habitat_data(&self) -> (habitats: &Vec<MonsterHabitatData>)
        ensures
            *habitats == self.current_data.habitats,
    {
        &self.current_data.habitats
    }

    /// The basic information of the shown record.
    pub fn get_basic_info_data(&self) -> (info: &MonsterBasicInfo)
        ensures
            *info == self.current_data.basic_info,
    {
        &self.current_data.basic_info
    }

    /// The description of the shown record.
    pub fn get_desc_data(&self) -> (desc: &MonsterDescText)
        ensures
            *desc == self.current_data.desc,
    {
        &self.current_data.desc
    }

    /// The name of the shown record.
    pub fn get_name_data(&self) -> (name: &MonsterName)
        ensures
            *name == self.current_data.name,
    {
        &self.current_data.name
    }

    /// The elements of the shown record.
    pub fn get_elements_data(&self) -> (elements: &Vec<MonsterElements>)
        ensures
            *elements == self.current_data.elements,
    {
        &self.current_data.elements
    }

    /// The directory of the icons and, in it, the file of the shown
    /// record's icon.
    pub fn get_asset_path(&self) -> (path: (&String, &String))
        ensures
            *path.0 == self.ascii_asset,
            *path.1 == self.current_data.icon_code,
    {
        (&self.ascii_asset, &self.current_data.icon_code)
    }

    /// The damage rows of the shown record.
    pub fn get_damage_data(&self) -> (rows: &Vec<DamageData>)
        ensures
            *rows == self.current_data.weaknesses.dmg_data,
    {
        &self.current_data.weaknesses.dmg_data
    }

    /// The ailment and item tables of the shown record.
    pub fn get_status_ailment_data(&self) -> (tables: &StatusAilmentItem)
        ensures
            *tables == self.current_data.weaknesses.ailment_data,
    {
        &self.current_data.weaknesses.ailment_data
    }

    /// The low rank materials of the shown record.
    pub fn get_low_rank_drop_data(&self) -> (drops: &MonsterMaterialsDrop)
        ensures
            *drops == self.current_data.drops.low_rank,
    {
        &self.current_data.drops.low_rank
    }

    /// The high rank materials of the shown record.
    pub fn get_high_rank_drop_data(&self) -> (drops: &MonsterMaterialsDrop)
        ensures
            *drops == self.current_data.drops.high_rank,
    {
        &self.current_data.drops.high_rank
    }

    /// Makes `filter` the filter of the list. Unless it is empty, the list
    /// then shows the records whose display name holds `filter` when case
    /// is ignored, in the order of the dataset; an empty filter shows the
    /// dataset. The first shown record is selected; where none is shown,
    /// none is selected.
    pub fn set_list_filter(&mut self, filter: String)
        ensures
            old(self).refilters(filter@, *final(self)),
            final(self).sized_for(*final(self).current_data),
            filter@.len() == 0 ==> final(self).visible() == old(self).bundle@,
            filter@.len() > 0 ==> final(self).visible() == filter_by_name(old(self).bundle@, filter@),
            final(self).list_state.selected == (if final(self).visible().len() > 0 {
                Some(0usize)
            } else {
                None
            }),
            old(self).bundle@.len() > 0 ==> final(self).wf(),
    {
        if !filter.as_str().is_empty() {
            self.filtered_list = filter_records(&self.bundle, filter.as_str());
        }
        self.filter_query = filter;
        if self.list_items().len() > 0 {
            self.list_state.select(Some(0));
        } else {
            self.list_state.select(None);
        }
        self.update_selected_monster_data();
    }

    /// The records that the list shows.
    pub fn list_items(&self) -> (items: &Vec<Rc<MonsterEntity>>)
        ensures
            items@ == self.visible(),
            *items == (if self.filter_query@.len() == 0 {
                self.bundle
            } else {
                self.filtered_list
            }),
    {
        if self.filter_query.as_str().is_empty() {
            &self.bundle
        } else {
            &self.filtered_list
        }
    }

    /// Puts every panel back at its first position. The selection and the
    /// shown record stay.
    pub fn reset(&mut self)
        ensures
            *final(self) == old(self).after_reset(),
            final(self).list_state == old(self).list_state,
            final(self).current_data == old(self).current_data,
            old(self).wf() ==> final(self).wf(),
    {
        self.desc_scrollbar_state.reset();
        self.habitat_page_state.reset();
        self.monster_on_quest_list_state.reset();
        self.monster_weakness_tab_state.reset();
        self.monster_drops_tab_state.reset();
    }

    /// No list holds more records than an index can count.
    pub proof fn lemma_visible_is_indexable(self)
        ensures
            self.visible().len() <= usize::MAX,
    {
        assert(self.bundle.len() == self.bundle@.len());
        assert(self.filtered_list.len() == self.filtered_list@.len());
    }

    /// Once a selection is made the cached lengths of every panel are those
    /// of the record that is shown.
    pub proof fn lemma_selecting_sizes_panels(self, selected: Option<usize>, after: Self)
        requires
            self.selects(selected, after),
        ensures
            after.sized_for(*after.current_data),
            after.list_state.selected == selected,
    {
    }

    /// In a consistent state the cached lengths of every panel are those of
    /// the record that is shown, and that record is the record of the
    /// selected row wherever the list has such a row.
    pub proof fn lemma_wf_shows_selected(self)
        requires
            self.wf(),
        ensures
            self.sized_for(*self.current_data),
            forall|row: usize|
                self.list_state.selected == Some(row) && row < self.visible().len()
                    ==> self.current_data == self.visible()[row as int],
    {
    }

    /// A reset puts every panel at its first position, and leaves the
    /// selection, the shown record, the filter and the cached lengths as
    /// they are.
    pub proof fn lemma_reset_rewinds_panels(self)
        ensures
            self.after_reset().desc_scrollbar_state.position == 0,
            self.after_reset().habitat_page_state.habitat_current_page == 0,
            self.after_reset().monster_on_quest_list_state.list_state.selected == Some(0usize),
            self.after_reset().monster_weakness_tab_state.table_state.selected == Some(0usize),
            self.after_reset().monster_weakness_tab_state.selected_weapon_elm_tab
                == MonsterWeaknessTab::WeaponDamage,
            self.after_reset().monster_weakness_tab_state.selected_status_item_tab
                == MonsterStatusAndItemWeaknessTab::Status,
            self.after_reset().monster_drops_tab_state.table_state.selected == Some(0usize),
            self.after_reset().monster_drops_tab_state.selected_rank_tab
                == MonsterDropRankTab::LowRank,
            self.after_reset().monster_drops_tab_state.selected_source_tab
                == MaterialSourceTab::Target,
            self.after_reset().list_state == self.list_state,
            self.after_reset().current_data == self.current_data,
            self.after_reset().visible() == self.visible(),
            self.after_reset().filter_query == self.filter_query,
            forall|record: MonsterEntity|
                self.sized_for(record) ==> #[trigger] self.after_reset().sized_for(record),
    {
    }

    /// With an empty filter the list shows the dataset, record for record
    /// and in its order, and the first record is selected.
    pub proof fn lemma_empty_filter_shows_dataset(self, after: Self)
        requires
            self.refilters(Seq::<char>::empty(), after),
        ensures
            after.visible() == self.bundle@,
            after.bundle == self.bundle,
            self.bundle@.len() > 0 ==> after.list_state.selected == Some(0usize)
                && after.current_data == self.bundle@[0],
    {
    }

    /// With a filter that is not empty the list shows the records of the
    /// dataset whose display name matches it, in the order of the dataset.
    pub proof fn lemma_filter_shows_matches(self, filter: Seq<char>, after: Self)
        requires
            filter.len() > 0,
            self.refilters(filter, after),
        ensures
            after.visible() == filter_by_name(self.bundle@, filter),
            after.bundle == self.bundle,
            after.visible().len() > 0 ==> after.list_state.selected == Some(0usize)
                && after.current_data == after.visible()[0],
            after.visible().len() == 0 ==> after.list_state.selected is None
                && after.current_data.is_default(),
    {
    }

    /// For a record whose lists are short enough to count, the cached
    /// lengths are the lengths of its lists: the quests, the habitats, the
    /// damage rows, and the materials of each rank and source.
    pub proof fn lemma_cached_lengths_exact(self, record: MonsterEntity)
        requires
            self.sized_for(record),
            record.countable(),
        ensures
            self.monster_on_quest_list_state.list_len == record.quest_list@.len(),
            self.habitat_page_state.habitat_total_page == record.habitats@.len(),
            self.monster_weakness_tab_state.damage_data_len == record.weaknesses.dmg_data@.len(),
            self.monster_drops_tab_state.low_target_len == record.drops.low_rank.target@.len(),
            self.monster_drops_tab_state.low_broken_part_len
                == record.drops.low_rank.broken_part@.len(),
            self.monster_drops_tab_state.low_wound_destroy_len
                == record.drops.low_rank.wound_destroy@.len(),
            self.monster_drops_tab_state.low_carve_len == record.drops.low_rank.carve@.len(),
            self.monster_drops_tab_state.high_target_len == record.drops.high_rank.target@.len(),
            self.monster_drops_tab_state.high_broken_part_len
                == record.drops.high_rank.broken_part@.len(),
            self.monster_drops_tab_state.high_wound_destroy_len
                == record.drops.high_rank.wound_destroy@.len(),
            self.monster_drops_tab_state.high_carve_len == record.drops.high_rank.carve@.len(),
    {
    }

    /// Where no record is listed, a step to the next record or to the one
    /// before changes nothing.
    pub proof fn lemma_empty_no_change(self, after: Self)
        requires
            self.visible().len() == 0,
            self.next_leads_to(after) || self.prev_leads_to(after),
        ensures
            after == self,
    {
    }

    /// On a record of the list, a step forward leads to the record of the
    /// row after, counted round the list, and a step back to the record of
    /// the row before.
    pub proof fn lemma_step_lands_on_record(self, row: usize, after: Self)
        requires
            self.on_record(row),
        ensures
            self.next_leads_to(after) ==> after.on_record(
                row_after(Some(row), self.visible().len() as int),
            ) && after.visible() == self.visible(),
            self.prev_leads_to(after) ==> after.on_record(
                row_before(Some(row), self.visible().len() as int),
            ) && after.visible() == self.visible(),
            self.next_leads_to(after) ==> after == self.showing(
                after.list_state.selected,
                after.current_data,
            ),
            self.prev_leads_to(after) ==> after == self.showing(
                after.list_state.selected,
                after.current_data,
            ),
    {
        self.lemma_visible_is_indexable();
        lemma_steps_invert(row, self.visible().len() as int);
    }

    /// On a record of the list, `prev` undoes `next` and `next` undoes
    /// `prev`.
    pub proof fn lemma_prev_inverts_next(self, row: usize, between: Self, after: Self)
        requires
            self.on_record(row),
            (self.next_leads_to(between) && between.prev_leads_to(after)) || (self.prev_leads_to(
                between,
            ) && between.next_leads_to(after)),
        ensures
            after == self,
    {
        self.lemma_visible_is_indexable();
        lemma_steps_invert(row, self.visible().len() as int);
        self.lemma_step_lands_on_record(row, between);
        if self.next_leads_to(between) && between.prev_leads_to(after) {
            let mid = row_after(Some(row), self.visible().len() as int);
            between.lemma_step_lands_on_record(mid, after);
        } else {
            let mid = row_before(Some(row), self.visible().len() as int);
            between.lemma_step_lands_on_record(mid, after);
        }
    }

    proof fn lemma_chain_follows_rows(states: Seq<Self>, row: usize, steps: nat)
        requires
            states.len() > steps,
            states[0].on_record(row),
            Self::next_chain(states),
        ensures
            states[steps as int].on_record(
                row_after_steps(row, states[0].visible().len() as int, steps),
            ),
            states[steps as int].visible() == states[0].visible(),
            states[steps as int] == states[0].showing(
                states[steps as int].list_state.selected,
                states[steps as int].current_data,
            ),
        decreases steps,
    {
        if steps > 0 {
            Self::lemma_chain_follows_rows(states, row, (steps - 1) as nat);
            let before = states[steps - 1];
            let at = row_after_steps(row, states[0].visible().len() as int, (steps - 1) as nat);
            assert(before.next_leads_to(states[steps - 1 + 1]));
            before.lemma_step_lands_on_record(at, states[steps as int]);
            let after = states[steps as int];
            assert(after == states[0].showing(after.list_state.selected, after.current_data));
        }
    }

    /// From a record of a list of `L` records, `L` steps to the next record
    /// lead back to the state they started from: `states` holds the states
    /// passed, the first one included.
    pub proof fn lemma_next_full_turn(states: Seq<Self>, row: usize)
        requires
            states.len() == states[0].visible().len() + 1,
            states[0].on_record(row),
            Self::next_chain(states),
        ensures
            states.last() == states[0],
    {
        let len = states[0].visible().len();
        states[0].lemma_visible_is_indexable();
        Self::lemma_chain_follows_rows(states, row, len);
        lemma_full_turn(row, len as int);
    }
}

} // verus!
