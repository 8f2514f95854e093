//! The drop panel: the materials that a monster drops, by rank and source.

use crate::monster::record::{DropWithPart, MaterialDrop, MaterialDropWithPart, MonsterMaterialsDrop};
use crate::state::drops::{MaterialSourceTab, MonsterDropRankTab, MonsterDropTabState};
use crate::widget::span::{
    glue, decimal, empty_line, join, joined, number_text, push_raw, push_tab_label, tab_label,
    Span, SpanView,
};
use crate::widget::{get_lines, wrapped};
use vstd::prelude::*;
use vstd::string::StringExecFns;

verus! {

/// The columns that the borders and the marks of a row take from the width
/// of the table.
pub const ROW_MARGIN: usize = 30;

/// A text wrapped to `width` columns, one line under the other.
pub open spec fn wrapped_text(text: Seq<char>, width: nat) -> Seq<char> {
    joined(wrapped(text, width), "\n"@)
}

/// The chance `percentage` as a text: the number and a percent sign.
pub open spec fn percent_text(percentage: u8) -> Seq<char> {
    decimal(percentage as nat) + "%"@
}

/// The chances of `carves` in one text: for each, the chance, the body
/// part in brackets, and a space.
pub open spec fn carve_text(carves: Seq<DropWithPart>) -> Seq<char>
    decreases carves.len(),
{
    if carves.len() == 0 {
        Seq::empty()
    } else {
        carve_text(carves.drop_last()) + percent_text(carves.last().percentage) + "("@
            + carves.last().part@ + ") "@
    }
}

/// The two cells of the row of `data` in a table `width` columns wide: the
/// material, wrapped, and its chance.
pub open spec fn drop_cells(data: MaterialDrop, width: nat) -> (Seq<char>, Seq<char>) {
    (wrapped_text(data.material@, (width - ROW_MARGIN) as nat), percent_text(data.percentage))
}

/// The two cells of the row of `data` in a table `width` columns wide: the
/// material and its chances by body part, both wrapped.
pub open spec fn drop_with_part_cells(data: MaterialDropWithPart, width: nat) -> (
    Seq<char>,
    Seq<char>,
) {
    (
        wrapped_text(data.material@, (width - ROW_MARGIN) as nat),
        wrapped_text(carve_text(data.carve@), (width - ROW_MARGIN) as nat),
    )
}

/// The title of the rank tabs: the names of the two ranks, the shown one
/// in blue.
pub open spec fn rank_title(tab: MonsterDropRankTab) -> Seq<SpanView> {
    seq![
        SpanView::raw(" [ "@),
        tab_label("Low"@, tab == MonsterDropRankTab::LowRank),
        SpanView::raw(" | "@),
        tab_label("High"@, tab == MonsterDropRankTab::HighRank),
        SpanView::raw(" ] "@),
    ]
}

/// The title of the source tabs: the names of the four sources, the shown
/// one in blue.
pub open spec fn source_title(tab: MaterialSourceTab) -> Seq<SpanView> {
    seq![
        SpanView::raw(" [ "@),
        tab_label("Target"@, tab == MaterialSourceTab::Target),
        SpanView::raw(" | "@),
        tab_label("Broken P."@, tab == MaterialSourceTab::BrokenPart),
        SpanView::raw(" | "@),
        tab_label("Wound D."@, tab == MaterialSourceTab::WoundDestroy),
        SpanView::raw(" | "@),
        tab_label("Carves"@, tab == MaterialSourceTab::Carve),
        SpanView::raw(" ] "@),
    ]
}

/// The two cells of one row of the table.
pub struct DropRow {
    pub material: String,
    pub chance: String,
}

fn wrap_text(text: &str, width: usize) -> (lines: String)
    ensures
        lines@ == wrapped_text(text@, width as nat),
{
    let lines = get_lines(text, width);
    join(&lines, "\n")
}

fn percent(percentage: u8) -> (text: String)
    ensures
        text@ == percent_text(percentage),
{
    let numeral = number_text(percentage);
    glue(numeral.as_str(), "%")
}

fn carves_to_text(carves: &Vec<DropWithPart>) -> (text: String)
    ensures
        text@ == carve_text(carves@),
{
    let mut text = String::new();
    let mut i: usize = 0;
    proof {
        assert(carves@.take(0) =~= Seq::<DropWithPart>::empty());
    }
    while i < carves.len()
        invariant
            i <= carves.len(),
            text@ == carve_text(carves@.take(i as int)),
        decreases carves.len() - i,
    {
        let chance = percent(carves[i].percentage);
        text.append(chance.as_str());
        text.append("(");
        text.append(carves[i].part.as_str());
        text.append(") ");
        proof {
            assert(carves@.take(i + 1).drop_last() =~= carves@.take(i as int));
            assert(carves@.take(i + 1).last() == carves@[i as int]);
        }
        i += 1;
    }
    proof {
        assert(carves@.take(carves.len() as int) =~= carves@);
    }
    text
}

/// The rows of the materials `data` in a table `width` columns wide.
pub fn generate_drop_rows(data: &Vec<MaterialDrop>, width: usize) -> (rows: Vec<DropRow>)
    requires
        width >= ROW_MARGIN,
    ensures
        rows@.len() == data@.len(),
        forall|i: int|
            0 <= i < data@.len() ==> ((#[trigger] rows@[i]).material@, rows@[i].chance@)
                == drop_cells(data@[i], width as nat),
{
    let mut rows: Vec<DropRow> = Vec::new();
    let mut i: usize = 0;
    while i < data.len()
        invariant
            i <= data.len(),
            width >= ROW_MARGIN,
            rows@.len() == i,
            forall|k: int|
                0 <= k < i ==> ((#[trigger] rows@[k]).material@, rows@[k].chance@) == drop_cells(
                    data@[k],
                    width as nat,
                ),
        decreases data.len() - i,
    {
        let material = wrap_text(data[i].material.as_str(), width - ROW_MARGIN);
        let chance = percent(data[i].percentage);
        rows.push(DropRow { material, chance });
        i += 1;
    }
    rows
}

/// The rows of the materials `data`, which drop from body parts, in a
/// table `width` columns wide.
pub fn generate_drop_with_part_rows(data: &Vec<MaterialDropWithPart>, width: usize) -> (rows: Vec<
    DropRow,
>)
    requires
        width >= ROW_MARGIN,
    ensures
        rows@.len() == data@.len(),
        forall|i: int|
            0 <= i < data@.len() ==> ((#[trigger] rows@[i]).material@, rows@[i].chance@)
                == drop_with_part_cells(data@[i], width as nat),
{
    let mut rows: Vec<DropRow> = Vec::new();
    let mut i: usize = 0;
    while i < data.len()
        invariant
            i <= data.len(),
            width >= ROW_MARGIN,
            rows@.len() == i,
            forall|k: int|
                0 <= k < i ==> ((#[trigger] rows@[k]).material@, rows@[k].chance@)
                    == drop_with_part_cells(data@[k], width as nat),
        decreases data.len() - i,
    {
        let material = wrap_text(data[i].material.as_str(), width - ROW_MARGIN);
        let concatenated_carve = carves_to_text(&data[i].carve);
        let chance = wrap_text(concatenated_carve.as_str(), width - ROW_MARGIN);
        rows.push(DropRow { material, chance });
        i += 1;
    }
    rows
}

/// The drop panel of one record: its low rank and its high rank materials.
pub struct MonsterDropTable(pub MonsterMaterialsDrop, pub MonsterMaterialsDrop);

impl MonsterDropTable {
    /// The materials of the rank that `tab` shows.
    pub open spec fn rank(self, tab: MonsterDropRankTab) -> MonsterMaterialsDrop {
        match tab {
            MonsterDropRankTab::LowRank => self.0,
            MonsterDropRankTab::HighRank => self.1,
        }
    }

    /// The title of the rank tabs.
    pub fn rank_title(&self, tab: MonsterDropRankTab) -> (line: Vec<Span>)
        ensures
            line.deep_view() == rank_title(tab),
    {
        let mut line = empty_line();
        push_raw(&mut line, " [ ");
        push_tab_label(&mut line, "Low", tab == MonsterDropRankTab::LowRank);
        push_raw(&mut line, " | ");
        push_tab_label(&mut line, "High", tab == MonsterDropRankTab::HighRank);
        push_raw(&mut line, " ] ");
        assert(line.deep_view() =~= rank_title(tab));
        line
    }

    /// The title of the source tabs.
    pub fn source_title(&self, tab: MaterialSourceTab) -> (line: Vec<Span>)
        ensures
            line.deep_view() == source_title(tab),
    {
        let mut line = empty_line();
        push_raw(&mut line, " [ ");
        push_tab_label(&mut line, "Target", tab == MaterialSourceTab::Target);
        push_raw(&mut line, " | ");
        push_tab_label(&mut line, "Broken P.", tab == MaterialSourceTab::BrokenPart);
        push_raw(&mut line, " | ");
        push_tab_label(&mut line, "Wound D.", tab == MaterialSourceTab::WoundDestroy);
        push_raw(&mut line, " | ");
        push_tab_label(&mut line, "Carves", tab == MaterialSourceTab::Carve);
        push_raw(&mut line, " ] ");
        assert(line.deep_view() =~= source_title(tab));
        line
    }

    /// The rows of the table that the two tabs of `state` show, in a table
    /// `width` columns wide.
    pub fn rows(&self, state: &MonsterDropTabState, width: usize) -> (rows: Vec<DropRow>)
        requires
            width >= ROW_MARGIN,
        ensures
            ({
                let drops = self.rank(state.selected_rank_tab);
                match state.selected_source_tab {
                    MaterialSourceTab::Target => rows@.len() == drops.target@.len() && forall|
                        i: int,
                    |
                        0 <= i < rows@.len() ==> ((#[trigger] rows@[i]).material@, rows@[i].chance@)
                            == drop_cells(drops.target@[i], width as nat),
                    MaterialSourceTab::BrokenPart => rows@.len() == drops.broken_part@.len()
                        && forall|i: int|
                        0 <= i < rows@.len() ==> ((#[trigger] rows@[i]).material@, rows@[i].chance@)
                            == drop_with_part_cells(drops.broken_part@[i], width as nat),
                    MaterialSourceTab::WoundDestroy => rows@.len() == drops.wound_destroy@.len()
                        && forall|i: int|
                        0 <= i < rows@.len() ==> ((#[trigger] rows@[i]).material@, rows@[i].chance@)
                            == drop_cells(drops.wound_destroy@[i], width as nat),
                    MaterialSourceTab::Carve => rows@.len() == drops.carve@.len() && forall|i: int|
                        0 <= i < rows@.len() ==> ((#[trigger] rows@[i]).material@, rows@[i].chance@)
                            == drop_with_part_cells(drops.carve@[i], width as nat),
                }
            }),
    {
        let drops = match state.selected_rank_tab {
            MonsterDropRankTab::LowRank => &self.0,
            MonsterDropRankTab::HighRank => &self.1,
        };
        match state.selected_source_tab {
            MaterialSourceTab::Target => generate_drop_rows(&drops.target, width),
            MaterialSourceTab::BrokenPart => generate_drop_with_part_rows(&drops.broken_part, width),
            MaterialSourceTab::WoundDestroy => generate_drop_rows(&drops.wound_destroy, width),
            MaterialSourceTab::Carve => generate_drop_with_part_rows(&drops.carve, width),
        }
    }
}

} // verus!
