//! The quest panel: one line for each quest in which the monster appears.

use crate::monster::color::Color;
use crate::monster::record::MonsterQuestData;
use crate::widget::span::{glue, decimal, empty_line, number_text, push_span, Span, SpanView};
use vstd::prelude::*;

verus! {

/// The colour of the name of the highlighted quest.
pub open spec fn highlight() -> Color {
    Color::Rgb(54, 127, 222)
}

/// The spans of the line of `quest` in row `row`: its level with the level
/// mark in square brackets, its category in square brackets, a space, and
/// its name, which is blue where `row` is the selected row and white
/// elsewhere.
pub open spec fn quest_line(quest: MonsterQuestData, row: int, selected: Option<usize>) -> Seq<
    SpanView,
> {
    seq![
        SpanView::raw("[ "@ + decimal(quest.level as nat) + "\u{ef}\u{20ac}\u{2026} ]"@),
        SpanView::raw("[ "@ + quest.quest_type.label_text() + " ]"@),
        SpanView::raw(" "@),
        SpanView::colored(
            quest.name@,
            if selected == Some(row as usize) {
                highlight()
            } else {
                Color::White
            },
        ),
    ]
}

/// The quest panel of one record.
pub struct QuestMonsterList(pub Vec<MonsterQuestData>);

impl QuestMonsterList {
    /// The spans of the line of the quest in row `row`.
    pub fn line(&self, row: usize, selected: Option<usize>) -> (line: Vec<Span>)
        requires
            row < self.0@.len(),
        ensures
            line.deep_view() == quest_line(self.0@[row as int], row as int, selected),
    {
        let quest = &self.0[row];
        let mut line = empty_line();
        let level = number_text(quest.level);
        let level_head = glue("[ ", level.as_str());
        let level_text = glue(level_head.as_str(), "\u{ef}\u{20ac}\u{2026} ]");
        let kind = quest.quest_type.label();
        let kind_head = glue("[ ", kind.as_str());
        let kind_text = glue(kind_head.as_str(), " ]");
        let is_selected = match selected {
            Some(i) => i == row,
            None => false,
        };
        let color = if is_selected {
            Color::Rgb(54, 127, 222)
        } else {
            Color::White
        };
        push_span(&mut line, Span::raw(level_text));
        push_span(&mut line, Span::raw(kind_text));
        push_span(&mut line, Span::raw(" ".to_string()));
        push_span(&mut line, Span::colored(quest.name.clone(), color));
        assert(line.deep_view() =~= quest_line(self.0@[row as int], row as int, selected));
        line
    }

    /// The lines of all quests, in order.
    pub fn items(&self, selected: Option<usize>) -> (lines: Vec<Vec<Span>>)
        ensures
            lines@.len() == self.0@.len(),
            forall|row: int|
                0 <= row < self.0@.len() ==> (#[trigger] lines@[row]).deep_view() == quest_line(
                    self.0@[row],
                    row,
                    selected,
                ),
    {
        let mut lines: Vec<Vec<Span>> = Vec::new();
        let mut row: usize = 0;
        while row < self.0.len()
            invariant
                row <= self.0.len(),
                lines@.len() == row,
                forall|r: int|
                    0 <= r < row ==> (#[trigger] lines@[r]).deep_view() == quest_line(
                        self.0@[r],
                        r,
                        selected,
                    ),
            decreases self.0.len() - row,
        {
            let line = self.line(row, selected);
            lines.push(line);
            row += 1;
        }
        lines
    }
}

} // verus!
