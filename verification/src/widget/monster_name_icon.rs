//! The title of the profile: the name of the monster, its alias and the
//! badge of its first element.

use crate::monster::color::Color;
use crate::monster::effect::MonsterElements;
use crate::monster::record::MonsterName;
use crate::widget::span::{glue, empty_line, push_span, Span, SpanView};
use vstd::prelude::*;

verus! {

/// The text of the badge of `element`: its glyph and its label, with a
/// space before, between and after.
pub open spec fn badge_text(element: MonsterElements) -> Seq<char> {
    " "@ + element.icon_text() + " "@ + element.label_text() + " "@
}

/// The spans of the title: the name and the alias in bold italics with a
/// white bar between them, and, where the monster has a first element
/// other than `NoElement`, a space and the badge of that element.
pub open spec fn title_spans(name: MonsterName, elements: Seq<MonsterElements>) -> Seq<SpanView> {
    let names = seq![
        SpanView { text: name.name@, fg: None, bg: None, bold: true, italic: true },
        SpanView::colored(" | "@, Color::White),
        SpanView { text: name.aka@, fg: None, bg: None, bold: true, italic: true },
    ];
    if elements.len() > 0 && elements[0] != MonsterElements::NoElement {
        names.push(SpanView::raw(" "@)).push(
            SpanView {
                text: badge_text(elements[0]),
                fg: Some(Color::White),
                bg: Some(elements[0].color_of()),
                bold: false,
                italic: false,
            },
        )
    } else {
        names
    }
}

/// The title and the icon of one record. The icon is read from
/// `asset_path` by whoever draws it.
pub struct NameIcon {
    pub name: MonsterName,
    pub monster_el: Vec<MonsterElements>,
    pub asset_path: String,
}

impl NameIcon {
    /// The title of the monster `name` with the elements `monster_el`, and
    /// its icon in the file `asset_path`.
    pub fn new(name: MonsterName, monster_el: Vec<MonsterElements>, asset_path: String) -> (panel:
        Self)
        ensures
            panel.name == name,
            panel.monster_el == monster_el,
            panel.asset_path == asset_path,
    {
        NameIcon { name, monster_el, asset_path }
    }

    /// The spans of the title.
    pub fn title(&self) -> (line: Vec<Span>)
        ensures
            line.deep_view() == title_spans(self.name, self.monster_el@),
    {
        let mut line = empty_line();
        push_span(
            &mut line,
            Span { text: self.name.name.clone(), fg: None, bg: None, bold: true, italic: true },
        );
        push_span(&mut line, Span::colored(" | ".to_string(), Color::White));
        push_span(
            &mut line,
            Span { text: self.name.aka.clone(), fg: None, bg: None, bold: true, italic: true },
        );
        if self.monster_el.len() > 0 {
            let first = self.monster_el[0];
            if first != MonsterElements::NoElement {
                let icon = first.icon();
                let label = first.label();
                let head = glue(" ", icon.as_str());
                let spaced = glue(head.as_str(), " ");
                let named = glue(spaced.as_str(), label.as_str());
                let text = glue(named.as_str(), " ");
                push_span(&mut line, Span::raw(" ".to_string()));
                push_span(
                    &mut line,
                    Span {
                        text,
                        fg: Some(Color::White),
                        bg: Some(first.color()),
                        bold: false,
                        italic: false,
                    },
                );
            }
        }
        assert(line.deep_view() =~= title_spans(self.name, self.monster_el@));
        line
    }
}

} // verus!
