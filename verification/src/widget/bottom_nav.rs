//! The line at the bottom of the screen: the name of the screen and the
//! keys that work on it.

use crate::monster::color::Color;
use crate::state::CurrentScreen;
use crate::widget::span::{empty_line, push_span, Span, SpanView};
use vstd::prelude::*;

verus! {

/// A key in bold white, a space, and what the key does in grey.
pub open spec fn hint(key: Seq<char>, label: Seq<char>) -> Seq<SpanView> {
    seq![
        SpanView { text: key, fg: Some(Color::White), bg: None, bold: true, italic: false },
        SpanView::raw(" "@),
        SpanView::colored(label, Color::Gray),
    ]
}

/// The name of `screen`, as the line shows it.
pub open spec fn screen_label(screen: CurrentScreen) -> SpanView {
    match screen {
        CurrentScreen::Main => SpanView {
            text: " Main "@,
            fg: Some(Color::White),
            bg: Some(Color::DarkGray),
            bold: false,
            italic: false,
        },
        CurrentScreen::Monster => SpanView {
            text: " Monster "@,
            fg: Some(Color::White),
            bg: Some(Color::DarkGray),
            bold: false,
            italic: false,
        },
        _ => SpanView::colored(" Other "@, Color::Green),
    }
}

/// The hints that every screen shows, each followed by a space.
pub open spec fn common_hints() -> Seq<SpanView> {
    hint("(q)"@, "quit"@).push(SpanView::raw(" "@)) + hint("(Esc)"@, "Back to Main Menu"@).push(
        SpanView::raw(" "@),
    )
}

/// The hints of `screen` alone, with a space between each two.
pub open spec fn screen_hints(screen: CurrentScreen) -> Seq<SpanView> {
    match screen {
        CurrentScreen::Main => hint("(j/k/down/up)"@, "Choose Menu"@),
        CurrentScreen::Monster => hint("(j/k/down/up)"@, "Select Monster"@).push(
            SpanView::raw(" "@),
        ) + hint("(4)"@, "Toggle Weapon-Element"@).push(SpanView::raw(" "@)) + hint(
            "($)"@,
            "Toggle Ailment-Item"@,
        ).push(SpanView::raw(" "@)) + hint("(5)"@, "Toggle Material Drop"@).push(
            SpanView::raw(" "@),
        ) + hint("(%)"@, "Toggle Drop Rank"@),
        _ => Seq::empty(),
    }
}

/// The whole line for `screen`: its name, two spaces, the common hints and
/// its own.
pub open spec fn nav_line(screen: CurrentScreen) -> Seq<SpanView> {
    seq![screen_label(screen), SpanView::raw("  "@)] + common_hints() + screen_hints(screen)
}

fn push_hint(line: &mut Vec<Span>, key: &str, label: &str)
    ensures
        final(line).deep_view() == old(line).deep_view() + hint(key@, label@),
{
    let ghost before = line.deep_view();
    push_span(
        line,
        Span { text: key.to_string(), fg: Some(Color::White), bg: None, bold: true, italic: false },
    );
    push_span(line, Span::raw(" ".to_string()));
    push_span(line, Span::colored(label.to_string(), Color::Gray));
    assert(line.deep_view() =~= before + hint(key@, label@));
}

fn push_space(line: &mut Vec<Span>)
    ensures
        final(line).deep_view() == old(line).deep_view().push(SpanView::raw(" "@)),
{
    push_span(line, Span::raw(" ".to_string()));
}

/// The line at the bottom of the screen.
pub struct BottomNavigation;

impl BottomNavigation {
    /// The spans of the line for `screen`.
    pub fn line(&self, screen: CurrentScreen) -> (line: Vec<Span>)
        ensures
            line.deep_view() == nav_line(screen),
    {
        let mut line = empty_line();
        let label = match screen {
            CurrentScreen::Main => Span {
                text: " Main ".to_string(),
                fg: Some(Color::White),
                bg: Some(Color::DarkGray),
                bold: false,
                italic: false,
            },
            CurrentScreen::Monster => Span {
                text: " Monster ".to_string(),
                fg: Some(Color::White),
                bg: Some(Color::DarkGray),
                bold: false,
                italic: false,
            },
            _ => Span::colored(" Other ".to_string(), Color::Green),
        };
        push_span(&mut line, label);
        push_span(&mut line, Span::raw("  ".to_string()));
        push_hint(&mut line, "(q)", "quit");
        push_space(&mut line);
        push_hint(&mut line, "(Esc)", "Back to Main Menu");
        push_space(&mut line);
        assert(line.deep_view() =~= seq![screen_label(screen), SpanView::raw("  "@)]
            + common_hints());
        let ghost head = line.deep_view();
        match screen {
            CurrentScreen::Main => {
                push_hint(&mut line, "(j/k/down/up)", "Choose Menu");
            },
            CurrentScreen::Monster => {
                push_hint(&mut line, "(j/k/down/up)", "Select Monster");
                push_space(&mut line);
                push_hint(&mut line, "(4)", "Toggle Weapon-Element");
                push_space(&mut line);
                push_hint(&mut line, "($)", "Toggle Ailment-Item");
                push_space(&mut line);
                push_hint(&mut line, "(5)", "Toggle Material Drop");
                push_space(&mut line);
                push_hint(&mut line, "(%)", "Toggle Drop Rank");
            },
            _ => {},
        }
        assert(line.deep_view() =~= head + screen_hints(screen));
        line
    }
}

} // verus!
