//! Styled runs of text, and the small text tools that the panels share.

use crate::monster::color::Color;
use vstd::prelude::*;
use vstd::string::StringExecFns;

verus! {

/// A run of text and the way to draw it.
#[derive(Clone, Debug, PartialEq, Eq)]
pub struct Span {
    pub text: String,
    pub fg: Option<Color>,
    pub bg: Option<Color>,
    pub bold: bool,
    pub italic: bool,
}

/// What a span holds, with its text as a sequence of characters.
pub struct SpanView {
    pub text: Seq<char>,
    pub fg: Option<Color>,
    pub bg: Option<Color>,
    pub bold: bool,
    pub italic: bool,
}

impl View for Span {
    type V = SpanView;

    open spec fn view(&self) -> SpanView {
        SpanView {
            text: self.text@,
            fg: self.fg,
            bg: self.bg,
            bold: self.bold,
            italic: self.italic,
        }
    }
}

impl DeepView for Span {
    type V = SpanView;

    open spec fn deep_view(&self) -> SpanView {
        self@
    }
}

impl SpanView {
    /// `text` in the default style.
    pub open spec fn raw(text: Seq<char>) -> SpanView {
        SpanView { text, fg: None, bg: None, bold: false, italic: false }
    }

    /// `text` in the colour `fg`.
    pub open spec fn colored(text: Seq<char>, fg: Color) -> SpanView {
        SpanView { text, fg: Some(fg), bg: None, bold: false, italic: false }
    }

    /// `text` in bold.
    pub open spec fn bold(text: Seq<char>) -> SpanView {
        SpanView { text, fg: None, bg: None, bold: true, italic: false }
    }
}

impl Span {
    /// `text` in the default style.
    pub fn raw(text: String) -> (span: Self)
        ensures
            span@ == SpanView::raw(text@),
    {
        Span { text, fg: None, bg: None, bold: false, italic: false }
    }

    /// `text` in the colour `fg`.
    pub fn colored(text: String, fg: Color) -> (span: Self)
        ensures
            span@ == SpanView::colored(text@, fg),
    {
        Span { text, fg: Some(fg), bg: None, bold: false, italic: false }
    }

    /// `text` in bold.
    pub fn bold(text: String) -> (span: Self)
        ensures
            span@ == SpanView::bold(text@),
    {
        Span { text, fg: None, bg: None, bold: true, italic: false }
    }
}

/// Adds `span` at the end of `line`.
pub fn push_span(line: &mut Vec<Span>, span: Span)
    ensures
        final(line).deep_view() == old(line).deep_view().push(span@),
{
    let ghost before = line.deep_view();
    line.push(span);
    assert(line.deep_view() =~= before.push(span@));
}

/// A line without spans.
pub fn empty_line() -> (line: Vec<Span>)
    ensures
        line.deep_view() == Seq::<SpanView>::empty(),
{
    let line: Vec<Span> = Vec::new();
    assert(line.deep_view() =~= Seq::<SpanView>::empty());
    line
}

/// The text that holds `left` and then `right`.
pub fn glue(left: &str, right: &str) -> (text: String)
    ensures
        text@ == left@ + right@,
{
    let mut text = left.to_string();
    text.append(right);
    text
}

/// The character of the decimal digit `d`.
pub open spec fn digit(d: nat) -> char {
    if d == 0 {
        '0'
    } else if d == 1 {
        '1'
    } else if d == 2 {
        '2'
    } else if d == 3 {
        '3'
    } else if d == 4 {
        '4'
    } else if d == 5 {
        '5'
    } else if d == 6 {
        '6'
    } else if d == 7 {
        '7'
    } else if d == 8 {
        '8'
    } else {
        '9'
    }
}

/// The decimal numeral of `n`, without leading zeros.
pub open spec fn decimal(n: nat) -> Seq<char>
    decreases n,
{
    if n < 10 {
        seq![digit(n)]
    } else {
        decimal(n / 10).push(digit(n % 10))
    }
}

fn digit_text(d: u8) -> (text: &'static str)
    requires
        d < 10,
    ensures
        text@ == seq![digit(d as nat)],
{
    proof {
        reveal_strlit("0");
        reveal_strlit("1");
        reveal_strlit("2");
        reveal_strlit("3");
        reveal_strlit("4");
        reveal_strlit("5");
        reveal_strlit("6");
        reveal_strlit("7");
        reveal_strlit("8");
        reveal_strlit("9");
    }
    let text = match d {
        0 => "0",
        1 => "1",
        2 => "2",
        3 => "3",
        4 => "4",
        5 => "5",
        6 => "6",
        7 => "7",
        8 => "8",
        _ => "9",
    };
    assert(text@ =~= seq![digit(d as nat)]);
    text
}

/// The decimal numeral of `n`.
pub fn number_text(n: u8) -> (text: String)
    ensures
        text@ == decimal(n as nat),
{
    let mut text = String::new();
    if n >= 100 {
        text.append(digit_text(n / 100));
    }
    if n >= 10 {
        text.append(digit_text((n / 10) % 10));
    }
    text.append(digit_text(n % 10));
    proof {
        reveal_with_fuel(decimal, 3);
        assert(text@ =~= decimal(n as nat));
    }
    text
}

/// The texts `lines` in one text, with `separator` between each two.
pub open spec fn joined(lines: Seq<Seq<char>>, separator: Seq<char>) -> Seq<char>
    decreases lines.len(),
{
    if lines.len() == 0 {
        Seq::empty()
    } else if lines.len() == 1 {
        lines.last()
    } else {
        joined(lines.drop_last(), separator) + separator + lines.last()
    }
}

/// The texts of `lines` in one text, with `separator` between each two.
pub fn join(lines: &Vec<String>, separator: &str) -> (text: String)
    ensures
        text@ == joined(lines.deep_view(), separator@),
{
    let mut text = String::new();
    let mut i: usize = 0;
    let ghost all = lines.deep_view();
    proof {
        assert(all.take(0) =~= Seq::<Seq<char>>::empty());
    }
    while i < lines.len()
        invariant
            i <= lines.len(),
            all == lines.deep_view(),
            all.len() == lines.len(),
            text@ == joined(all.take(i as int), separator@),
        decreases lines.len() - i,
    {
        if i > 0 {
            text.append(separator);
        }
        text.append(lines[i].as_str());
        proof {
            assert(all.take(i + 1).drop_last() =~= all.take(i as int));
            assert(all.take(i + 1).last() == all[i as int]);
            assert(all[i as int] == lines[i as int]@);
            if i == 0 {
                assert(text@ =~= all[0]);
            }
        }
        i += 1;
    }
    proof {
        assert(all.take(all.len() as int) =~= all);
    }
    text
}

/// The colour of the label of the tab that is shown.
pub open spec fn selected_tab_color() -> Color {
    Color::Rgb(54, 127, 222)
}

/// The label of a tab: blue where the tab is shown, white elsewhere.
pub open spec fn tab_label(label: Seq<char>, shown: bool) -> SpanView {
    SpanView::colored(
        label,
        if shown {
            selected_tab_color()
        } else {
            Color::White
        },
    )
}

/// Adds the label of a tab at the end of `line`.
pub fn push_tab_label(line: &mut Vec<Span>, label: &str, shown: bool)
    ensures
        final(line).deep_view() == old(line).deep_view().push(tab_label(label@, shown)),
{
    let color = if shown {
        Color::Rgb(54, 127, 222)
    } else {
        Color::White
    };
    push_span(line, Span::colored(label.to_string(), color));
}

/// Adds `text` in the default style at the end of `line`.
pub fn push_raw(line: &mut Vec<Span>, text: &str)
    ensures
        final(line).deep_view() == old(line).deep_view().push(SpanView::raw(text@)),
{
    push_span(line, Span::raw(text.to_string()));
}

} // verus!
