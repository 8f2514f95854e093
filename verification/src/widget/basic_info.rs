//! The basic information panel: the type of a monster, its hazard grades
//! and the status effects it inflicts.

use crate::monster::color::Color;
use crate::monster::effect::MonsterStatusEffects;
use crate::monster::record::MonsterBasicInfo;
use crate::widget::span::{empty_line, push_span, Span, SpanView};
use vstd::prelude::*;

verus! {

/// The spans that list the first `upto` of `effects`: each effect but
/// `NoEffect` by its label in its colour, followed by a space unless it is
/// the last of all effects.
pub open spec fn effect_spans(effects: Seq<MonsterStatusEffects>, upto: int) -> Seq<SpanView>
    decreases upto,
{
    if upto <= 0 {
        Seq::empty()
    } else {
        let effect = effects[upto - 1];
        let before = effect_spans(effects, upto - 1);
        if effect == MonsterStatusEffects::NoEffect {
            before
        } else if upto < effects.len() {
            before.push(SpanView::colored(effect.label_text(), effect.color_of())).push(
                SpanView::raw(" "@),
            )
        } else {
            before.push(SpanView::colored(effect.label_text(), effect.color_of()))
        }
    }
}

/// The share of the width, in percent, of the five columns of the panel:
/// the type, the three hazard grades, and the status effects, which get
/// more room once there are four of them.
pub open spec fn column_shares(effects: nat) -> (u16, u16, u16, u16, u16) {
    if effects >= 4 {
        (20, 10, 10, 10, 50)
    } else {
        (20, 16, 16, 16, 30)
    }
}

/// The basic information panel of one record.
pub struct BasicInfo {
    pub basic_info: MonsterBasicInfo,
}

impl BasicInfo {
    /// The panel of the basic information `bi`.
    pub fn new(bi: MonsterBasicInfo) -> (panel: Self)
        ensures
            panel.basic_info == bi,
    {
        BasicInfo { basic_info: bi }
    }

    /// The grade of the roar, in dark grey.
    pub fn roar_span(&self) -> (span: Span)
        ensures
            span@ == SpanView::colored(self.basic_info.roar.label_text(), Color::DarkGray),
    {
        Span::colored(self.basic_info.roar.label(), Color::DarkGray)
    }

    /// The grade of the wind pressure, in dark grey.
    pub fn wind_pressure_span(&self) -> (span: Span)
        ensures
            span@ == SpanView::colored(
                self.basic_info.wind_pressure.label_text(),
                Color::DarkGray,
            ),
    {
        Span::colored(self.basic_info.wind_pressure.label(), Color::DarkGray)
    }

    /// The grade of the tremor, in dark grey.
    pub fn tremor_span(&self) -> (span: Span)
        ensures
            span@ == SpanView::colored(self.basic_info.tremor.label_text(), Color::DarkGray),
    {
        Span::colored(self.basic_info.tremor.label(), Color::DarkGray)
    }

    /// The status effects, each in its colour, with spaces between them.
    pub fn status_effect_spans(&self) -> (line: Vec<Span>)
        ensures
            line.deep_view() == effect_spans(
                self.basic_info.status_effect@,
                self.basic_info.status_effect@.len() as int,
            ),
    {
        let mut line = empty_line();
        let effects = &self.basic_info.status_effect;
        let mut i: usize = 0;
        while i < effects.len()
            invariant
                i <= effects.len(),
                line.deep_view() == effect_spans(effects@, i as int),
            decreases effects.len() - i,
        {
            let effect = effects[i];
            if effect != MonsterStatusEffects::NoEffect {
                push_span(&mut line, Span::colored(effect.label(), effect.color()));
                if i + 1 < effects.len() {
                    push_span(&mut line, Span::raw(" ".to_string()));
                }
            }
            i += 1;
        }
        line
    }

    /// The share of the width, in percent, of each of the five columns.
    pub fn column_percentages(&self) -> (shares: (u16, u16, u16, u16, u16))
        ensures
            shares == column_shares(self.basic_info.status_effect@.len()),
    {
        let (status_effect_perc, roar_wind_tremor_perc): (u16, u16) =
            if self.basic_info.status_effect.len() >= 4 {
            (50, 30)
        } else {
            (30, 50)
        };
        (
            20,
            roar_wind_tremor_perc / 3,
            roar_wind_tremor_perc / 3,
            roar_wind_tremor_perc / 3,
            status_effect_perc,
        )
    }
}

} // verus!
