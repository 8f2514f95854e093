//! Key events and their routing to state changes.

use crate::state::input::edited;
use crate::state::monster_list::MonsterListState;
use crate::state::{AppState, CurrentScreen, InputMode, MainMenuOption, TuiState};
use vstd::prelude::*;

verus! {

/// The key of a key event. Keys that no rule here distinguishes are `Other`.
#[derive(Clone, Copy, Debug, PartialEq, Eq, Structural)]
pub enum KeyCode {
    Backspace,
    Enter,
    Left,
    Right,
    Up,
    Down,
    Home,
    End,
    Tab,
    Delete,
    Esc,
    Char(char),
    Other,
}

/// The modifier keys held during a key event, one bit each.
#[derive(Clone, Copy, Debug, PartialEq, Eq, Structural)]
pub struct KeyModifiers {
    pub bits: u8,
}

/// The bit of the shift key.
pub const SHIFT: u8 = 0b0000_0001;

/// The bit of the control key.
pub const CONTROL: u8 = 0b0000_0010;

/// The bit of the alt key.
pub const ALT: u8 = 0b0000_0100;

/// The bit of the super key.
pub const SUPER: u8 = 0b0000_1000;

/// The bit of the hyper key.
pub const HYPER: u8 = 0b0001_0000;

/// The bit of the meta key.
pub const META: u8 = 0b0010_0000;

impl KeyModifiers {
    /// No modifier key.
    pub fn none() -> (held: Self)
        ensures
            held.bits == 0,
    {
        KeyModifiers { bits: 0 }
    }

    /// The shift key alone.
    pub fn shift() -> (held: Self)
        ensures
            held.bits == SHIFT,
    {
        KeyModifiers { bits: SHIFT }
    }

    /// The control key alone.
    pub fn control() -> (held: Self)
        ensures
            held.bits == CONTROL,
    {
        KeyModifiers { bits: CONTROL }
    }

    /// The alt key alone.
    pub fn alt() -> (held: Self)
        ensures
            held.bits == ALT,
    {
        KeyModifiers { bits: ALT }
    }

    /// Whether the control key is held and no other modifier key is.
    pub fn is_control(&self) -> (alone: bool)
        ensures
            alone == (self.bits == CONTROL),
    {
        self.bits == CONTROL
    }
}

/// Whether a key went down, is held, or came up.
#[derive(Clone, Copy, Debug, PartialEq, Eq, Structural)]
pub enum KeyEventKind {
    Press,
    Repeat,
    Release,
}

/// One key event.
#[derive(Clone, Copy, Debug, PartialEq, Eq, Structural)]
pub struct KeyEvent {
    pub code: KeyCode,
    pub modifiers: KeyModifiers,
    pub kind: KeyEventKind,
}

impl KeyEvent {
    /// A press of `code` with `modifiers`.
    pub fn new(code: KeyCode, modifiers: KeyModifiers) -> (event: Self)
        ensures
            event == (KeyEvent { code, modifiers, kind: KeyEventKind::Press }),
    {
        KeyEvent { code, modifiers, kind: KeyEventKind::Press }
    }
}

/// What the event loop does after a key event.
#[derive(Clone, Copy, Debug, PartialEq, Eq, Structural)]
pub enum KeyHandleResult {
    Continue,
    Exit,
}

impl KeyHandleResult {
    /// Whether the event loop is to end.
    pub fn exit(&self) -> (leave: bool)
        ensures
            leave == (*self == KeyHandleResult::Exit),
    {
        *self == KeyHandleResult::Exit
    }
}

impl Default for KeyHandleResult {
    fn default() -> (result: Self)
        ensures
            result == KeyHandleResult::Continue,
    {
        KeyHandleResult::Continue
    }
}

/// `after` is the browser `before` with every panel at its first position
/// and the record after the selected one shown, or the record before it
/// where `forward` is false. With no record listed only the panels change.
pub open spec fn steps(before: MonsterListState, forward: bool, after: MonsterListState) -> bool {
    if forward {
        before.after_reset().next_leads_to(after)
    } else {
        before.after_reset().prev_leads_to(after)
    }
}

/// What a key does on the main menu: `q` leaves, down and `j` go to the
/// entry below, up and `k` to the entry above, enter opens the screen of
/// the entry, and rewinds the panels of the browser before it opens that.
/// With the control key held, and no other modifier key, no key does
/// anything.
pub open spec fn routed_on_main(
    before: AppState,
    event: KeyEvent,
    after: AppState,
    result: KeyHandleResult,
) -> bool {
    if event.modifiers.bits == CONTROL {
        after == before && result == KeyHandleResult::Continue
    } else {
        match event.code {
            KeyCode::Char('q') => after == before && result == KeyHandleResult::Exit,
            KeyCode::Down | KeyCode::Char('j') => {
                &&& after == (AppState { main_menu: before.main_menu.successor(), ..before })
                &&& result == KeyHandleResult::Continue
            },
            KeyCode::Up | KeyCode::Char('k') => {
                &&& after == (AppState { main_menu: before.main_menu.predecessor(), ..before })
                &&& result == KeyHandleResult::Continue
            },
            KeyCode::Enter => {
                &&& after == (AppState {
                    current_screen: before.main_menu.screen(),
                    monster_list: if before.main_menu == MainMenuOption::Monster {
                        before.monster_list.after_reset()
                    } else {
                        before.monster_list
                    },
                    ..before
                })
                &&& result == KeyHandleResult::Continue
            },
            _ => after == before && result == KeyHandleResult::Continue,
        }
    }
}

/// What a key does in the monster browser: `q` leaves; down and `j`, up and
/// `k` rewind the panels and select the next or the previous record; `4`,
/// `$`, `5` and `%` toggle the four tabs; `/` enters the filter box; escape
/// resets the application and goes back to the main menu.
pub open spec fn routed_on_monster(
    before: AppState,
    event: KeyEvent,
    after: AppState,
    result: KeyHandleResult,
) -> bool {
    match event.code {
        KeyCode::Char('q') => after == before && result == KeyHandleResult::Exit,
        KeyCode::Down | KeyCode::Char('j') => {
            &&& after == (AppState { monster_list: after.monster_list, ..before })
            &&& steps(before.monster_list, true, after.monster_list)
            &&& result == KeyHandleResult::Continue
        },
        KeyCode::Up | KeyCode::Char('k') => {
            &&& after == (AppState { monster_list: after.monster_list, ..before })
            &&& steps(before.monster_list, false, after.monster_list)
            &&& result == KeyHandleResult::Continue
        },
        KeyCode::Char('4') => {
            &&& after == (AppState {
                monster_list: MonsterListState {
                    monster_weakness_tab_state:
                        before.monster_list.monster_weakness_tab_state.after_toggle_weapon_elm(),
                    ..before.monster_list
                },
                ..before
            })
            &&& result == KeyHandleResult::Continue
        },
        KeyCode::Char('$') => {
            &&& after == (AppState {
                monster_list: MonsterListState {
                    monster_weakness_tab_state:
                        before.monster_list.monster_weakness_tab_state.after_toggle_ailment_item(),
                    ..before.monster_list
                },
                ..before
            })
            &&& result == KeyHandleResult::Continue
        },
        KeyCode::Char('5') => {
            &&& after == (AppState {
                monster_list: MonsterListState {
                    monster_drops_tab_state:
                        before.monster_list.monster_drops_tab_state.after_toggle_source(),
                    ..before.monster_list
                },
                ..before
            })
            &&& result == KeyHandleResult::Continue
        },
        KeyCode::Char('%') => {
            &&& after == (AppState {
                monster_list: MonsterListState {
                    monster_drops_tab_state:
                        before.monster_list.monster_drops_tab_state.after_toggle_rank(),
                    ..before.monster_list
                },
                ..before
            })
            &&& result == KeyHandleResult::Continue
        },
        KeyCode::Char('/') => {
            &&& after == (AppState {
                tui_state: TuiState { input_mode: InputMode::Editing, ..before.tui_state },
                ..before
            })
            &&& result == KeyHandleResult::Continue
        },
        KeyCode::Esc => {
            &&& before.resets(AppState { current_screen: before.current_screen, ..after })
            &&& after.current_screen == CurrentScreen::Main
            &&& result == KeyHandleResult::Continue
        },
        _ => after == before && result == KeyHandleResult::Continue,
    }
}

/// What a key does in normal mode, by the screen that is shown. On the
/// reserved screens no key does anything.
pub open spec fn routed_on_normal(
    before: AppState,
    event: KeyEvent,
    after: AppState,
    result: KeyHandleResult,
) -> bool {
    match before.current_screen {
        CurrentScreen::Main => routed_on_main(before, event, after, result),
        CurrentScreen::Monster => routed_on_monster(before, event, after, result),
        _ => after == before && result == KeyHandleResult::Continue,
    }
}

/// What a key does in the filter box: escape resets the application, enter
/// goes back to normal mode and keeps the filter, and any other key goes to
/// the buffer, whose text then filters the list.
pub open spec fn routed_on_edit(before: AppState, event: KeyEvent, after: AppState) -> bool {
    match event.code {
        KeyCode::Esc => before.resets(after),
        KeyCode::Enter => after == (AppState {
            tui_state: TuiState { input_mode: InputMode::Normal, ..before.tui_state },
            ..before
        }),
        _ => {
            let typed = edited(
                before.key_handle.input.value@,
                before.key_handle.input.cursor,
                event.code,
                event.modifiers.bits,
            );
            before.edits(typed.0, typed.1, after)
        },
    }
}

/// What a key event does to the application. A release does nothing; a
/// press or a repeat is routed by the input mode, and in normal mode by the
/// screen.
pub open spec fn routed(
    before: AppState,
    event: KeyEvent,
    after: AppState,
    result: KeyHandleResult,
) -> bool {
    if event.kind == KeyEventKind::Release {
        after == before && result == KeyHandleResult::Continue
    } else {
        match before.tui_state.input_mode {
            InputMode::Normal => routed_on_normal(before, event, after, result),
            InputMode::Editing => routed_on_edit(before, event, after) && result
                == KeyHandleResult::Continue,
        }
    }
}

/// Applies one key event to the application, and tells the event loop
/// whether to go on.
pub fn handle_key(event: KeyEvent, app: &mut AppState) -> (result: KeyHandleResult)
    ensures
        routed(*old(app), event, *final(app), result),
        old(app).wf() ==> final(app).wf(),
{
    if event.kind == KeyEventKind::Release {
        return KeyHandleResult::Continue;
    }
    match app.tui_state.input_mode {
        InputMode::Normal => on_normal(event, app),
        InputMode::Editing => on_edit(event, app),
    }
}

/// Applies a key press in the filter box.
pub fn on_edit(event: KeyEvent, app: &mut AppState) -> (result: KeyHandleResult)
    ensures
        routed_on_edit(*old(app), event, *final(app)),
        result == KeyHandleResult::Continue,
        old(app).wf() ==> final(app).wf(),
{
    match event.code {
        KeyCode::Esc => {
            app.reset();
            app.monster_list.reset();
        },
        KeyCode::Enter => { app.tui_state.input_mode = InputMode::Normal },
        _ => {
            let (value, cursor) = app.key_handle.input.edited_by(event.code, event.modifiers);
            app.apply_filter_edit(value, cursor);
        },
    }
    KeyHandleResult::Continue
}

/// Applies a key press in normal mode.
pub fn on_normal(event: KeyEvent, app: &mut AppState) -> (result: KeyHandleResult)
    ensures
        routed_on_normal(*old(app), event, *final(app), result),
        old(app).wf() ==> final(app).wf(),
{
    let code = event.code;
    match app.current_screen {
        CurrentScreen::Main => {
            if event.modifiers.is_control() {
                return KeyHandleResult::Continue;
            }
            match code {
                KeyCode::Char('q') => return KeyHandleResult::Exit,
                KeyCode::Down | KeyCode::Char('j') => { app.main_menu = app.main_menu.next() },
                KeyCode::Up | KeyCode::Char('k') => { app.main_menu = app.main_menu.prev() },
                KeyCode::Enter => { app.current_screen = select_screen(app) },
                _ => {},
            }
        },
        CurrentScreen::Monster => match code {
            KeyCode::Char('q') => return KeyHandleResult::Exit,
            KeyCode::Down | KeyCode::Char('j') => {
                app.monster_list.reset();
                app.monster_list.next();
            },
            KeyCode::Up | KeyCode::Char('k') => {
                app.monster_list.reset();
                app.monster_list.prev();
            },
            KeyCode::Char('4') => {
                app.monster_list.monster_weakness_tab_state.toggle_selected_weapon_elm_tab();
            },
            KeyCode::Char('$') => {
                app.monster_list.monster_weakness_tab_state.toggle_selected_ailment_item_tab();
            },
            KeyCode::Char('5') => {
                app.monster_list.monster_drops_tab_state.toggle_selected_source_tab();
            },
            KeyCode::Char('%') => {
                app.monster_list.monster_drops_tab_state.toggle_selected_rank_tab();
            },
            KeyCode::Char('/') => { app.tui_state.input_mode = InputMode::Editing },
            KeyCode::Esc => {
                app.reset();
                app.current_screen = CurrentScreen::Main;
            },
            _ => {},
        },
        _ => {},
    }
    KeyHandleResult::Continue
}

/// The screen that the highlighted menu entry opens. The panels of the
/// monster browser are rewound before it opens.
pub fn select_screen(app: &mut AppState) -> (screen: CurrentScreen)
    ensures
        screen == old(app).main_menu.screen(),
        old(app).wf() ==> final(app).wf(),
        *final(app) == (AppState {
            monster_list: if old(app).main_menu == MainMenuOption::Monster {
                old(app).monster_list.after_reset()
            } else {
                old(app).monster_list
            },
            ..*old(app)
        }),
{
    match app.main_menu {
        MainMenuOption::Monster => {
            app.monster_list.reset();
            CurrentScreen::Monster
        },
        MainMenuOption::Quest => CurrentScreen::Quest,
        MainMenuOption::Weapon => CurrentScreen::Weapon,
        MainMenuOption::Armor => CurrentScreen::Armor,
    }
}

} // verus!
