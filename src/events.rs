use vstd::prelude::*;
use crate::menu::{digit_index, MenuItem};
use crate::ui_state::{
    after_move, after_page, after_selection, after_set_focus, after_toggle_focus,
    after_toggle_menu, selection_result, App, AppModel, FocusArea,
};
use crate::types::ScrollPosition;

verus! {

/// A key that the dashboard reacts to.
#[derive(Clone, Copy, Debug, PartialEq, Eq, Structural)]
pub enum Key {
    Char(char),
    Tab,
    Left,
    Right,
    Up,
    Down,
    PageUp,
    PageDown,
    Enter,
    Home,
    End,
    Other,
}

/// What the event loop does after a key.
#[derive(Clone, Copy, Debug, PartialEq, Eq, Structural)]
pub enum KeyAction {
    Quit,
    Continue,
    /// Start the test of this menu entry.
    Start(MenuItem),
}

/// The navigation state after `key`, and what the loop should do.
pub open spec fn after_key(m: AppModel, key: Key) -> (AppModel, KeyAction) {
    match key {
        Key::Char(c) => if c == 'q' || c == 'Q' {
            (m, KeyAction::Quit)
        } else if c == 'm' || c == 'M' {
            (after_toggle_menu(m), KeyAction::Continue)
        } else if '0' <= c && c <= '9' && m.show_menu && m.focus == FocusArea::Menu {
            match digit_index(c) {
                Some(i) => {
                    let chosen = after_set_focus(AppModel { selected: i, ..m }, FocusArea::Content);
                    (after_selection(chosen), KeyAction::Continue)
                },
                None => (m, KeyAction::Continue),
            }
        } else {
            (m, KeyAction::Continue)
        },
        Key::Tab => (after_toggle_focus(m), KeyAction::Continue),
        Key::Left => if m.show_menu {
            (after_set_focus(m, FocusArea::Menu), KeyAction::Continue)
        } else {
            (m, KeyAction::Continue)
        },
        Key::Right => if m.show_menu {
            (after_set_focus(m, FocusArea::Content), KeyAction::Continue)
        } else {
            (m, KeyAction::Continue)
        },
        Key::Up => if m.focus == FocusArea::Menu && m.show_menu {
            (AppModel { selected: crate::ui_state::menu_previous(m.selected), ..m }, KeyAction::Continue)
        } else {
            (after_move(m, false), KeyAction::Continue)
        },
        Key::Down => if m.focus == FocusArea::Menu && m.show_menu {
            (AppModel { selected: crate::ui_state::menu_next(m.selected), ..m }, KeyAction::Continue)
        } else {
            (after_move(m, true), KeyAction::Continue)
        },
        Key::PageUp => (after_page(m, false), KeyAction::Continue),
        Key::PageDown => (after_page(m, true), KeyAction::Continue),
        Key::Enter => (
            after_selection(m),
            match selection_result(m) {
                Some(item) => KeyAction::Start(item),
                None => KeyAction::Continue,
            },
        ),
        Key::Home => (
            AppModel { scroll: ScrollPosition { current: 0, ..m.scroll }, ..m },
            KeyAction::Continue,
        ),
        Key::End => (
            AppModel { scroll: ScrollPosition { current: m.scroll.max_scroll() as u16, ..m.scroll }, ..m },
            KeyAction::Continue,
        ),
        Key::Other => (m, KeyAction::Continue),
    }
}

/// Applies `key` to the navigation state (see `after_key`).
pub fn handle_key_press(app: &mut App, key: Key) -> (r: KeyAction)
    requires
        old(app).wf(),
    ensures
        final(app).wf(),
        (final(app)@, r) == after_key(old(app)@, key),
{
    match key {
        Key::Char(c) => {
            if c == 'q' || c == 'Q' {
                KeyAction::Quit
            } else if c == 'm' || c == 'M' {
                app.toggle_menu();
                KeyAction::Continue
            } else if '0' <= c && c <= '9' && app.show_menu && app.focus_area == FocusArea::Menu {
                if app.menu.select_by_number(c) {
                    app.set_focus(FocusArea::Content);
                    let started = app.handle_menu_selection();
                    assert(started is None);
                }
                KeyAction::Continue
            } else {
                KeyAction::Continue
            }
        },
        Key::Tab => {
            app.toggle_focus();
            KeyAction::Continue
        },
        Key::Left => {
            if app.show_menu {
                app.set_focus(FocusArea::Menu);
            }
            KeyAction::Continue
        },
        Key::Right => {
            if app.show_menu {
                app.set_focus(FocusArea::Content);
            }
            KeyAction::Continue
        },
        Key::Up => {
            if app.focus_area == FocusArea::Menu && app.show_menu {
                app.menu.previous();
            } else {
                app.move_up();
            }
            KeyAction::Continue
        },
        Key::Down => {
            if app.focus_area == FocusArea::Menu && app.show_menu {
                app.menu.next();
            } else {
                app.move_down();
            }
            KeyAction::Continue
        },
        Key::PageUp => {
            app.page_up();
            KeyAction::Continue
        },
        Key::PageDown => {
            app.page_down();
            KeyAction::Continue
        },
        Key::Enter => match app.handle_menu_selection() {
            Some(item) => KeyAction::Start(item),
            None => KeyAction::Continue,
        },
        Key::Home => {
            app.reset_scroll();
            KeyAction::Continue
        },
        Key::End => {
            app.scroll_to_end();
            KeyAction::Continue
        },
        Key::Other => KeyAction::Continue,
    }
}

/// One key press from the terminal: Ctrl+D quits at once, any other key goes to
/// `handle_key_press`.
pub fn handle_events(app: &mut App, key: Key, control: bool) -> (r: KeyAction)
    requires
        old(app).wf(),
    ensures
        final(app).wf(),
        (control && (key == Key::Char('d') || key == Key::Char('D'))) ==> (r == KeyAction::Quit
            && final(app)@ == old(app)@),
        !(control && (key == Key::Char('d') || key == Key::Char('D'))) ==> (final(app)@, r)
            == after_key(old(app)@, key),
{
    if control && (key == Key::Char('d') || key == Key::Char('D')) {
        return KeyAction::Quit;
    }
    handle_key_press(app, key)
}

/// How long the event loop waits for a key, in milliseconds: shorter while a test
/// page is shown, so that its progress redraws smoothly.
pub fn poll_interval_ms(item: MenuItem) -> (r: u64)
    ensures
        r == match item {
            MenuItem::DiskTest | MenuItem::CpuTest | MenuItem::NetworkSpeedTest => 50u64,
            _ => 100u64,
        },
{
    match item {
        MenuItem::DiskTest | MenuItem::CpuTest | MenuItem::NetworkSpeedTest => 50,
        _ => 100,
    }
}

} // verus!
