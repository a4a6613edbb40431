use vstd::prelude::*;
use crate::content::{get_content as page_content, page_of};
use crate::menu::{all_items, Menu, MenuItem};
use crate::types::ScrollPosition;

verus! {

/// Which pane of the dashboard receives keyboard input.
#[derive(Clone, Copy, Debug, PartialEq, Eq, Structural)]
pub enum FocusArea {
    Menu,
    Content,
}

/// The dashboard's navigation state: menu, focus, scrolling and the cached text of
/// the page shown.
pub struct App {
    pub menu: Menu,
    pub show_menu: bool,
    pub focus_area: FocusArea,
    pub scroll_position: ScrollPosition,
    pub needs_refresh: bool,
    pub selection_mode: bool,
    pub content_cache: Option<(MenuItem, String)>,
}

/// An `App` as a mathematical value.
pub struct AppModel {
    /// Index of the selected menu entry.
    pub selected: int,
    pub show_menu: bool,
    pub focus: FocusArea,
    pub scroll: ScrollPosition,
    pub needs_refresh: bool,
    pub selection_mode: bool,
    pub cache: Option<(MenuItem, Seq<char>)>,
}

impl View for App {
    type V = AppModel;

    open spec fn view(&self) -> AppModel {
        AppModel {
            selected: self.menu@,
            show_menu: self.show_menu,
            focus: self.focus_area,
            scroll: self.scroll_position,
            needs_refresh: self.needs_refresh,
            selection_mode: self.selection_mode,
            cache: match self.content_cache {
                Some((item, text)) => Some((item, text@)),
                None => None,
            },
        }
    }
}

pub open spec fn menu_next(i: int) -> int {
    if i < all_items().len() - 1 {
        i + 1
    } else {
        i
    }
}

pub open spec fn menu_previous(i: int) -> int {
    if i > 0 {
        i - 1
    } else {
        i
    }
}

/// `s` scrolled down by `lines` (see `ScrollPosition::scroll_down`).
pub open spec fn scrolled_down(s: ScrollPosition, lines: int) -> ScrollPosition {
    if s.max > s.viewport_height {
        ScrollPosition {
            current: if s.current + lines < s.max_scroll() {
                (s.current + lines) as u16
            } else {
                s.max_scroll() as u16
            },
            ..s
        }
    } else {
        s
    }
}

/// `s` scrolled up by `lines` (see `ScrollPosition::scroll_up`).
pub open spec fn scrolled_up(s: ScrollPosition, lines: int) -> ScrollPosition {
    ScrollPosition {
        current: if s.current >= lines {
            (s.current - lines) as u16
        } else {
            0
        },
        ..s
    }
}

/// The number of lines that a page key moves: the viewport less two lines of overlap.
pub open spec fn page_size(s: ScrollPosition) -> int {
    if s.viewport_height >= 2 {
        s.viewport_height - 2
    } else {
        0
    }
}

pub open spec fn after_toggle_menu(m: AppModel) -> AppModel {
    AppModel {
        show_menu: !m.show_menu,
        focus: if !m.show_menu {
            FocusArea::Menu
        } else {
            FocusArea::Content
        },
        ..m
    }
}

pub open spec fn after_toggle_focus(m: AppModel) -> AppModel {
    if m.show_menu {
        AppModel {
            focus: if m.focus == FocusArea::Menu {
                FocusArea::Content
            } else {
                FocusArea::Menu
            },
            ..m
        }
    } else {
        m
    }
}

pub open spec fn after_set_focus(m: AppModel, area: FocusArea) -> AppModel {
    if m.show_menu || area == FocusArea::Content {
        AppModel { focus: area, ..m }
    } else {
        m
    }
}

/// Up or down (`down`) one step: in the menu, another entry, back at the top of its
/// page, with the cached page dropped; in the content, one line of scrolling.
pub open spec fn after_move(m: AppModel, down: bool) -> AppModel {
    if m.focus == FocusArea::Menu && m.show_menu {
        AppModel {
            selected: if down {
                menu_next(m.selected)
            } else {
                menu_previous(m.selected)
            },
            scroll: ScrollPosition { current: 0, ..m.scroll },
            cache: None,
            ..m
        }
    } else if m.focus == FocusArea::Content {
        AppModel {
            scroll: if down {
                scrolled_down(m.scroll, 1)
            } else {
                scrolled_up(m.scroll, 1)
            },
            ..m
        }
    } else {
        m
    }
}

/// The test that choosing `item` starts, if it is a test.
pub open spec fn test_of(item: MenuItem) -> Option<MenuItem> {
    match item {
        MenuItem::CpuTest | MenuItem::DiskTest | MenuItem::NetworkSpeedTest => Some(item),
        _ => None,
    }
}

pub open spec fn selection_result(m: AppModel) -> Option<MenuItem> {
    if m.focus == FocusArea::Menu && m.show_menu {
        test_of(all_items()[m.selected])
    } else {
        None
    }
}

pub open spec fn after_selection(m: AppModel) -> AppModel {
    if m.focus == FocusArea::Menu && m.show_menu {
        after_set_focus(m, FocusArea::Content)
    } else {
        m
    }
}

pub open spec fn after_page(m: AppModel, down: bool) -> AppModel {
    if m.focus == FocusArea::Content {
        AppModel {
            scroll: if down {
                scrolled_down(m.scroll, page_size(m.scroll))
            } else {
                scrolled_up(m.scroll, page_size(m.scroll))
            },
            ..m
        }
    } else {
        m
    }
}

impl App {
    pub open spec fn wf(&self) -> bool {
        self.menu.wf()
    }

    /// The menu shown and focused, its first entry selected, nothing scrolled or cached.
    pub fn new() -> (r: Self)
        ensures
            r.wf(),
            r@ == (AppModel {
                selected: 0,
                show_menu: true,
                focus: FocusArea::Menu,
                scroll: ScrollPosition { current: 0, max: 0, viewport_height: 0 },
                needs_refresh: false,
                selection_mode: false,
                cache: None,
            }),
    {
        App {
            menu: Menu::new(),
            show_menu: true,
            focus_area: FocusArea::Menu,
            scroll_position: ScrollPosition::new(),
            needs_refresh: false,
            selection_mode: false,
            content_cache: None,
        }
    }

    /// Shows or hides the menu; the focus follows: to the menu when it appears, to
    /// the content when it goes.
    pub fn toggle_menu(&mut self)
        requires
            old(self).wf(),
        ensures
            final(self).wf(),
            final(self)@ == after_toggle_menu(old(self)@),
    {
        self.show_menu = !self.show_menu;
        if self.show_menu {
            self.focus_area = FocusArea::Menu;
        } else {
            self.focus_area = FocusArea::Content;
        }
    }

    /// Moves the focus to the other pane; with the menu hidden it stays on the content.
    pub fn toggle_focus(&mut self)
        requires
            old(self).wf(),
        ensures
            final(self).wf(),
            final(self)@ == after_toggle_focus(old(self)@),
    {
        if self.show_menu {
            self.focus_area = match self.focus_area {
                FocusArea::Menu => FocusArea::Content,
                FocusArea::Content => FocusArea::Menu,
            };
        }
    }

    /// Focuses `area`, unless that is the hidden menu.
    pub fn set_focus(&mut self, area: FocusArea)
        requires
            old(self).wf(),
        ensures
            final(self).wf(),
            final(self)@ == after_set_focus(old(self)@, area),
    {
        if self.show_menu || area == FocusArea::Content {
            self.focus_area = area;
        }
    }

    pub fn move_up(&mut self)
        requires
            old(self).wf(),
        ensures
            final(self).wf(),
            final(self)@ == after_move(old(self)@, false),
    {
        if self.focus_area == FocusArea::Menu && self.show_menu {
            self.menu.previous();
            self.reset_scroll();
            self.clear_cache();
        } else if self.focus_area == FocusArea::Content {
            self.scroll_up(1);
        }
    }

    pub fn move_down(&mut self)
        requires
            old(self).wf(),
        ensures
            final(self).wf(),
            final(self)@ == after_move(old(self)@, true),
    {
        if self.focus_area == FocusArea::Menu && self.show_menu {
            self.menu.next();
            self.reset_scroll();
            self.clear_cache();
        } else if self.focus_area == FocusArea::Content {
            self.scroll_down(1);
        }
    }

    /// Chooses the selected entry (the Enter key in the menu): the focus moves to the
    /// content, and the test to start is returned when the entry is a test.
    pub fn handle_menu_selection(&mut self) -> (r: Option<MenuItem>)
        requires
            old(self).wf(),
        ensures
            final(self).wf(),
            final(self)@ == after_selection(old(self)@),
            r == selection_result(old(self)@),
    {
        if self.focus_area == FocusArea::Menu && self.show_menu {
            let item = self.menu.selected_item();
            let r = match item {
                MenuItem::CpuTest | MenuItem::DiskTest | MenuItem::NetworkSpeedTest => Some(item),
                _ => None,
            };
            self.set_focus(FocusArea::Content);
            r
        } else {
            None
        }
    }

    pub fn scroll_up(&mut self, lines: u16)
        requires
            old(self).wf(),
        ensures
            final(self).wf(),
            final(self)@ == (AppModel { scroll: scrolled_up(old(self)@.scroll, lines as int), ..old(self)@ }),
    {
        self.scroll_position.scroll_up(lines);
    }

    pub fn scroll_down(&mut self, lines: u16)
        requires
            old(self).wf(),
        ensures
            final(self).wf(),
            final(self)@ == (AppModel { scroll: scrolled_down(old(self)@.scroll, lines as int), ..old(self)@ }),
    {
        self.scroll_position.scroll_down(lines);
    }

    /// Scrolls up a page, when the content has the focus.
    pub fn page_up(&mut self)
        requires
            old(self).wf(),
        ensures
            final(self).wf(),
            final(self)@ == after_page(old(self)@, false),
    {
        if self.focus_area == FocusArea::Content {
            let page = self.scroll_position.viewport_height.saturating_sub(2);
            self.scroll_up(page);
        }
    }

    /// Scrolls down a page, when the content has the focus.
    pub fn page_down(&mut self)
        requires
            old(self).wf(),
        ensures
            final(self).wf(),
            final(self)@ == after_page(old(self)@, true),
    {
        if self.focus_area == FocusArea::Content {
            let page = self.scroll_position.viewport_height.saturating_sub(2);
            self.scroll_down(page);
        }
    }

    pub fn reset_scroll(&mut self)
        requires
            old(self).wf(),
        ensures
            final(self).wf(),
            final(self)@ == (AppModel {
                scroll: ScrollPosition { current: 0, ..old(self)@.scroll },
                ..old(self)@
            }),
    {
        self.scroll_position.reset();
    }

    /// Scrolls to the end: the last line at the bottom of the viewport.
    pub fn scroll_to_end(&mut self)
        requires
            old(self).wf(),
        ensures
            final(self).wf(),
            final(self)@ == (AppModel {
                scroll: ScrollPosition {
                    current: old(self)@.scroll.max_scroll() as u16,
                    ..old(self)@.scroll
                },
                ..old(self)@
            }),
    {
        self.scroll_position.current = self.scroll_position.max.saturating_sub(
            self.scroll_position.viewport_height,
        );
    }

    /// Records the height of the content and of the viewport that shows it.
    pub fn update_content_height(&mut self, height: u16, viewport_height: u16)
        requires
            old(self).wf(),
        ensures
            final(self).wf(),
            final(self)@ == (AppModel {
                scroll: ScrollPosition {
                    max: height,
                    viewport_height,
                    ..old(self)@.scroll
                },
                ..old(self)@
            }),
    {
        self.scroll_position.max = height;
        self.scroll_position.viewport_height = viewport_height;
    }

    /// The text of the selected page: the cached text while the selection is unchanged;
    /// else its guide page, or `live` for a page drawn from live state, which is then
    /// cached.
    pub fn get_content(&mut self, live: &String) -> (r: String)
        requires
            old(self).wf(),
        ensures
            final(self).wf(),
            ({
                let item = all_items()[old(self)@.selected];
                match old(self)@.cache {
                    Some((cached, text)) if cached == item => {
                        &&& r@ == text
                        &&& final(self)@ == old(self)@
                    },
                    _ => {
                        let text = match page_of(item) {
                            Some(p) => p,
                            None => live@,
                        };
                        &&& r@ == text
                        &&& final(self)@ == (AppModel { cache: Some((item, text)), ..old(self)@ })
                    },
                }
            }),
    {
        let item = self.menu.selected_item();
        match &self.content_cache {
            Some((cached, text)) => {
                if *cached == item {
                    return text.clone();
                }
            },
            None => {},
        }
        let content = match page_content(item) {
            Some(p) => p,
            None => live.clone(),
        };
        self.content_cache = Some((item, content.clone()));
        content
    }

    pub fn clear_cache(&mut self)
        requires
            old(self).wf(),
        ensures
            final(self).wf(),
            final(self)@ == (AppModel { cache: None, ..old(self)@ }),
    {
        self.content_cache = None;
    }

    pub fn set_needs_refresh(&mut self)
        requires
            old(self).wf(),
        ensures
            final(self).wf(),
            final(self)@ == (AppModel { needs_refresh: true, ..old(self)@ }),
    {
        self.needs_refresh = true;
    }

    /// Takes the redraw request: returns whether one was pending, and clears it.
    pub fn check_needs_refresh(&mut self) -> (r: bool)
        requires
            old(self).wf(),
        ensures
            final(self).wf(),
            r == old(self)@.needs_refresh,
            final(self)@ == (AppModel { needs_refresh: false, ..old(self)@ }),
    {
        let r = self.needs_refresh;
        self.needs_refresh = false;
        r
    }

    pub fn toggle_selection_mode(&mut self)
        requires
            old(self).wf(),
        ensures
            final(self).wf(),
            final(self)@ == (AppModel { selection_mode: !old(self)@.selection_mode, ..old(self)@ }),
    {
        self.selection_mode = !self.selection_mode;
    }
}

} // verus!
