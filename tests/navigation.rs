use vpsdash::events::{handle_events, handle_key_press, poll_interval_ms, Key, KeyAction};
use vpsdash::k3s;
use vpsdash::menu::MenuItem;
use vpsdash::ui_state::{App, FocusArea};

fn app_with_content(max: u16, viewport: u16) -> App {
    let mut app = App::new();
    app.update_content_height(max, viewport);
    app
}

#[test]
fn new_app_focuses_the_menu() {
    let app = App::new();
    assert!(app.show_menu);
    assert_eq!(app.focus_area, FocusArea::Menu);
    assert_eq!(app.menu.selected_index(), 0);
    assert!(!app.needs_refresh && !app.selection_mode);
}

#[test]
fn toggling_the_menu_moves_focus() {
    let mut app = App::new();
    app.toggle_menu();
    assert!(!app.show_menu);
    assert_eq!(app.focus_area, FocusArea::Content);
    app.toggle_focus();
    assert_eq!(app.focus_area, FocusArea::Content);
    app.set_focus(FocusArea::Menu);
    assert_eq!(app.focus_area, FocusArea::Content);
    app.toggle_menu();
    assert_eq!(app.focus_area, FocusArea::Menu);
    app.toggle_focus();
    assert_eq!(app.focus_area, FocusArea::Content);
}

#[test]
fn moving_in_the_menu_resets_scroll_and_cache() {
    let mut app = app_with_content(100, 20);
    app.set_focus(FocusArea::Content);
    app.scroll_down(30);
    assert_eq!(app.scroll_position.current, 30);
    assert_eq!(app.get_content(&"live".to_string()), "live");
    app.set_focus(FocusArea::Menu);
    app.move_down();
    assert_eq!(app.menu.selected_item(), MenuItem::DiskTest);
    assert_eq!(app.scroll_position.current, 0);
    assert_eq!(app.get_content(&"disk".to_string()), "disk");
}

#[test]
fn moving_in_the_content_scrolls() {
    let mut app = app_with_content(100, 20);
    app.set_focus(FocusArea::Content);
    app.move_down();
    app.move_down();
    app.move_up();
    assert_eq!(app.scroll_position.current, 1);
    assert_eq!(app.menu.selected_index(), 0);
    app.page_down();
    assert_eq!(app.scroll_position.current, 19);
    app.page_up();
    app.page_up();
    assert_eq!(app.scroll_position.current, 0);
}

#[test]
fn content_is_cached_per_selection() {
    let mut app = App::new();
    assert_eq!(app.get_content(&"first".to_string()), "first");
    assert_eq!(app.get_content(&"second".to_string()), "first");
    app.clear_cache();
    assert_eq!(app.get_content(&"third".to_string()), "third");
    assert!(app.menu.select_by_number('8'));
    assert_eq!(app.get_content(&"ignored".to_string()), k3s::get_info());
}

#[test]
fn refresh_and_selection_flags() {
    let mut app = App::new();
    assert!(!app.check_needs_refresh());
    app.set_needs_refresh();
    assert!(app.check_needs_refresh());
    assert!(!app.check_needs_refresh());
    app.toggle_selection_mode();
    assert!(app.selection_mode);
}

#[test]
fn enter_starts_a_test_entry() {
    let mut app = App::new();
    assert!(app.menu.select_by_number('3'));
    assert_eq!(handle_key_press(&mut app, Key::Enter), KeyAction::Start(MenuItem::CpuTest));
    assert_eq!(app.focus_area, FocusArea::Content);
    assert_eq!(handle_key_press(&mut app, Key::Enter), KeyAction::Continue);
    let mut other = App::new();
    other.menu.select_by_number('8');
    assert_eq!(handle_key_press(&mut other, Key::Enter), KeyAction::Continue);
    assert_eq!(other.focus_area, FocusArea::Content);
}

#[test]
fn digit_keys_select_and_focus_content() {
    let mut app = App::new();
    assert_eq!(handle_key_press(&mut app, Key::Char('4')), KeyAction::Continue);
    assert_eq!(app.menu.selected_item(), MenuItem::NetworkSpeedTest);
    assert_eq!(app.focus_area, FocusArea::Content);
    handle_key_press(&mut app, Key::Char('2'));
    assert_eq!(app.menu.selected_item(), MenuItem::NetworkSpeedTest);
}

#[test]
fn arrows_tab_and_ends() {
    let mut app = app_with_content(50, 10);
    handle_key_press(&mut app, Key::Down);
    handle_key_press(&mut app, Key::Down);
    handle_key_press(&mut app, Key::Up);
    assert_eq!(app.menu.selected_index(), 1);
    handle_key_press(&mut app, Key::Right);
    assert_eq!(app.focus_area, FocusArea::Content);
    handle_key_press(&mut app, Key::End);
    assert_eq!(app.scroll_position.current, 40);
    handle_key_press(&mut app, Key::Home);
    assert_eq!(app.scroll_position.current, 0);
    handle_key_press(&mut app, Key::Tab);
    assert_eq!(app.focus_area, FocusArea::Menu);
    handle_key_press(&mut app, Key::Char('m'));
    assert!(!app.show_menu);
    handle_key_press(&mut app, Key::Left);
    assert_eq!(app.focus_area, FocusArea::Content);
}

#[test]
fn quitting() {
    let mut app = App::new();
    assert_eq!(handle_key_press(&mut app, Key::Char('Q')), KeyAction::Quit);
    assert_eq!(handle_events(&mut app, Key::Char('d'), true), KeyAction::Quit);
    assert_eq!(handle_events(&mut app, Key::Char('d'), false), KeyAction::Continue);
    assert_eq!(handle_events(&mut app, Key::Other, true), KeyAction::Continue);
}

#[test]
fn poll_intervals() {
    assert_eq!(poll_interval_ms(MenuItem::CpuTest), 50);
    assert_eq!(poll_interval_ms(MenuItem::K8s), 100);
}
