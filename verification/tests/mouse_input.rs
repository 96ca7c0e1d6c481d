//! Mouse focus, wheel scrolling and drag selection.

use stellar_tui::app::{
    App, AppCommand, FocusPane, MouseEvent, MouseEventKind, ModalState, Rect, UiRegions,
};
use stellar_tui::settings::Settings;

fn regions() -> UiRegions {
    UiRegions {
        methods: Rect { x: 0, y: 0, width: 30, height: 20 },
        request: Rect { x: 30, y: 0, width: 70, height: 10 },
        response: Rect { x: 30, y: 10, width: 70, height: 10 },
    }
}

#[test]
fn clicking_a_pane_focuses_it() {
    let mut app = App::new(Settings::default_settings());
    app.set_ui_regions(regions());
    app.handle_mouse(MouseEvent::new(MouseEventKind::Down, 40, 5));
    assert_eq!(app.focus, FocusPane::Request);
    app.handle_mouse(MouseEvent::new(MouseEventKind::Down, 5, 5));
    assert_eq!(app.focus, FocusPane::Methods);
}

#[test]
fn wheel_over_methods_moves_the_selection() {
    let mut app = App::new(Settings::default_settings());
    app.set_ui_regions(regions());
    app.handle_mouse(MouseEvent::new(MouseEventKind::ScrollDown, 5, 5));
    assert_eq!(app.selected_method, 1);
    assert_eq!(app.focus, FocusPane::Methods);
    app.handle_mouse(MouseEvent::new(MouseEventKind::ScrollUp, 5, 5));
    app.handle_mouse(MouseEvent::new(MouseEventKind::ScrollUp, 5, 5));
    assert_eq!(app.selected_method, 0);
}

#[test]
fn dragging_selects_and_copy_takes_the_selection() {
    let mut app = App::new(Settings::default_settings());
    app.set_ui_regions(regions());
    app.last_response = "{\n  \"result\": \"hello\"\n}".to_string();
    app.rebuild_pagination();
    app.handle_mouse(MouseEvent::new(MouseEventKind::Down, 34, 12));
    assert_eq!(app.focus, FocusPane::Response);
    assert_eq!(app.response_selection_start, Some((1, 3)));
    app.handle_mouse(MouseEvent::new(MouseEventKind::Drag, 40, 12));
    app.handle_mouse(MouseEvent::new(MouseEventKind::Up, 40, 12));
    assert_eq!(app.response_selection_range(), Some(((1, 3), (1, 9))));
    match app.copy_response_selection_or_page() {
        Some(AppCommand::CopyText { text, success_message, clear_selection }) => {
            assert_eq!(text, "result");
            assert_eq!(success_message, "Selection copied!");
            assert!(clear_selection);
            app.finish_copy(Ok(()), success_message, clear_selection);
        }
        other => panic!("unexpected {:?}", other),
    }
    assert_eq!(app.response_selection_start, None);
}

#[test]
fn copy_without_selection_takes_the_page() {
    let mut app = App::new(Settings::default_settings());
    app.last_response = "a\nb".to_string();
    app.rebuild_pagination();
    match app.copy_response_selection_or_page() {
        Some(AppCommand::CopyText { text, success_message, clear_selection }) => {
            assert_eq!(text, "a\nb");
            assert_eq!(success_message, "Current page copied!");
            assert!(!clear_selection);
        }
        other => panic!("unexpected {:?}", other),
    }
    let mut empty = App::new(Settings::default_settings());
    assert!(empty.copy_response_selection_or_page().is_none());
    assert_eq!(empty.timed_status.as_ref().expect("status").message, "Nothing to copy");
}

#[test]
fn wheel_in_a_modal_scrolls_it() {
    let mut app = App::new(Settings::default_settings());
    app.modal = ModalState::About;
    app.modal_max_scroll = 1;
    app.handle_mouse(MouseEvent::new(MouseEventKind::ScrollDown, 0, 0));
    app.handle_mouse(MouseEvent::new(MouseEventKind::ScrollDown, 0, 0));
    assert_eq!(app.modal_scroll, 1);
    app.handle_mouse(MouseEvent::new(MouseEventKind::ScrollUp, 0, 0));
    assert_eq!(app.modal_scroll, 0);
}

#[test]
fn timed_status_shows_until_it_expires() {
    let mut app = App::new(Settings::default_settings());
    app.set_timed_status("Saved".to_string(), 5);
    assert_eq!(app.effective_status(), "Saved");
    assert_eq!(app.status_after(4), "Saved");
    assert_eq!(app.status_after(5), "Ready");
    assert!(app.timed_status.is_none());
}
