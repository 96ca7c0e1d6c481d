//! Layout invariants for normal and fullscreen modes.

use stellar_tui::app::{App, FocusPane, KeyCode, KeyEvent, KeyModifiers, Rect};
use stellar_tui::settings::Settings;
use stellar_tui::ui::layout::MainLayout;

fn area(width: u16, height: u16) -> Rect {
    Rect { x: 0, y: 0, width, height }
}

#[test]
fn response_search_area_is_present_only_when_response_is_fullscreen() {
    let mut app = App::new(Settings::default_settings());

    let normal = MainLayout::new(area(120, 40), &app);
    assert_eq!(normal.search, Rect::default());

    app.focus = FocusPane::Response;
    app.handle_key(KeyEvent::new(KeyCode::Char('f'), KeyModifiers::none()));

    let fullscreen = MainLayout::new(area(120, 40), &app);
    assert!(fullscreen.search.height > 0);
    assert!(fullscreen.search.width > 0);
}

#[test]
fn compact_width_stacks_panes_vertically() {
    let app = App::new(Settings::default_settings());
    let layout = MainLayout::new(area(90, 36), &app);

    assert_eq!(layout.methods.x, layout.request.x);
    assert_eq!(layout.request.x, layout.response.x);
    assert!(layout.methods.y < layout.request.y);
    assert!(layout.request.y < layout.response.y);
}

#[test]
fn draw_sets_response_region_to_full_body_when_zoomed() {
    let mut app = App::new(Settings::default_settings());
    app.focus = FocusPane::Response;
    app.handle_key(KeyEvent::new(KeyCode::Char('f'), KeyModifiers::none()));

    let layout = MainLayout::new(area(120, 40), &app);
    let regions = layout.frame_regions(app.zoomed_pane);
    app.set_ui_regions(regions);

    let expected = MainLayout::new(area(120, 40), &app).body;
    let regions = app.ui_regions.expect("ui regions should be set during draw");

    assert_eq!(regions.response, expected);
}

#[test]
fn layout_is_assembled_from_the_split_areas() {
    let r = |x: u16| Rect { x, y: x, width: x + 1, height: x + 2 };
    let bands = vec![r(1), r(2), r(3)];
    let search_parts = vec![r(4), r(5)];
    let body_parts = vec![r(6), r(7), r(8)];
    let right_parts = vec![r(9), r(10)];
    let narrow = MainLayout::from_splits(90, false, &bands, &search_parts, &body_parts, &right_parts);
    assert_eq!((narrow.header, narrow.body, narrow.footer), (r(1), r(2), r(3)));
    assert_eq!((narrow.methods, narrow.request, narrow.response), (r(6), r(7), r(8)));
    assert_eq!(narrow.search, Rect::default());
    let wide = MainLayout::from_splits(120, true, &bands, &search_parts, &body_parts[..2].to_vec(), &right_parts);
    assert_eq!((wide.body, wide.search), (r(4), r(5)));
    assert_eq!((wide.methods, wide.request, wide.response), (r(6), r(9), r(10)));
}
