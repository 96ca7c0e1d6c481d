//! Contents computed for the screen: status icons, page labels, hints, carets and
//! modal sizes.

use stellar_tui::app::{App, FocusPane, Rect};
use stellar_tui::settings::Settings;
use stellar_tui::ui::caret::{centered_rect, request_form_caret, response_search_caret};
use stellar_tui::ui::layout::{footer_rows, header_rows, MainLayout};
use stellar_tui::ui::modals::{
    display_endpoint, line_width, line_widths, modal_content_height, network_lines,
};
use stellar_tui::ui::panes::{
    footer_info, method_items, page_indicator, response_hints, search_box, status_indicator,
};
use stellar_tui::ui::style::{
    pane_border_style, pane_border_type, shortcut_hint, BorderKind, Look, Piece, Tint,
};

#[test]
fn status_icons_follow_the_status_text() {
    assert_eq!(status_indicator("Calling...", 12), ("\u{2839}".to_string(), Tint::Yellow));
    assert_eq!(status_indicator("Completed!", 0), ("\u{2713}".to_string(), Tint::Green));
    assert_eq!(status_indicator("Selection copied!", 0), ("\u{29c9}".to_string(), Tint::Green));
    assert_eq!(status_indicator("Error 1: x", 0), ("\u{2715}".to_string(), Tint::Red));
    assert_eq!(status_indicator("Ready", 0), ("\u{25cf}".to_string(), Tint::Muted));
    assert_eq!(status_indicator("Completed", 0), ("\u{25cf}".to_string(), Tint::Text));
}

#[test]
fn spinner_advances_only_while_calling() {
    let mut app = App::new(Settings::default_settings());
    app.spinner_frame = 9;
    app.advance_spinner("Calling...");
    assert_eq!(app.spinner_frame, 0);
    app.advance_spinner("Ready");
    assert_eq!(app.spinner_frame, 0);
}

#[test]
fn page_labels_point_to_other_pages() {
    assert_eq!(page_indicator(0, 1), " Page 1/1 ");
    assert_eq!(page_indicator(0, 3), " Page 1/3 \u{25ba} ");
    assert_eq!(page_indicator(1, 3), " \u{25c4} Page 2/3 \u{25ba} ");
    assert_eq!(page_indicator(2, 3), " \u{25c4} Page 3/3 ");
}

#[test]
fn endpoints_show_without_scheme() {
    assert_eq!(display_endpoint("https://a.org"), "a.org");
    assert_eq!(display_endpoint("http://b.org/x"), "b.org/x");
    assert_eq!(display_endpoint("ftp://c"), "ftp://c");
}

#[test]
fn hints_underline_the_first_character() {
    let hint = shortcut_hint("Copy");
    assert_eq!(hint[0].text, "C");
    assert!(hint[0].look.underlined);
    assert_eq!(hint[1].text, "opy");
    assert!(!hint[1].look.underlined);
    let empty = shortcut_hint("");
    assert_eq!(empty[0].text, "\0");
    assert_eq!(empty[1].text, "");

    let bar = response_hints(true, false, false).expect("focused response shows hints");
    let text: String = bar.iter().map(|p| p.text.clone()).collect();
    assert_eq!(text, " Copy Purge Fullscreen ");
    assert!(response_hints(false, false, false).is_none());
    let full: String = response_hints(false, true, true)
        .expect("fullscreen shows hints")
        .iter()
        .map(|p| p.text.clone())
        .collect();
    assert_eq!(full, " Copy Escape ");
}

#[test]
fn borders_reflect_focus_unless_a_modal_is_open() {
    assert_eq!(pane_border_type(true, false), BorderKind::Thick);
    assert_eq!(pane_border_type(true, true), BorderKind::Rounded);
    assert_eq!(pane_border_style(true, false).tint, Tint::Accent);
    assert!(pane_border_style(true, true).dim);
}

#[test]
fn header_and_footer_grow_on_narrow_terminals() {
    assert_eq!(header_rows(79), 3);
    assert_eq!(header_rows(80), 1);
    assert_eq!(footer_rows(60), 2);
    assert_eq!(footer_rows(200), 1);
}

#[test]
fn wide_layout_puts_methods_left_of_the_forms() {
    let app = App::new(Settings::default_settings());
    let layout = MainLayout::new(Rect { x: 0, y: 0, width: 150, height: 40 }, &app);
    assert!(layout.methods.x < layout.request.x);
    assert_eq!(layout.request.x, layout.response.x);
    assert!(layout.request.y < layout.response.y);
    assert_eq!(layout.header.height, 3);
    assert_eq!(layout.footer.height, 3);
    let regions = layout.to_regions();
    assert_eq!(regions.methods, layout.methods);
}

#[test]
fn centered_rect_lies_inside_the_area() {
    let area = Rect { x: 0, y: 0, width: 100, height: 50 };
    let r = centered_rect(60, 70, area);
    assert!(r.x >= 19 && r.x <= 21);
    assert!(r.width >= 59 && r.width <= 61);
    assert!(r.y + r.height <= 50);
}

#[test]
fn request_caret_follows_label_and_cursor() {
    let mut app = App::new(Settings::default_settings());
    app.focus = FocusPane::Request;
    let area = Rect { x: 0, y: 0, width: 40, height: 10 };
    assert_eq!(request_form_caret(area, &app), Some((17, 1)));
    app.request_forms[0].insert_char('7');
    assert_eq!(request_form_caret(area, &app), Some((18, 1)));
}

#[test]
fn search_caret_sits_after_the_label() {
    let mut app = App::new(Settings::default_settings());
    app.response_search_query = "abc".to_string();
    app.response_search_cursor = 2;
    let area = Rect { x: 5, y: 30, width: 40, height: 3 };
    assert_eq!(response_search_caret(area, &app), Some((16, 31)));
    assert_eq!(response_search_caret(Rect { x: 0, y: 0, width: 2, height: 3 }, &app), None);
}

#[test]
fn search_box_counts_matches() {
    let mut app = App::new(Settings::default_settings());
    app.focus = FocusPane::Response;
    app.zoomed_pane = Some(FocusPane::Response);
    let off = search_box(&app);
    assert_eq!(off.line[1].text, "Nothing to search");
    assert!(off.counter.is_none());
    app.last_response = "x".to_string();
    app.response_search_query = "x".to_string();
    let none = search_box(&app);
    assert_eq!(none.counter.expect("counter").text, " 0 matches ");
    app.response_search_matches = vec![0, 4];
    app.response_search_current = 1;
    let some = search_box(&app);
    assert!(some.active);
    assert_eq!(some.counter.expect("counter").text, " 2/2 ");
}

#[test]
fn modal_height_counts_wrapped_rows() {
    assert_eq!(modal_content_height(&vec![10, 25, 0], 12), 5);
    let mut app = App::new(Settings::default_settings());
    app.modal_scroll = 15;
    app.fit_modal_scroll(20, 10);
    assert_eq!(app.modal_max_scroll, 12);
    assert_eq!(app.modal_scroll, 12);
}

#[test]
fn settings_list_shows_two_rows_per_network() {
    let app = App::new(Settings::default_settings());
    let lines = network_lines(&app);
    assert_eq!(lines.len(), 5);
    assert_eq!(lines[3][2].text, "Testnet");
    assert_eq!(lines[4][0].text, "    soroban-testnet.stellar.org");
    let footer: String = footer_info(&app.settings).iter().map(|p| p.text.clone()).collect();
    assert_eq!(footer, " Network: Testnet");
    let items = method_items(&app.methods);
    assert_eq!(items.len(), app.methods.len());
    assert_eq!(items[0][1].text, "getEvents");
}

#[test]
fn line_widths_add_up_display_widths_of_pieces() {
    let look = Look { tint: Tint::Text, bold: false, dim: false, italic: false, underlined: false, selected: false };
    let wide = vec![Piece::of("ab", look), Piece::of("\u{65e5}\u{672c}", look)];
    assert_eq!(line_width(&wide), 6);
    let widths = line_widths(&vec![wide, vec![], vec![Piece::of("xyz", look)]]);
    assert_eq!(widths, vec![6, 0, 3]);
}

#[test]
fn layout_parts_lie_inside_the_frame() {
    let app = App::new(Settings::default_settings());
    for width in [90u16, 150] {
        let frame = Rect { x: 2, y: 1, width, height: 40 };
        let l = MainLayout::new(frame, &app);
        for r in [l.header, l.body, l.footer, l.methods, l.request, l.response] {
            assert!(r.x >= frame.x && r.y >= frame.y);
            assert!(r.x + r.width <= frame.x + frame.width);
            assert!(r.y + r.height <= frame.y + frame.height);
        }
        assert_eq!(l.header.width, width);
        assert_eq!(l.header.x, frame.x);
    }
}
