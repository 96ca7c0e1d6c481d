//! Response pagination totals, page slices and page keys.

use stellar_tui::app::{App, FocusPane, KeyCode, KeyEvent, KeyModifiers, PaginatedResponse};
use stellar_tui::settings::Settings;

#[test]
fn paginated_response_splits_pages() {
    let text = "l1\nl2\nl3\nl4\nl5";
    let paged = PaginatedResponse::from_text(text, 2);

    assert_eq!(paged.total_lines, 5);
    assert_eq!(paged.total_pages, 3);
    assert_eq!(paged.page_text(0), "l1\nl2");
    assert_eq!(paged.page_text(1), "l3\nl4");
    assert_eq!(paged.page_text(2), "l5");
}

#[test]
fn left_and_right_keys_navigate_response_pages() {
    let mut app = App::new(Settings::default_settings());
    app.focus = FocusPane::Response;

    let text = (1..=450)
        .map(|n| format!("line-{n}"))
        .collect::<Vec<_>>()
        .join("\n");
    app.paginated_response = Some(PaginatedResponse::from_text(&text, 200));

    app.response_selection_start = Some((0, 0));
    app.response_selection_end = Some((0, 3));

    let right = KeyEvent::new(KeyCode::Right, KeyModifiers::none());
    let left = KeyEvent::new(KeyCode::Left, KeyModifiers::none());

    app.handle_key(right);
    assert_eq!(app.response_page, 1);
    assert_eq!(app.response_selection_start, None);
    assert_eq!(app.response_selection_end, None);

    app.handle_key(right);
    assert_eq!(app.response_page, 2);

    app.handle_key(right);
    assert_eq!(app.response_page, 2);

    app.handle_key(left);
    assert_eq!(app.response_page, 1);

    app.handle_key(left);
    assert_eq!(app.response_page, 0);

    app.handle_key(left);
    assert_eq!(app.response_page, 0);
}

#[test]
fn page_texts_rejoin_into_the_whole_text() {
    let text = "l1\nl2\nl3\nl4\nl5";
    let p = PaginatedResponse::from_text(text, 2);
    let pages: Vec<String> = (0..p.total_pages).map(|i| p.page_text(i)).collect();
    assert_eq!(pages, vec!["l1\nl2", "l3\nl4", "l5"]);
    assert_eq!(pages.join("\n"), p.lines.join("\n"));
    assert_eq!(pages.join("\n"), text);
}

#[test]
fn page_line_counts_add_up_to_the_total() {
    let p = PaginatedResponse::from_text("l1\nl2\nl3\nl4\nl5", 2);
    let counts: Vec<usize> = (0..4).map(|i| p.page_line_count(i)).collect();
    assert_eq!(counts, vec![2, 2, 1, 0]);
    let sum: usize = (0..p.total_pages).map(|i| p.page_line_count(i)).sum();
    assert_eq!(sum, p.total_lines);
}
