//! Syntax colors of JSON lines, search marks and the selection background.

use stellar_tui::ui::json::{
    colorize_and_highlight_json_text, colorize_json_line, colorize_json_value, find_key_colon,
    highlight_line_range, is_float_literal, mark_line_if_matching, selection_highlight_text,
};
use stellar_tui::app::{App, FocusPane};
use stellar_tui::settings::Settings;
use stellar_tui::ui::json::response_lines;
use stellar_tui::ui::style::{Piece, Tint};

fn texts(pieces: &[Piece]) -> Vec<String> {
    pieces.iter().map(|p| p.text.clone()).collect()
}

fn tints(pieces: &[Piece]) -> Vec<Tint> {
    pieces.iter().map(|p| p.look.tint).collect()
}

#[test]
fn key_value_line_is_split_into_colored_pieces() {
    let pieces = colorize_json_line("  \"id\": 1,");
    assert_eq!(texts(&pieces), vec!["  ", "\"id\"", ": ", "1", ","]);
    assert_eq!(
        tints(&pieces),
        vec![Tint::Plain, Tint::Blue, Tint::Muted, Tint::Peach, Tint::Muted]
    );
}

#[test]
fn string_values_are_green_unless_shortened() {
    let pieces = colorize_json_value("\"abc\"");
    assert_eq!(texts(&pieces), vec!["\"abc\"", ""]);
    assert_eq!(pieces[0].look.tint, Tint::Green);
    let pieces = colorize_json_value("\"ab\u{2026}\",");
    assert_eq!(texts(&pieces), vec!["\"ab\u{2026}\"", ","]);
    assert_eq!(pieces[0].look.tint, Tint::Peach);
}

#[test]
fn literals_and_unknown_values() {
    assert_eq!(colorize_json_value("null")[0].look.tint, Tint::Muted);
    assert_eq!(colorize_json_value("true,")[0].look.tint, Tint::Yellow);
    assert_eq!(colorize_json_value("false")[0].look.tint, Tint::Yellow);
    let other = colorize_json_value("{,,");
    assert_eq!(texts(&other), vec!["{,,"]);
    assert_eq!(other[0].look.tint, Tint::Muted);
}

#[test]
fn brackets_are_muted_after_plain_indentation() {
    let pieces = colorize_json_line("    },");
    assert_eq!(texts(&pieces), vec!["    ", "},"]);
    assert_eq!(tints(&pieces), vec![Tint::Plain, Tint::Muted]);
    let blank = colorize_json_line("   ");
    assert_eq!(texts(&blank), vec!["   "]);
}

#[test]
fn float_syntax_follows_rust_parsing() {
    for accepted in ["1", "-1.5e10", "+2E-3", "inf", "-Infinity", "NaN", "1.", ".5", "0"] {
        assert!(is_float_literal(accepted), "{accepted}");
        assert!(accepted.parse::<f64>().is_ok(), "{accepted}");
    }
    for refused in ["", ".", "e5", "1e", "abc", "1.2.3", "--1", " 1", "0x10", "1_0"] {
        assert!(!is_float_literal(refused), "{refused}");
        assert!(refused.parse::<f64>().is_err(), "{refused}");
    }
}

#[test]
fn key_colon_offset_is_in_bytes() {
    assert_eq!(find_key_colon("\"id\": 1"), Some(4));
    assert_eq!(find_key_colon("\"\u{e9}\": 1"), Some(4));
    assert_eq!(find_key_colon("\"id\":1"), None);
    assert_eq!(find_key_colon("id: 1"), None);
    assert_eq!(find_key_colon("\"open"), None);
}

#[test]
fn highlighting_keeps_text_and_marks_the_range() {
    let pieces = colorize_json_line("  \"id\": 123");
    let before: String = texts(&pieces).concat();
    let highlighted = highlight_line_range(pieces, 3, 9);
    let after: String = texts(&highlighted).concat();
    assert_eq!(before, after);
    let selected: String = highlighted
        .iter()
        .filter(|p| p.look.selected)
        .map(|p| p.text.clone())
        .collect();
    assert_eq!(selected, "id\": 1");
}

#[test]
fn selection_rows_highlight_only_inside_the_selection() {
    let rows = vec!["{".to_string(), "  \"a\": 1".to_string(), "}".to_string()];
    let lines = selection_highlight_text(&rows, (1, 2), (1, 5));
    assert!(lines[0].iter().all(|p| !p.look.selected));
    assert!(lines[2].iter().all(|p| !p.look.selected));
    let selected: String = lines[1]
        .iter()
        .filter(|p| p.look.selected)
        .map(|p| p.text.clone())
        .collect();
    assert_eq!(selected, "\"a\"");
}

#[test]
fn matching_lines_get_a_marker_ignoring_case() {
    let line = colorize_json_line("  \"Name\": \"FOO\"");
    let marked = mark_line_if_matching(line, "foo");
    assert_eq!(marked[0].text, "\u{203a} ");
    assert_eq!(marked[0].look.tint, Tint::Accent);
    assert!(marked[0].look.bold);

    let lines = colorize_and_highlight_json_text("{\n  \"a\": \"x\"\n}", "A");
    assert_eq!(lines.len(), 3);
    assert_eq!(lines[1][0].text, "\u{203a} ");
    assert_ne!(lines[0][0].text, "\u{203a} ");

    let unmarked = colorize_and_highlight_json_text("{\n  \"a\": \"x\"\n}", "  ");
    assert!(unmarked.iter().all(|l| l.is_empty() || l[0].text != "\u{203a} "));
}

#[test]
fn coloring_keeps_the_text_of_pretty_json() {
    let text = "{\n  \"jsonrpc\": \"2.0\",\n  \"id\": 1,\n  \"result\": {\n    \"status\": \"healthy\",\n    \"ledgers\": [\n      12,\n      -3.5e2\n    ],\n    \"ok\": true,\n    \"none\": null\n  }\n}";
    let lines = stellar_tui::ui::json::colorize_json_text(text);
    let joined: Vec<String> = lines.iter().map(|l| texts(l).concat()).collect();
    assert_eq!(joined.join("\n"), text);
    assert_eq!(lines[6][1].look.tint, Tint::Peach);
    assert_eq!(lines[7][1].look.tint, Tint::Peach);
    assert_eq!(lines[9][3].look.tint, Tint::Yellow);
    assert_eq!(lines[10][3].look.tint, Tint::Muted);
}

#[test]
fn response_pane_text_follows_selection_and_search() {
    let mut app = App::new(Settings::default_settings());
    assert!(response_lines(&app).is_none());

    app.last_response = "{\n  \"a\": \"x\"\n}".to_string();
    app.rebuild_pagination();
    let plain = response_lines(&app).expect("lines");
    assert_eq!(texts(&plain[1]), vec!["  ", "\"a\"", ": ", "\"x\"", ""]);

    app.focus = FocusPane::Response;
    app.zoomed_pane = Some(FocusPane::Response);
    app.response_search_query = "X".to_string();
    let searched = response_lines(&app).expect("lines");
    assert_eq!(searched[1][0].text, "\u{203a} ");

    app.response_selection_start = Some((1, 2));
    app.response_selection_end = Some((1, 5));
    let selected = response_lines(&app).expect("lines");
    assert!(selected[1].iter().any(|p| p.look.selected));
}
