//! Search patterns in the response pane.

use stellar_tui::app::{App, FocusPane, KeyCode, KeyEvent, KeyModifiers};
use stellar_tui::pattern::regex_matches;
use stellar_tui::settings::Settings;
use stellar_tui::ui::json::colorize_and_highlight_json_text;

#[test]
fn dot_in_a_search_stands_for_any_character() {
    let mut app = App::new(Settings::default_settings());
    app.last_response = "foo\nbar".to_string();
    app.response_search_query = "b.r".to_string();
    app.update_response_search_matches();
    assert_eq!(app.response_search_matches, vec![1]);
    assert_eq!(app.response_search_current, 0);
}

#[test]
fn typed_pattern_finds_lines_ignoring_case() {
    let mut app = App::new(Settings::default_settings());
    app.focus = FocusPane::Response;
    app.last_response = "Alpha 12\nbeta\nGAMMA 7".to_string();
    app.handle_key(KeyEvent::new(KeyCode::Char('f'), KeyModifiers::none()));
    for c in "\\d+$".chars() {
        app.handle_key(KeyEvent::new(KeyCode::Char(c), KeyModifiers::none()));
    }
    assert_eq!(app.response_search_query, "\\d+$");
    assert_eq!(app.response_search_matches, vec![0, 2]);
}

#[test]
fn anchors_tie_the_match_to_the_ends() {
    assert!(regex_matches("^ab", "abc"));
    assert!(!regex_matches("^bc", "abc"));
    assert!(regex_matches("bc$", "abc"));
    assert!(!regex_matches("ab$", "abc"));
    assert!(regex_matches("^abc$", "abc"));
    assert!(regex_matches("^$", ""));
    assert!(!regex_matches("^$", "a"));
}

#[test]
fn quantifiers_repeat_the_atom_before_them() {
    assert!(regex_matches("ab*c", "ac"));
    assert!(regex_matches("ab*c", "abbbc"));
    assert!(!regex_matches("ab+c", "ac"));
    assert!(regex_matches("ab+c", "abbc"));
    assert!(regex_matches("colou?r", "color"));
    assert!(regex_matches("colou?r", "colour"));
    assert!(!regex_matches("colou?r", "colouur"));
    assert!(regex_matches("a.*z", "a to z"));
}

#[test]
fn escapes_name_classes_or_stand_for_themselves() {
    assert!(regex_matches("\\d\\d", "ledger 42"));
    assert!(!regex_matches("\\d\\d", "ledger 4"));
    assert!(regex_matches("\\w+_id", "contract_id"));
    assert!(regex_matches("a\\sb", "a b"));
    assert!(!regex_matches("a\\sb", "ab"));
    assert!(regex_matches("1\\.5", "1.5"));
    assert!(!regex_matches("1\\.5", "125"));
    assert!(regex_matches("\\$", "cost $"));
}

#[test]
fn other_characters_are_literal() {
    assert!(regex_matches("\"id\":", "{\"id\": 1}"));
    assert!(regex_matches("(", "f(x)"));
    assert!(regex_matches("*", "a*b"));
    assert!(!regex_matches("xyz", "xy"));
    assert!(regex_matches("", "anything"));
}

#[test]
fn search_marks_lines_that_the_pattern_matches() {
    let lines = colorize_and_highlight_json_text("{\n  \"aa\": 1,\n  \"b\": 2\n}", "a+\"");
    let texts: Vec<String> = lines
        .iter()
        .map(|l| l.iter().map(|p| p.text.as_str()).collect::<String>())
        .collect();
    assert!(texts[1].starts_with('\u{203a}'));
    assert!(!texts[2].starts_with('\u{203a}'));
}

#[test]
fn bars_part_alternatives() {
    assert!(regex_matches("cat|dog", "hot dog"));
    assert!(regex_matches("cat|dog", "catalog"));
    assert!(!regex_matches("cat|dog", "cow"));
    assert!(regex_matches("^a|b$", "xb"));
    assert!(!regex_matches("^a|b$", "ba"));
    assert!(regex_matches("a\\|b", "a|b"));
    assert!(!regex_matches("a\\|b", "a"));
    assert!(regex_matches("x|", "anything"));
}

#[test]
fn search_with_alternatives_lists_each_matching_line() {
    let mut app = App::new(Settings::default_settings());
    app.last_response = "error: one\nok\nWarning: two\nfine".to_string();
    app.response_search_query = "error|warn".to_string();
    app.update_response_search_matches();
    assert_eq!(app.response_search_matches, vec![0, 2]);
}
