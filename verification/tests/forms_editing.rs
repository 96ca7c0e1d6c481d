//! Field editing at the caret, defaults, and values read back by key.

use stellar_tui::app::model::forms::{FieldSpec, FieldType, FormState};

fn spec(key: &'static str, default_value: &'static str) -> FieldSpec {
    FieldSpec {
        key,
        label: "Label",
        field_type: FieldType::Text,
        optional: true,
        default_value,
        hint: "",
    }
}

#[test]
fn typing_then_backspace_restores_the_value() {
    let specs = [spec("name", "")];
    let mut form = FormState::from_specs(&specs);
    form.insert_char('a');
    form.insert_char('b');
    assert_eq!(form.fields[0].value, "ab");
    assert_eq!(form.fields[0].cursor, 2);
    form.insert_char('c');
    form.backspace();
    assert_eq!(form.fields[0].value, "ab");
    assert_eq!(form.fields[0].cursor, 2);
}

#[test]
fn typing_over_a_default_replaces_it() {
    let specs = [spec("xdrFormat", "json")];
    let mut form = FormState::from_specs(&specs);
    assert_eq!(form.fields[0].cursor, 4);
    form.insert_char('b');
    assert_eq!(form.fields[0].value, "b");
    assert_eq!(form.fields[0].cursor, 1);
}

#[test]
fn zero_after_a_numeric_default_is_appended() {
    let specs = [spec("limit", "10")];
    let mut form = FormState::from_specs(&specs);
    form.insert_char('0');
    assert_eq!(form.fields[0].value, "100");
    form.insert_char('7');
    assert_eq!(form.fields[0].value, "1007");
}

#[test]
fn caret_moves_and_deletes_in_the_middle() {
    let specs = [spec("name", "")];
    let mut form = FormState::from_specs(&specs);
    for c in "héllo".chars() {
        form.insert_char(c);
    }
    form.cursor_left();
    form.cursor_left();
    form.cursor_left();
    assert_eq!(form.fields[0].cursor, 2);
    form.delete_forward();
    assert_eq!(form.fields[0].value, "hélo");
    form.backspace();
    assert_eq!(form.fields[0].value, "hlo");
    assert_eq!(form.fields[0].cursor, 1);
    form.cursor_left();
    form.cursor_left();
    assert_eq!(form.fields[0].cursor, 0);
    form.cursor_right();
    form.cursor_right();
    form.cursor_right();
    form.cursor_right();
    assert_eq!(form.fields[0].cursor, 3);
}

#[test]
fn set_value_reads_back_and_selection_is_clamped() {
    let specs = [spec("a", ""), spec("b", "x")];
    let mut form = FormState::from_specs(&specs);
    form.set_value("b", "value".to_string());
    assert_eq!(form.field_value("b"), Some("value"));
    assert_eq!(form.fields[1].cursor, 5);
    assert_eq!(form.field_value("missing"), None);
    form.select_prev();
    assert_eq!(form.selected, 0);
    form.select_next();
    form.select_next();
    assert_eq!(form.selected, 1);
}

#[test]
fn ensure_visible_scrolls_to_the_selection() {
    let specs = [spec("a", ""), spec("b", ""), spec("c", ""), spec("d", "")];
    let mut form = FormState::from_specs(&specs);
    form.select_next();
    form.select_next();
    form.select_next();
    form.ensure_visible(2);
    assert_eq!(form.scroll, 2);
    form.select_prev();
    form.select_prev();
    form.select_prev();
    form.ensure_visible(2);
    assert_eq!(form.scroll, 0);
}
