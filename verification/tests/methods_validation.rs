//! Parameter building, validation messages and sending requests.

use stellar_tui::app::methods::params::ParamValue;
use stellar_tui::app::methods::{
    get_ledgers, get_transaction, parse_list, parse_optional_json, parse_optional_u64,
    send_transaction, validate_request_form,
};
use stellar_tui::app::model::forms::FormState;
use stellar_tui::app::{App, FocusPane};
use stellar_tui::settings::Settings;

#[test]
fn send_transaction_requires_base64_envelope() {
    let spec = send_transaction::spec();
    let mut form = FormState::from_specs(&spec.fields);
    form.set_value("transaction", "not base64!".to_string());
    let errors = validate_request_form(&spec, &form);
    assert_eq!(errors.get("transaction").map(|s| s.as_str()), Some("Must be base64"));

    form.set_value("transaction", "AAAA".to_string());
    let errors = validate_request_form(&spec, &form);
    assert!(errors.get("transaction").is_none());
}

#[test]
fn missing_required_field_is_reported() {
    let spec = send_transaction::spec();
    let form = FormState::from_specs(&spec.fields);
    let errors = validate_request_form(&spec, &form);
    assert_eq!(errors.get("transaction").map(|s| s.as_str()), Some("Required"));
    let built = send_transaction::build(&form);
    assert_eq!(built.err(), Some("transaction is required".to_string()));
}

#[test]
fn transaction_hash_must_be_hex() {
    let spec = get_transaction::spec();
    let mut form = FormState::from_specs(&spec.fields);
    form.set_value("hash", "xyz".to_string());
    let errors = validate_request_form(&spec, &form);
    assert_eq!(errors.get("hash").map(|s| s.as_str()), Some("Must be 64-char hex"));
    form.set_value("hash", "a".repeat(64));
    let errors = validate_request_form(&spec, &form);
    assert!(errors.get("hash").is_none());
}

#[test]
fn start_ledger_and_cursor_exclude_each_other() {
    let spec = get_ledgers::spec();
    let mut form = FormState::from_specs(&spec.fields);
    form.set_value("startLedger", "10".to_string());
    form.set_value("cursor", "abc".to_string());
    let errors = validate_request_form(&spec, &form);
    assert_eq!(errors.get("startLedger").map(|s| s.as_str()), Some("Use startLedger or cursor"));
    assert_eq!(errors.get("cursor").map(|s| s.as_str()), Some("Use cursor or startLedger"));
}

#[test]
fn number_fields_report_their_key() {
    let spec = get_ledgers::spec();
    let mut form = FormState::from_specs(&spec.fields);
    form.set_value("startLedger", " 12 ".to_string());
    assert_eq!(parse_optional_u64(&form, "startLedger"), Ok(Some(12)));
    form.set_value("startLedger", "twelve".to_string());
    assert_eq!(
        parse_optional_u64(&form, "startLedger"),
        Err("startLedger must be a number".to_string())
    );
    let errors = validate_request_form(&spec, &form);
    assert_eq!(errors.get("startLedger").map(|s| s.as_str()), Some("Must be a number"));
}

#[test]
fn lists_are_trimmed_and_blank_items_dropped() {
    let spec = get_ledgers::spec();
    let mut form = FormState::from_specs(&spec.fields);
    form.set_value("cursor", " a, ,b ,, c ".to_string());
    assert_eq!(parse_list(&form, "cursor"), vec!["a", "b", "c"]);
}

#[test]
fn optional_json_is_parsed_or_reported() {
    let spec = get_ledgers::spec();
    let mut form = FormState::from_specs(&spec.fields);
    form.set_value("cursor", " [1, 2, 3] ".to_string());
    let parsed = parse_optional_json(&form, "cursor").expect("valid JSON");
    let input = parsed.expect("present");
    assert_eq!(input.text, "[1, 2, 3]");
    assert_eq!(input.array_len, Some(3));

    form.set_value("cursor", "{bad".to_string());
    let err = parse_optional_json(&form, "cursor").err().expect("invalid JSON");
    assert!(err.starts_with("cursor invalid JSON: "));
}

#[test]
fn execute_request_sends_built_params_to_the_active_endpoint() {
    let mut app = App::new(Settings::default_settings());
    let index = app
        .methods
        .iter()
        .position(|m| m.name == "sendTransaction")
        .expect("method present");
    app.selected_method = index;
    app.focus = FocusPane::Request;
    app.request_forms[index].set_value("transaction", "AAAA".to_string());

    let request = app.execute_request().expect("request should be sent");
    assert_eq!(request.method, "sendTransaction");
    assert_eq!(request.endpoint, "https://soroban-testnet.stellar.org");
    match request.params {
        ParamValue::Object(entries) => {
            assert_eq!(entries[0].0, "transaction");
            assert!(matches!(&entries[0].1, ParamValue::Text(t) if t == "AAAA"));
        }
        other => panic!("unexpected params {:?}", other),
    }
    assert!(app.pending_request);
    assert_eq!(app.status, "Calling...");
}

#[test]
fn execute_request_reports_params_error_and_sends_nothing() {
    let mut app = App::new(Settings::default_settings());
    let index = app
        .methods
        .iter()
        .position(|m| m.name == "getTransaction")
        .expect("method present");
    app.selected_method = index;

    assert!(app.execute_request().is_none());
    assert!(!app.pending_request);
    let status = app.timed_status.as_ref().expect("status").message.clone();
    assert_eq!(status, "Params error: hash is required");
}

#[test]
fn ledger_entries_take_only_keys() {
    let spec = stellar_tui::app::methods::get_ledger_entries::spec();
    assert_eq!(spec.name, "getLedgerEntries");
    let keys: Vec<&str> = spec.fields.iter().map(|f| f.key).collect();
    assert_eq!(keys, vec!["keys"]);
    assert!(!spec.fields[0].optional);
}

#[test]
fn send_transaction_takes_only_the_envelope() {
    let spec = send_transaction::spec();
    assert_eq!(spec.name, "sendTransaction");
    let keys: Vec<&str> = spec.fields.iter().map(|f| f.key).collect();
    assert_eq!(keys, vec!["transaction"]);
    assert!(!spec.fields[0].optional);
    let mut form = FormState::from_specs(&spec.fields);
    form.set_value("transaction", "AAAA".to_string());
    let built = send_transaction::build(&form).ok().unwrap();
    match built {
        ParamValue::Object(entries) => {
            assert_eq!(entries.len(), 1);
            assert_eq!(entries[0].0, "transaction");
            assert!(matches!(&entries[0].1, ParamValue::Text(t) if t == "AAAA"));
        }
        other => panic!("unexpected params {:?}", other),
    }
}

#[test]
fn untouched_optional_forms_validate_cleanly() {
    for spec in stellar_tui::app::methods::method_specs() {
        if spec.fields.iter().all(|f| f.optional) {
            let form = FormState::from_specs(&spec.fields);
            assert!(validate_request_form(&spec, &form).is_empty(), "{}", spec.name);
        }
    }
}

#[test]
fn errors_name_only_fields_of_the_form() {
    let spec = stellar_tui::app::methods::get_events::spec();
    let mut form = FormState::from_specs(&spec.fields);
    form.set_value("startLedger", "x".to_string());
    form.set_value("cursor", "c".to_string());
    form.set_value("contractIds", "a,b,c,d,e,f".to_string());
    form.set_value("limit", "0".to_string());
    form.set_value("xdrFormat", "xml".to_string());
    let errors = validate_request_form(&spec, &form);
    assert!(!errors.is_empty());
    for key in ["startLedger", "cursor", "contractIds", "type", "limit", "xdrFormat"] {
        assert!(errors.get(key).is_some(), "{}", key);
        assert!(spec.fields.iter().any(|f| f.key == key));
    }
    assert!(errors.get("authMode").is_none());
}
