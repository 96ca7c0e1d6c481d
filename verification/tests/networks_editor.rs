//! The settings modal: adding, editing, deleting and cycling networks.

use stellar_tui::app::{App, AppCommand, KeyCode, KeyEvent, KeyModifiers, ModalState};
use stellar_tui::settings::Settings;

fn press(app: &mut App, code: KeyCode) -> Option<AppCommand> {
    app.handle_key(KeyEvent::new(code, KeyModifiers::none()))
}

fn type_text(app: &mut App, text: &str) {
    for c in text.chars() {
        press(app, KeyCode::Char(c));
    }
}

#[test]
fn adding_a_network_asks_to_save_the_settings() {
    let mut app = App::new(Settings::default_settings());
    press(&mut app, KeyCode::Char('s'));
    assert_eq!(app.modal, ModalState::Settings);
    press(&mut app, KeyCode::Char('a'));
    assert!(app.network_editor.is_some());
    assert_eq!(app.network_errors.get("name").map(|s| s.as_str()), Some("Required"));

    type_text(&mut app, " Local ");
    press(&mut app, KeyCode::Down);
    type_text(&mut app, "localhost:8000");
    assert_eq!(
        app.network_errors.get("endpoint").map(|s| s.as_str()),
        Some("Must start with http(s)")
    );
    let refused = app.handle_key(KeyEvent::new(KeyCode::Char('s'), KeyModifiers::control()));
    assert!(refused.is_none());
    assert!(app.network_editor.is_some());
    assert_eq!(
        app.timed_status.as_ref().expect("status").message,
        "Endpoint must start with http:// or https://"
    );

    for _ in 0.."localhost:8000".len() {
        press(&mut app, KeyCode::Backspace);
    }
    type_text(&mut app, "http://localhost:8000");
    let saved = app.handle_key(KeyEvent::new(KeyCode::Char('s'), KeyModifiers::control()));
    match saved {
        Some(AppCommand::SaveSettings { success_message }) => {
            assert_eq!(success_message, "Network saved");
            app.finish_settings_save(Ok(()), success_message);
        }
        other => panic!("unexpected {:?}", other),
    }
    assert!(app.network_editor.is_none());
    assert_eq!(app.settings.networks.len(), 2);
    assert_eq!(app.settings.networks[1].name, "Local");
    assert_eq!(app.settings.networks[1].endpoint, "http://localhost:8000");
    assert_eq!(app.timed_status.as_ref().expect("status").message, "Network saved");
}

#[test]
fn a_failed_save_is_reported() {
    let mut app = App::new(Settings::default_settings());
    app.finish_settings_save(Err("disk full".to_string()), "Network saved".to_string());
    assert_eq!(
        app.timed_status.as_ref().expect("status").message,
        "Failed to save settings: disk full"
    );
}

#[test]
fn the_last_network_cannot_be_deleted() {
    let mut app = App::new(Settings::default_settings());
    press(&mut app, KeyCode::Char('s'));
    let result = press(&mut app, KeyCode::Char('d'));
    assert!(result.is_none());
    assert_eq!(app.settings.networks.len(), 1);
    assert_eq!(
        app.timed_status.as_ref().expect("status").message,
        "At least one network is required"
    );
}

#[test]
fn editing_and_deleting_keep_indices_in_range() {
    let mut app = App::new(Settings::default_settings());
    press(&mut app, KeyCode::Char('s'));
    press(&mut app, KeyCode::Char('a'));
    type_text(&mut app, "Second");
    press(&mut app, KeyCode::Down);
    type_text(&mut app, "https://second.example");
    app.handle_key(KeyEvent::new(KeyCode::Char('s'), KeyModifiers::control()));
    assert_eq!(app.settings.networks.len(), 2);

    press(&mut app, KeyCode::Down);
    assert_eq!(app.selected_network, 1);
    press(&mut app, KeyCode::Char('e'));
    let editor = app.network_editor.as_ref().expect("editor open");
    assert_eq!(editor.editing_index, Some(1));
    assert_eq!(editor.form.field_value("name"), Some("Second"));
    press(&mut app, KeyCode::Esc);
    assert!(app.network_editor.is_none());
    assert_eq!(app.modal, ModalState::Settings);

    app.settings.active_network = 1;
    let deleted = press(&mut app, KeyCode::Char('d'));
    assert!(matches!(deleted, Some(AppCommand::SaveSettings { .. })));
    assert_eq!(app.settings.networks.len(), 1);
    assert_eq!(app.settings.active_network, 0);
    assert_eq!(app.selected_network, 0);

    press(&mut app, KeyCode::Esc);
    assert_eq!(app.modal, ModalState::Closed);
}

#[test]
fn n_cycles_to_the_next_network() {
    let mut app = App::new(Settings::default_settings());
    app.settings.networks.push(stellar_tui::settings::Network {
        name: "Other".to_string(),
        endpoint: "https://other".to_string(),
    });
    let cmd = press(&mut app, KeyCode::Char('n'));
    assert_eq!(app.settings.active_network, 1);
    assert_eq!(app.selected_network, 1);
    match cmd {
        Some(AppCommand::SaveSettings { success_message }) => {
            assert_eq!(success_message, "Switched to Other")
        }
        other => panic!("unexpected {:?}", other),
    }
    press(&mut app, KeyCode::Char('n'));
    assert_eq!(app.settings.active_network, 0);
}

#[test]
fn quit_and_send_commands() {
    let mut app = App::new(Settings::default_settings());
    assert!(matches!(press(&mut app, KeyCode::Char('r')), Some(AppCommand::SendRequest)));
    assert!(matches!(press(&mut app, KeyCode::Char('q')), Some(AppCommand::Quit)));
    app.focus = stellar_tui::app::FocusPane::Request;
    assert!(press(&mut app, KeyCode::Char('q')).is_none());
    let ctrl_q = app.handle_key(KeyEvent::new(KeyCode::Char('q'), KeyModifiers::control()));
    assert!(matches!(ctrl_q, Some(AppCommand::Quit)));
}
