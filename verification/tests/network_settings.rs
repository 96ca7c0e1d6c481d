//! Active network selection and the network list of the settings modal.

use stellar_tui::settings::{Network, Settings};

#[test]
fn set_active_network_is_bounds_checked() {
    let mut settings = Settings {
        networks: vec![
            Network {
                name: "A".to_string(),
                endpoint: "https://a".to_string(),
            },
            Network {
                name: "B".to_string(),
                endpoint: "https://b".to_string(),
            },
        ],
        active_network: 0,
    };

    settings.set_active_network(1);
    assert_eq!(settings.active_network, 1);

    settings.set_active_network(99);
    assert_eq!(settings.active_network, 1);
}
