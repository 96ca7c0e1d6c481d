//! Network configuration: the list of RPC endpoints and which one is active.

use vstd::prelude::*;

use crate::text::owned;

verus! {

/// Network configuration.
#[derive(Debug, Clone)]
pub struct Network {
    /// Display name
    pub name: String,
    /// Stellar RPC endpoint
    pub endpoint: String,
}

/// Application settings.
#[derive(Debug, Clone)]
pub struct Settings {
    /// Ordered list of networks
    pub networks: Vec<Network>,
    /// Index into networks for the currently active network
    pub active_network: usize,
}

/// Abstract value of a network.
pub struct NetworkView {
    pub name: Seq<char>,
    pub endpoint: Seq<char>,
}

/// Abstract value of the settings.
pub struct SettingsView {
    pub networks: Seq<NetworkView>,
    pub active_network: usize,
}

impl View for Network {
    type V = NetworkView;

    open spec fn view(&self) -> NetworkView {
        NetworkView { name: self.name@, endpoint: self.endpoint@ }
    }
}

impl View for Settings {
    type V = SettingsView;

    open spec fn view(&self) -> SettingsView {
        SettingsView {
            networks: self.networks@.map_values(|n: Network| n@),
            active_network: self.active_network,
        }
    }
}

/// The built in settings: the Stellar testnet, active.
pub open spec fn default_settings_view() -> SettingsView {
    SettingsView {
        networks: seq![
            NetworkView {
                name: "Testnet"@,
                endpoint: "https://soroban-testnet.stellar.org"@,
            },
        ],
        active_network: 0,
    }
}

impl SettingsView {
    /// The settings after making network `index` active, when it exists.
    pub open spec fn after_set_active(self, index: usize) -> SettingsView {
        if index < self.networks.len() {
            SettingsView { active_network: index, ..self }
        } else {
            self
        }
    }
}

impl Settings {
    /// Returns a reference to the currently active network, if valid.
    pub fn active_network(&self) -> (r: Option<&Network>)
        ensures
            match r {
                Some(n) => self.active_network < self.networks.len() && *n
                    == self.networks[self.active_network as int],
                None => self.active_network >= self.networks.len(),
            },
    {
        if self.active_network < self.networks.len() {
            Some(&self.networks[self.active_network])
        } else {
            None
        }
    }

    /// Switches the active network to the given index when it exists.
    pub fn set_active_network(&mut self, index: usize)
        ensures
            final(self)@ == old(self)@.after_set_active(index),
            final(self).networks == old(self).networks,
    {
        if index < self.networks.len() {
            self.active_network = index;
        }
    }

    /// Returns the built in default settings.
    pub fn default_settings() -> (r: Self)
        ensures
            r@ == default_settings_view(),
    {
        let mut networks: Vec<Network> = Vec::new();
        networks.push(
            Network {
                name: owned("Testnet"),
                endpoint: owned("https://soroban-testnet.stellar.org"),
            },
        );
        let r = Settings { networks, active_network: 0 };
        assert(r@.networks =~= default_settings_view().networks);
        r
    }
}

} // verus!
