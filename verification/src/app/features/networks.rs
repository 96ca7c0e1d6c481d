//! The settings modal's network list: selecting, adding, editing and deleting
//! networks.

use vstd::prelude::*;

use crate::app::methods::raw_value;
use crate::app::methods::ErrorMap;
use crate::app::model::forms::{form_of_specs, FieldSpec, FieldType, FormState, FormView};
use crate::app::model::state::{command_view, App, AppView, CommandView, EditorView};
use crate::app::model::types::{AppCommand, NetworkEditor};
use crate::settings::{Network, NetworkView, SettingsView};
use crate::text::{char_count, has_prefix, owned, starts_with, trim, trimmed};

verus! {

/// The fields of the network editor.
pub open spec fn network_fields() -> Seq<FieldSpec> {
    seq![
        FieldSpec {
            key: "name",
            label: "Network name",
            field_type: FieldType::Text,
            optional: false,
            default_value: "",
            hint: "Display name",
        },
        FieldSpec {
            key: "endpoint",
            label: "RPC endpoint",
            field_type: FieldType::Text,
            optional: false,
            default_value: "",
            hint: "http(s) endpoint",
        },
    ]
}

/// Whether an endpoint starts with an HTTP scheme.
pub open spec fn is_http(endpoint: Seq<char>) -> bool {
    has_prefix(endpoint, "http://"@) || has_prefix(endpoint, "https://"@)
}

/// Errors of a network's name and endpoint: both required, the endpoint with an
/// HTTP scheme.
pub open spec fn network_errors_of(name: Seq<char>, endpoint: Seq<char>) -> Map<Seq<char>, Seq<char>> {
    let m = if trimmed(name).len() == 0 {
        Map::empty().insert("name"@, "Required"@)
    } else {
        Map::empty()
    };
    if trimmed(endpoint).len() == 0 {
        m.insert("endpoint"@, "Required"@)
    } else if !is_http(endpoint) {
        m.insert("endpoint"@, "Must start with http(s)"@)
    } else {
        m
    }
}

impl AppView {
    /// The state after moving to the next network, clamped to the last one.
    pub open spec fn after_next_network(self) -> AppView {
        if self.selected_network + 1 < self.settings.networks.len() {
            AppView { selected_network: (self.selected_network + 1) as usize, ..self }
        } else {
            self
        }
    }

    /// The state after moving to the previous network, clamped to the first one.
    pub open spec fn after_prev_network(self) -> AppView {
        if self.selected_network > 0 {
            AppView { selected_network: (self.selected_network - 1) as usize, ..self }
        } else {
            self
        }
    }

    /// The state with the network editor's errors recomputed from its fields.
    pub open spec fn after_refresh_network_errors(self) -> AppView {
        match self.network_editor {
            Some(e) => AppView {
                network_errors: network_errors_of(
                    raw_value(e.form, "name"@),
                    raw_value(e.form, "endpoint"@),
                ),
                ..self
            },
            None => self,
        }
    }

    /// The editor form for a new network, or filled from network `index`.
    pub open spec fn editor_form(self, index: Option<usize>) -> FormView {
        let blank = form_of_specs(network_fields());
        match index {
            Some(i) => if i < self.settings.networks.len() {
                blank.after_set_value("name"@, self.settings.networks[i as int].name).after_set_value(
                    "endpoint"@,
                    self.settings.networks[i as int].endpoint,
                )
            } else {
                blank
            },
            None => blank,
        }
    }

    /// The state after opening the network editor.
    pub open spec fn after_start_editor(self, index: Option<usize>) -> AppView {
        AppView {
            network_editor: Some(EditorView { form: self.editor_form(index), editing_index: index }),
            ..self
        }.after_refresh_network_errors()
    }

    /// Saving the network editor: with a name and an HTTP endpoint the network is
    /// stored (replacing network `i` when editing it, else appended) and the settings
    /// are to be saved; otherwise the editor stays open with its errors.
    pub open spec fn after_save_editor(self) -> (AppView, Option<CommandView>) {
        match self.network_editor {
            None => (self, None),
            Some(e) => {
                let name = trimmed(raw_value(e.form, "name"@));
                let endpoint = trimmed(raw_value(e.form, "endpoint"@));
                if name.len() == 0 || endpoint.len() == 0 {
                    (
                        AppView {
                            network_errors: network_errors_of(name, endpoint),
                            ..self.with_status("Network name and endpoint are required"@, 5)
                        },
                        None,
                    )
                } else if !is_http(endpoint) {
                    (
                        AppView {
                            network_errors: network_errors_of(name, endpoint),
                            ..self.with_status("Endpoint must start with http:// or https://"@, 5)
                        },
                        None,
                    )
                } else {
                    let network = NetworkView { name, endpoint };
                    let nets = self.settings.networks;
                    let nets2 = match e.editing_index {
                        Some(i) => if i < nets.len() {
                            nets.update(i as int, network)
                        } else {
                            nets
                        },
                        None => nets.push(network),
                    };
                    let selected = if self.selected_network >= nets2.len() {
                        if nets2.len() > 0 {
                            (nets2.len() - 1) as usize
                        } else {
                            0
                        }
                    } else {
                        self.selected_network
                    };
                    (
                        AppView {
                            network_editor: None,
                            settings: SettingsView { networks: nets2, ..self.settings },
                            selected_network: selected,
                            ..self
                        },
                        Some(CommandView::SaveSettings { success_message: "Network saved"@ }),
                    )
                }
            },
        }
    }

    /// Deleting the selected network: refused for the last one; otherwise the network
    /// is removed, the active and selected indices stay in range, and the settings are
    /// to be saved.
    pub open spec fn after_delete_network(self) -> (AppView, Option<CommandView>) {
        let nets = self.settings.networks;
        if nets.len() <= 1 {
            (self.with_status("At least one network is required"@, 5), None)
        } else if self.selected_network < nets.len() {
            let nets2 = nets.remove(self.selected_network as int);
            let active = if self.settings.active_network >= nets2.len() {
                (nets2.len() - 1) as usize
            } else {
                self.settings.active_network
            };
            let selected = if self.selected_network >= nets2.len() {
                (nets2.len() - 1) as usize
            } else {
                self.selected_network
            };
            (
                AppView {
                    settings: SettingsView { networks: nets2, active_network: active },
                    selected_network: selected,
                    ..self
                },
                Some(CommandView::SaveSettings { success_message: "Network deleted"@ }),
            )
        } else {
            (self, None)
        }
    }
}

/// The fields of the network editor.
pub fn network_field_specs() -> (r: Vec<FieldSpec>)
    ensures
        r@ == network_fields(),
{
    let r = vec![
        FieldSpec {
            key: "name",
            label: "Network name",
            field_type: FieldType::Text,
            optional: false,
            default_value: "",
            hint: "Display name",
        },
        FieldSpec {
            key: "endpoint",
            label: "RPC endpoint",
            field_type: FieldType::Text,
            optional: false,
            default_value: "",
            hint: "http(s) endpoint",
        },
    ];
    assert(r@ =~= network_fields());
    r
}

/// Whether an endpoint starts with an HTTP scheme.
fn http_endpoint(endpoint: &str) -> (b: bool)
    ensures
        b == is_http(endpoint@),
{
    starts_with(endpoint, "http://") || starts_with(endpoint, "https://")
}

/// Errors of a network's name and endpoint.
pub fn network_errors_from_values(name: &str, endpoint: &str) -> (r: ErrorMap)
    ensures
        r@ == network_errors_of(name@, endpoint@),
{
    let mut errors = ErrorMap::new();
    if char_count(trim(name).as_str()) == 0 {
        errors.insert("name", "Required");
    }
    if char_count(trim(endpoint).as_str()) == 0 {
        errors.insert("endpoint", "Required");
    } else if !http_endpoint(endpoint) {
        errors.insert("endpoint", "Must start with http(s)");
    }
    errors
}

/// Value of a field, or the empty text when the form lacks it.
fn value_or_empty(form: &FormState, key: &str) -> (v: String)
    ensures
        v@ == raw_value(form@, key@),
{
    match form.field_value(key) {
        Some(value) => owned(value),
        None => String::new(),
    }
}

impl App {
    /// Selects next network in settings list.
    pub fn select_next_network(&mut self)
        ensures
            final(self)@ == old(self)@.after_next_network(),
    {
        if self.settings.networks.len() > 0 && self.selected_network
            < self.settings.networks.len() - 1 {
            self.selected_network += 1;
        }
    }

    /// Selects previous network in settings list.
    pub fn select_prev_network(&mut self)
        ensures
            final(self)@ == old(self)@.after_prev_network(),
    {
        if self.selected_network > 0 {
            self.selected_network -= 1;
        }
    }

    /// Opens network editor with optional existing entry.
    pub fn start_network_editor(&mut self, index: Option<usize>)
        ensures
            final(self)@ == old(self)@.after_start_editor(index),
    {
        let specs = network_field_specs();
        let mut form = FormState::from_specs(specs.as_slice());
        if let Some(i) = index {
            if i < self.settings.networks.len() {
                form.set_value("name", self.settings.networks[i].name.clone());
                form.set_value("endpoint", self.settings.networks[i].endpoint.clone());
            }
        }
        self.network_editor = Some(NetworkEditor { form, editing_index: index });
        self.refresh_network_errors();
    }

    /// Validates the network editor and stores the network; asks to save the settings.
    pub fn save_network_editor(&mut self) -> (r: Option<AppCommand>)
        ensures
            (final(self)@, command_view(r)) == old(self)@.after_save_editor(),
    {
        let editor = match self.network_editor.take() {
            Some(editor) => editor,
            None => return None,
        };
        let name = trim(value_or_empty(&editor.form, "name").as_str());
        let endpoint = trim(value_or_empty(&editor.form, "endpoint").as_str());

        if char_count(name.as_str()) == 0 || char_count(endpoint.as_str()) == 0 {
            self.set_timed_status(owned("Network name and endpoint are required"), 5);
            self.network_errors = network_errors_from_values(name.as_str(), endpoint.as_str());
            self.network_editor = Some(editor);
            return None;
        }
        if !http_endpoint(endpoint.as_str()) {
            self.set_timed_status(owned("Endpoint must start with http:// or https://"), 5);
            self.network_errors = network_errors_from_values(name.as_str(), endpoint.as_str());
            self.network_editor = Some(editor);
            return None;
        }

        let network = Network { name, endpoint };
        let ghost nv = network@;
        let ghost before = self.settings.networks@;
        match editor.editing_index {
            Some(index) => {
                if index < self.settings.networks.len() {
                    self.settings.networks.set(index, network);
                    assert(self.settings.networks@.map_values(|n: Network| n@) =~= before.map_values(
                        |n: Network| n@,
                    ).update(index as int, nv));
                }
            },
            None => {
                self.settings.networks.push(network);
                assert(self.settings.networks@.map_values(|n: Network| n@) =~= before.map_values(
                    |n: Network| n@,
                ).push(nv));
            },
        }

        if self.selected_network >= self.settings.networks.len() {
            self.selected_network = if self.settings.networks.len() > 0 {
                self.settings.networks.len() - 1
            } else {
                0
            };
        }
        Some(AppCommand::SaveSettings { success_message: owned("Network saved") })
    }

    /// Deletes selected network when allowed; asks to save the settings.
    pub fn delete_network(&mut self) -> (r: Option<AppCommand>)
        ensures
            (final(self)@, command_view(r)) == old(self)@.after_delete_network(),
    {
        if self.settings.networks.len() <= 1 {
            self.set_timed_status(owned("At least one network is required"), 5);
            return None;
        }
        if self.selected_network < self.settings.networks.len() {
            let ghost before = self.settings.networks@;
            self.settings.networks.remove(self.selected_network);
            assert(self.settings.networks@.map_values(|n: Network| n@) =~= before.map_values(
                |n: Network| n@,
            ).remove(self.selected_network as int));
            if self.settings.active_network >= self.settings.networks.len() {
                self.settings.active_network = self.settings.networks.len() - 1;
            }
            if self.selected_network >= self.settings.networks.len() {
                self.selected_network = self.settings.networks.len() - 1;
            }
            return Some(AppCommand::SaveSettings { success_message: owned("Network deleted") });
        }
        None
    }

    /// Rebuilds network editor validation errors.
    pub fn refresh_network_errors(&mut self)
        ensures
            final(self)@ == old(self)@.after_refresh_network_errors(),
    {
        if let Some(editor) = &self.network_editor {
            let name = value_or_empty(&editor.form, "name");
            let endpoint = value_or_empty(&editor.form, "endpoint");
            self.network_errors = network_errors_from_values(name.as_str(), endpoint.as_str());
        }
    }
}

/// Deleting a network never removes the last one, and leaves the active and
/// selected networks within the list.
pub proof fn lemma_delete_keeps_networks(s: AppView)
    requires
        s.settings.networks.len() >= 1,
        s.settings.active_network < s.settings.networks.len(),
    ensures
        ({
            let (t, cmd) = s.after_delete_network();
            &&& t.settings.networks.len() >= 1
            &&& t.settings.active_network < t.settings.networks.len()
            &&& (cmd is Some ==> t.settings.networks.len() == s.settings.networks.len() - 1
                && t.selected_network < t.settings.networks.len())
            &&& (cmd is None ==> t.settings == s.settings)
        }),
{
}

/// Saving a new network appends it, trimmed, and asks to save the settings; an
/// invalid one leaves the networks as they were.
pub proof fn lemma_save_new_network(s: AppView)
    requires
        s.network_editor matches Some(e) && e.editing_index is None,
    ensures
        ({
            let e = s.network_editor->0;
            let name = trimmed(raw_value(e.form, "name"@));
            let endpoint = trimmed(raw_value(e.form, "endpoint"@));
            let (t, cmd) = s.after_save_editor();
            if name.len() > 0 && endpoint.len() > 0 && is_http(endpoint) {
                &&& t.settings.networks == s.settings.networks.push(NetworkView { name, endpoint })
                &&& t.network_editor is None
                &&& cmd is Some
            } else {
                &&& t.settings == s.settings
                &&& t.network_editor == s.network_editor
                &&& cmd is None
            }
        }),
{
}

} // verus!
