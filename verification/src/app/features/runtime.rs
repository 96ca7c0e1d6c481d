//! Application lifecycle: construction, request dispatch, outcomes of outside work,
//! and transient status messages.

use vstd::prelude::*;

use crate::app::features::clock::{clock_now, duration_secs, instant_elapsed};
use crate::app::methods::params::{ParamValue, ParamView};
use crate::app::methods::method_params;
use crate::app::methods::{method_order, method_specs, ErrorMap, MethodSpec};
use crate::app::model::forms::{form_of_specs, FormState};
use crate::app::model::state::{App, AppView, StatusView};
use crate::app::model::types::{FocusPane, ModalState, TimedStatus};
use crate::rpc::types::RpcError;
use crate::settings::{Settings, SettingsView};
use crate::text::{concat, i64_text, owned, signed_decimal_text};

verus! {

/// What the event loop found when it looked for the outcome of a request.
pub enum PollOutcome {
    /// No outcome yet
    Waiting,
    /// The endpoint answered; `formatted` is the answer as pretty printed JSON
    Received { error: Option<RpcError>, formatted: String },
    /// The request failed before an answer arrived
    Failed(String),
    /// The request task ended without reporting
    Disconnected,
}

/// A request ready to be sent.
pub struct OutgoingRequest {
    /// RPC method name
    pub method: String,
    /// JSON-RPC params
    pub params: ParamValue,
    /// Endpoint of the active network
    pub endpoint: String,
}

/// The state a new application starts in.
pub open spec fn initial_app(settings: SettingsView, methods: Seq<MethodSpec>) -> AppView {
    AppView {
        focus: FocusPane::Methods,
        settings,
        selected_network: settings.active_network,
        ui_regions: None,
        modal: ModalState::Closed,
        modal_scroll: 0,
        modal_max_scroll: 0,
        zoomed_pane: None,
        methods,
        selected_method: 0,
        request_forms: methods.map_values(|m: MethodSpec| form_of_specs(m.fields@)),
        method_errors: methods.map_values(|m: MethodSpec| Map::<Seq<char>, Seq<char>>::empty()),
        network_editor: None,
        network_errors: Map::empty(),
        status: "Ready"@,
        timed_status: None,
        spinner_frame: 0,
        pending_request: false,
        last_response: Seq::empty(),
        paginated_response: None,
        response_page: 0,
        response_scroll: 0,
        response_search_query: Seq::empty(),
        response_search_cursor: 0,
        response_search_matches: Seq::empty(),
        response_search_current: 0,
        search_changed: false,
        response_selection_start: None,
        response_selection_end: None,
        response_selecting: false,
        wrap_metrics: None,
    }
}

impl AppView {
    /// The status line after `elapsed_secs` seconds since the timed status was set:
    /// the timed message while it lasts, else the plain status, the timed one dropped.
    pub open spec fn status_shown(self, elapsed_secs: u64) -> (AppView, Seq<char>) {
        match self.timed_status {
            Some(ts) => if elapsed_secs < ts.duration_secs {
                (self, ts.message)
            } else {
                (AppView { timed_status: None, ..self }, self.status)
            },
            None => (AppView { timed_status: None, ..self }, self.status),
        }
    }

    /// Sending the selected method: its parameters and the active endpoint, or the
    /// status that says why not.
    pub open spec fn after_execute(self) -> (AppView, Option<(Seq<char>, ParamView, Seq<char>)>) {
        let method = self.methods[self.selected_method as int];
        match method_params(method.id, self.active_form()) {
            Err(message) => (self.with_status("Params error: "@ + message, 5), None),
            Ok(params) => if self.settings.active_network < self.settings.networks.len() {
                (
                    AppView {
                        status: "Calling..."@,
                        spinner_frame: 0,
                        pending_request: true,
                        ..self
                    },
                    Some(
                        (
                            method.name@,
                            params,
                            self.settings.networks[self.settings.active_network as int].endpoint,
                        ),
                    ),
                )
            } else {
                (self.with_status("No active network"@, 5), None)
            },
        }
    }

    /// The state after the event loop reports the outcome of the pending request.
    pub open spec fn after_tick(self, outcome: PollOutcome) -> AppView {
        if !self.pending_request {
            self
        } else {
            match outcome {
                PollOutcome::Waiting => self,
                PollOutcome::Received { error, formatted } => {
                    let s = AppView {
                        pending_request: false,
                        status: "Ready"@,
                        last_response: formatted@,
                        ..self
                    };
                    let s = match error {
                        Some(e) => s.with_status(
                            "Error "@ + signed_decimal_text(e.code as int) + ": "@ + e.message@,
                            5,
                        ),
                        None => s.with_status("Completed"@, 5),
                    };
                    s.after_rebuild_pagination()
                },
                PollOutcome::Failed(err) => AppView {
                    pending_request: false,
                    status: "Ready"@,
                    last_response: Seq::empty(),
                    paginated_response: None,
                    wrap_metrics: None,
                    response_page: 0,
                    response_scroll: 0,
                    ..self
                }.with_status("Request failed: "@ + err@, 5).without_search(),
                PollOutcome::Disconnected => AppView {
                    pending_request: false,
                    status: "Ready"@,
                    ..self
                }.with_status("Request failed: channel closed"@, 5),
            }
        }
    }

    /// The state after the event loop reports whether saving the settings worked.
    pub open spec fn after_settings_save(
        self,
        outcome: Result<(), Seq<char>>,
        success_message: Seq<char>,
    ) -> AppView {
        match outcome {
            Ok(_) => self.with_status(success_message, 5),
            Err(e) => self.with_status("Failed to save settings: "@ + e, 5),
        }
    }

    /// The state after the event loop reports whether copying worked.
    pub open spec fn after_copy_done(
        self,
        outcome: Result<(), Seq<char>>,
        success_message: Seq<char>,
        clear_selection: bool,
    ) -> AppView {
        match outcome {
            Ok(_) => if clear_selection {
                self.with_status(success_message, 3).without_selection()
            } else {
                self.with_status(success_message, 3)
            },
            Err(e) => self.with_status("Copy failed: "@ + e, 5),
        }
    }
}

/// Abstract value of an outcome report.
pub open spec fn report_view(r: Result<(), String>) -> Result<(), Seq<char>> {
    match r {
        Ok(_) => Ok(()),
        Err(e) => Err(e@),
    }
}

/// Abstract value of a request ready to be sent.
pub open spec fn outgoing_view(r: Option<OutgoingRequest>) -> Option<(Seq<char>, ParamView, Seq<char>)> {
    match r {
        Some(o) => Some((o.method@, o.params.pview(), o.endpoint@)),
        None => None,
    }
}

impl App {
    /// Creates app state from settings and method specs.
    pub fn new(settings: Settings) -> (app: Self)
        ensures
            app@ == initial_app(settings@, app@.methods),
            app.methods.len() == method_order().len(),
            forall|i: int| 0 <= i < app.methods.len() ==> (#[trigger] app.methods[i]).describes(
                method_order()[i],
            ),
            app@.wf(),
    {
        let methods = method_specs();
        let selected_network = settings.active_network;
        let mut request_forms: Vec<FormState> = Vec::new();
        let mut method_errors: Vec<ErrorMap> = Vec::new();
        let mut i: usize = 0;
        while i < methods.len()
            invariant
                0 <= i <= methods.len(),
                request_forms@.map_values(|f: FormState| f@) =~= methods@.subrange(0, i as int).map_values(
                    |m: MethodSpec| form_of_specs(m.fields@),
                ),
                method_errors@.map_values(|m: ErrorMap| m@) =~= methods@.subrange(0, i as int).map_values(
                    |m: MethodSpec| Map::<Seq<char>, Seq<char>>::empty(),
                ),
            decreases methods.len() - i,
        {
            let form = FormState::from_specs(methods[i].fields.as_slice());
            let errors = ErrorMap::new();
            let ghost f0 = request_forms@;
            let ghost e0 = method_errors@;
            request_forms.push(form);
            method_errors.push(errors);
            assert(request_forms@.map_values(|f: FormState| f@) =~= f0.map_values(|f: FormState| f@).push(form@));
            assert(method_errors@.map_values(|m: ErrorMap| m@) =~= e0.map_values(|m: ErrorMap| m@).push(errors@));
            assert(methods@.subrange(0, i + 1) =~= methods@.subrange(0, i as int).push(methods@[i as int]));
            i += 1;
        }
        assert(methods@.subrange(0, methods.len() as int) =~= methods@);

        App {
            focus: FocusPane::Methods,
            settings,
            selected_network,
            ui_regions: None,
            modal: ModalState::Closed,
            modal_scroll: 0,
            modal_max_scroll: 0,
            zoomed_pane: None,
            methods,
            selected_method: 0,
            request_forms,
            method_errors,
            network_editor: None,
            network_errors: ErrorMap::new(),
            status: owned("Ready"),
            timed_status: None,
            spinner_frame: 0,
            pending_request: false,
            last_response: String::new(),
            paginated_response: None,
            response_page: 0,
            response_scroll: 0,
            response_search_query: String::new(),
            response_search_cursor: 0,
            response_search_matches: Vec::new(),
            response_search_current: 0,
            search_last_changed: None,
            response_selection_start: None,
            response_selection_end: None,
            response_selecting: false,
            wrap_metrics: None,
        }
    }

    /// Prepares the request of the selected method: on success marks it pending and
    /// returns what to send; otherwise sets the status that says why.
    pub fn execute_request(&mut self) -> (r: Option<OutgoingRequest>)
        requires
            old(self)@.wf(),
        ensures
            (final(self)@, outgoing_view(r)) == old(self)@.after_execute(),
            final(self)@.wf(),
    {
        let sel = self.selected_method;
        let params = match self.methods[sel].build_params(&self.request_forms[sel]) {
            Ok(value) => value,
            Err(message) => {
                self.set_timed_status(concat("Params error: ", message.as_str()), 5);
                return None;
            },
        };
        let endpoint = match self.settings.active_network() {
            Some(network) => network.endpoint.clone(),
            None => {
                self.set_timed_status(owned("No active network"), 5);
                return None;
            },
        };
        self.status = owned("Calling...");
        self.spinner_frame = 0;
        self.pending_request = true;
        Some(OutgoingRequest { method: owned(self.methods[sel].name), params, endpoint })
    }

    /// Applies the outcome of the pending request.
    pub fn tick(&mut self, outcome: PollOutcome)
        requires
            old(self)@.wf(),
        ensures
            final(self)@ == old(self)@.after_tick(outcome),
            final(self)@.wf(),
    {
        if !self.pending_request {
            return;
        }
        match outcome {
            PollOutcome::Waiting => {},
            PollOutcome::Received { error, formatted } => {
                self.pending_request = false;
                self.status = owned("Ready");
                match error {
                    Some(e) => {
                        let code = i64_text(e.code);
                        let head = concat("Error ", code.as_str());
                        let head = concat(head.as_str(), ": ");
                        self.set_timed_status(concat(head.as_str(), e.message.as_str()), 5);
                    },
                    None => {
                        self.set_timed_status(owned("Completed"), 5);
                    },
                }
                self.last_response = formatted;
                self.rebuild_pagination();
            },
            PollOutcome::Failed(err) => {
                self.pending_request = false;
                self.status = owned("Ready");
                self.set_timed_status(concat("Request failed: ", err.as_str()), 5);
                self.last_response = String::new();
                self.paginated_response = None;
                self.wrap_metrics = None;
                self.response_page = 0;
                self.response_scroll = 0;
                self.clear_response_search();
            },
            PollOutcome::Disconnected => {
                self.pending_request = false;
                self.status = owned("Ready");
                self.set_timed_status(owned("Request failed: channel closed"), 5);
            },
        }
    }

    /// Applies the outcome of saving the settings.
    pub fn finish_settings_save(&mut self, outcome: Result<(), String>, success_message: String)
        ensures
            final(self)@ == old(self)@.after_settings_save(report_view(outcome), success_message@),
    {
        match outcome {
            Ok(()) => self.set_timed_status(success_message, 5),
            Err(err) => self.set_timed_status(concat("Failed to save settings: ", err.as_str()), 5),
        }
    }

    /// Applies the outcome of copying to the clipboard.
    pub fn finish_copy(
        &mut self,
        outcome: Result<(), String>,
        success_message: String,
        clear_selection: bool,
    )
        ensures
            final(self)@ == old(self)@.after_copy_done(
                report_view(outcome),
                success_message@,
                clear_selection,
            ),
    {
        match outcome {
            Ok(()) => {
                self.set_timed_status(success_message, 3);
                if clear_selection {
                    self.clear_response_selection();
                }
            },
            Err(err) => self.set_timed_status(concat("Copy failed: ", err.as_str()), 5),
        }
    }

    /// The specification of the selected method.
    pub fn current_method(&self) -> (m: &MethodSpec)
        requires
            self@.wf(),
        ensures
            *m == self.methods[self.selected_method as int],
    {
        &self.methods[self.selected_method]
    }

    /// Sets transient status message for given seconds.
    pub fn set_timed_status(&mut self, message: String, secs: u64)
        ensures
            final(self)@ == old(self)@.with_status(message@, secs),
    {
        self.timed_status = Some(TimedStatus { message, created: clock_now(), duration_secs: secs });
    }

    /// The status line when `elapsed_secs` seconds have passed since the timed status
    /// was set; an expired timed status is dropped.
    pub fn status_after(&mut self, elapsed_secs: u64) -> (s: String)
        ensures
            (final(self)@, s@) == old(self)@.status_shown(elapsed_secs),
    {
        if let Some(ts) = &self.timed_status {
            if elapsed_secs < ts.duration_secs {
                return ts.message.clone();
            }
        }
        self.timed_status = None;
        self.status.clone()
    }

    /// Returns active status text and clears expired timed status.
    pub fn effective_status(&mut self) -> (s: String)
        ensures
            exists|elapsed: u64| (final(self)@, s@) == old(self)@.status_shown(elapsed),
    {
        let elapsed = match &self.timed_status {
            Some(ts) => duration_secs(&instant_elapsed(&ts.created)),
            None => 0,
        };
        self.status_after(elapsed)
    }
}

/// A request is sent exactly when the selected form gives parameters and a network
/// is active; a refused request says why in the status and sends nothing.
pub proof fn lemma_send_iff_params(s: AppView)
    requires
        s.wf(),
    ensures
        s.after_execute().1 is Some <==> (method_params(
            s.methods[s.selected_method as int].id,
            s.active_form(),
        ) is Ok && s.settings.active_network < s.settings.networks.len()),
        method_params(s.methods[s.selected_method as int].id, s.active_form()) matches Err(m) ==> s.after_execute().0.timed_status == Some(
            StatusView { message: "Params error: "@ + m, duration_secs: 5 },
        ),
{
}

/// The response shown is the response received: after a sent request, the reply
/// becomes the response text, its first page is shown from the top, and the request
/// is no longer pending.
pub proof fn lemma_send_then_receive(s: AppView, formatted: String)
    requires
        s.wf(),
        s.after_execute().1 is Some,
    ensures
        ({
            let t = s.after_execute().0.after_tick(
                PollOutcome::Received { error: None, formatted },
            );
            &&& t.last_response == formatted@
            &&& !t.pending_request
            &&& t.status == "Ready"@
            &&& t.timed_status == Some(StatusView { message: "Completed"@, duration_secs: 5 })
            &&& t.response_page == 0
            &&& t.response_scroll == 0
        }),
{
}

/// Without a pending request the outcome of polling changes nothing.
pub proof fn lemma_tick_idle(s: AppView, outcome: PollOutcome)
    requires
        !s.pending_request,
    ensures
        s.after_tick(outcome) == s,
{
}

} // verus!
