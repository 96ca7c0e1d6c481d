//! Root application state and its abstract value.

use std::time::Instant;

use vstd::prelude::*;

use crate::app::methods::{ErrorMap, MethodSpec};
use crate::app::model::forms::{FormState, FormView};
use crate::app::model::types::{
    page_count, FocusPane, ModalState, NetworkEditor, PaginatedResponse, TimedStatus, UiRegions,
    WrapMetrics,
};
use crate::settings::{Settings, SettingsView};

verus! {

/// Default number of lines per page for paginated responses.
pub const DEFAULT_PAGE_SIZE: usize = 200;

/// Root application state.
pub struct App {
    // Navigation and settings
    pub focus: FocusPane,
    pub settings: Settings,
    pub selected_network: usize,
    pub ui_regions: Option<UiRegions>,
    pub modal: ModalState,
    /// Scroll offset for modal content
    pub modal_scroll: u16,
    /// Maximum scroll offset for current modal content
    pub modal_max_scroll: u16,
    /// Fullscreen target pane when active
    pub zoomed_pane: Option<FocusPane>,
    // Methods and forms
    pub methods: Vec<MethodSpec>,
    pub selected_method: usize,
    pub request_forms: Vec<FormState>,
    pub method_errors: Vec<ErrorMap>,
    // Network editor
    pub network_editor: Option<NetworkEditor>,
    pub network_errors: ErrorMap,
    // Status and runtime
    pub status: String,
    /// Transient status message with timeout
    pub timed_status: Option<TimedStatus>,
    /// Frame counter for spinner animation
    pub spinner_frame: usize,
    /// Whether a request was sent and its outcome has not arrived yet
    pub pending_request: bool,
    // Response content and paging
    pub last_response: String,
    /// Pre split response pages for rendering
    pub paginated_response: Option<PaginatedResponse>,
    /// Current page index in paginated response
    pub response_page: usize,
    pub response_scroll: u16,
    // Search and selection
    /// Search query for response content
    pub response_search_query: String,
    /// Cursor position in search query
    pub response_search_cursor: usize,
    /// Line indices that match search query
    pub response_search_matches: Vec<usize>,
    /// Active index into search matches
    pub response_search_current: usize,
    /// Timestamp of last search query update
    pub search_last_changed: Option<Instant>,
    /// Selection start in wrapped row and column
    pub response_selection_start: Option<(usize, usize)>,
    /// Selection end in wrapped row and column
    pub response_selection_end: Option<(usize, usize)>,
    /// True while drag selection is active
    pub response_selecting: bool,
    // Render cache
    /// Cached wrapped line count for current page width
    pub wrap_metrics: Option<WrapMetrics>,
}

/// Abstract value of the network editor.
pub struct EditorView {
    pub form: FormView,
    pub editing_index: Option<usize>,
}

/// Abstract value of a timed status: its message and how long it shows.
pub struct StatusView {
    pub message: Seq<char>,
    pub duration_secs: u64,
}

/// Abstract value of a paginated response.
pub struct PagesView {
    pub lines: Seq<Seq<char>>,
    pub total_lines: usize,
    pub page_size: usize,
    pub total_pages: usize,
}

/// Abstract value of the application state. Clock readings are left out.
#[verifier::ext_equal]
pub struct AppView {
    pub focus: FocusPane,
    pub settings: SettingsView,
    pub selected_network: usize,
    pub ui_regions: Option<UiRegions>,
    pub modal: ModalState,
    pub modal_scroll: u16,
    pub modal_max_scroll: u16,
    pub zoomed_pane: Option<FocusPane>,
    pub methods: Seq<MethodSpec>,
    pub selected_method: usize,
    pub request_forms: Seq<FormView>,
    pub method_errors: Seq<Map<Seq<char>, Seq<char>>>,
    pub network_editor: Option<EditorView>,
    pub network_errors: Map<Seq<char>, Seq<char>>,
    pub status: Seq<char>,
    pub timed_status: Option<StatusView>,
    pub spinner_frame: usize,
    pub pending_request: bool,
    pub last_response: Seq<char>,
    pub paginated_response: Option<PagesView>,
    pub response_page: usize,
    pub response_scroll: u16,
    pub response_search_query: Seq<char>,
    pub response_search_cursor: usize,
    pub response_search_matches: Seq<usize>,
    pub response_search_current: usize,
    pub search_changed: bool,
    pub response_selection_start: Option<(usize, usize)>,
    pub response_selection_end: Option<(usize, usize)>,
    pub response_selecting: bool,
    pub wrap_metrics: Option<WrapMetrics>,
}

/// Abstract value of an optional network editor.
pub open spec fn editor_view(e: Option<NetworkEditor>) -> Option<EditorView> {
    match e {
        Some(ed) => Some(EditorView { form: ed.form@, editing_index: ed.editing_index }),
        None => None,
    }
}

/// Abstract value of an optional timed status.
pub open spec fn status_view(t: Option<TimedStatus>) -> Option<StatusView> {
    match t {
        Some(ts) => Some(StatusView { message: ts.message@, duration_secs: ts.duration_secs }),
        None => None,
    }
}

/// Abstract value of an optional paginated response.
pub open spec fn pages_view(p: Option<PaginatedResponse>) -> Option<PagesView> {
    match p {
        Some(pr) => Some(
            PagesView {
                lines: pr.line_texts(),
                total_lines: pr.total_lines,
                page_size: pr.page_size,
                total_pages: pr.total_pages,
            },
        ),
        None => None,
    }
}

impl View for App {
    type V = AppView;

    open spec fn view(&self) -> AppView {
        AppView {
            focus: self.focus,
            settings: self.settings@,
            selected_network: self.selected_network,
            ui_regions: self.ui_regions,
            modal: self.modal,
            modal_scroll: self.modal_scroll,
            modal_max_scroll: self.modal_max_scroll,
            zoomed_pane: self.zoomed_pane,
            methods: self.methods@,
            selected_method: self.selected_method,
            request_forms: self.request_forms@.map_values(|f: FormState| f@),
            method_errors: self.method_errors@.map_values(|m: ErrorMap| m@),
            network_editor: editor_view(self.network_editor),
            network_errors: self.network_errors@,
            status: self.status@,
            timed_status: status_view(self.timed_status),
            spinner_frame: self.spinner_frame,
            pending_request: self.pending_request,
            last_response: self.last_response@,
            paginated_response: pages_view(self.paginated_response),
            response_page: self.response_page,
            response_scroll: self.response_scroll,
            response_search_query: self.response_search_query@,
            response_search_cursor: self.response_search_cursor,
            response_search_matches: self.response_search_matches@,
            response_search_current: self.response_search_current,
            search_changed: self.search_last_changed is Some,
            response_selection_start: self.response_selection_start,
            response_selection_end: self.response_selection_end,
            response_selecting: self.response_selecting,
            wrap_metrics: self.wrap_metrics,
        }
    }
}

impl PagesView {
    /// Counts that agree with the lines, as splitting a response leaves them.
    pub open spec fn wf(self) -> bool {
        &&& self.total_lines == self.lines.len()
        &&& (self.total_lines > 0 ==> self.page_size > 0)
        &&& self.total_pages == page_count(self.total_lines as nat, self.page_size as nat)
    }
}

impl AppView {
    /// The consistency every operation relies on: one form and one error map per
    /// method, a selected method, and a well formed paginated response.
    pub open spec fn wf(self) -> bool {
        &&& self.request_forms.len() == self.methods.len()
        &&& self.method_errors.len() == self.methods.len()
        &&& self.selected_method < self.methods.len()
        &&& match self.paginated_response {
            Some(p) => p.wf(),
            None => true,
        }
    }

    /// The form of the selected method.
    pub open spec fn active_form(self) -> FormView {
        self.request_forms[self.selected_method as int]
    }

    /// The state with a new timed status.
    pub open spec fn with_status(self, message: Seq<char>, secs: u64) -> AppView {
        AppView {
            timed_status: Some(StatusView { message, duration_secs: secs }),
            ..self
        }
    }
}

} // verus!

verus! {

/// Abstract value of a command.
pub enum CommandView {
    SendRequest,
    Quit,
    SaveSettings { success_message: Seq<char> },
    CopyText { text: Seq<char>, success_message: Seq<char>, clear_selection: bool },
}

/// Abstract value of an optional command.
pub open spec fn command_view(c: Option<crate::app::model::types::AppCommand>) -> Option<CommandView> {
    match c {
        Some(crate::app::model::types::AppCommand::SendRequest) => Some(CommandView::SendRequest),
        Some(crate::app::model::types::AppCommand::Quit) => Some(CommandView::Quit),
        Some(crate::app::model::types::AppCommand::SaveSettings { success_message }) => Some(
            CommandView::SaveSettings { success_message: success_message@ },
        ),
        Some(
            crate::app::model::types::AppCommand::CopyText {
                text,
                success_message,
                clear_selection,
            },
        ) => Some(
            CommandView::CopyText {
                text: text@,
                success_message: success_message@,
                clear_selection,
            },
        ),
        None => None,
    }
}

/// `a - b`, or zero when `b` exceeds `a`.
pub open spec fn sat_sub(a: int, b: int) -> int {
    if a >= b {
        a - b
    } else {
        0
    }
}

/// `a + b`, or `max` when the sum exceeds it.
pub open spec fn sat_add(a: int, b: int, max: int) -> int {
    if a + b <= max {
        a + b
    } else {
        max
    }
}

} // verus!
