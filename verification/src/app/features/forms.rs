//! Request forms of the application: which fields can be edited, moving between
//! them and between methods, and keeping their errors current.

use vstd::prelude::*;

use crate::app::methods::{event_type_enabled, type_enables_filters};
use crate::app::methods::{request_errors, ErrorMap, MethodId};
use crate::app::model::forms::FormState;
use crate::app::model::state::{App, AppView};
use crate::text::{owned, text_eq};

verus! {

/// Whether a field key is one of the filters that need an event type.
pub open spec fn is_gated_key(key: Seq<char>) -> bool {
    key == "contractIds"@ || key == "topics"@
}

impl AppView {
    /// Whether the selected method is `getEvents`.
    pub open spec fn on_get_events(self) -> bool {
        self.methods[self.selected_method as int].id == MethodId::GetEvents
    }

    /// Whether the event type enables the gated filters; true for other methods.
    pub open spec fn type_enabled(self) -> bool {
        !self.on_get_events() || type_enables_filters(self.active_form().value_of("type"@))
    }

    /// Key of field `i` of the active form, empty when there is no such field.
    pub open spec fn field_key(self, i: int) -> Seq<char> {
        if 0 <= i < self.active_form().fields.len() {
            self.active_form().fields[i].spec.key@
        } else {
            Seq::empty()
        }
    }

    /// Whether field `i` of the active form can be edited.
    pub open spec fn field_enabled(self, i: int) -> bool {
        !self.on_get_events() || !is_gated_key(self.field_key(i)) || self.type_enabled()
    }

    /// First enabled field at or after `i`, up to the last field.
    pub open spec fn next_enabled_from(self, i: int) -> Option<int>
        decreases self.active_form().fields.len() - i,
    {
        if i < 0 || i >= self.active_form().fields.len() {
            None
        } else if self.field_enabled(i) {
            Some(i)
        } else {
            self.next_enabled_from(i + 1)
        }
    }

    /// Last enabled field at or before `i`.
    pub open spec fn prev_enabled_from(self, i: int) -> Option<int>
        decreases i + 1,
    {
        if i < 0 {
            None
        } else if self.field_enabled(i) {
            Some(i)
        } else {
            self.prev_enabled_from(i - 1)
        }
    }

    /// The state with the active form selecting field `i`.
    pub open spec fn with_selected_field(self, i: int) -> AppView {
        let sel = self.selected_method as int;
        AppView {
            request_forms: self.request_forms.update(
                sel,
                crate::app::model::forms::FormView {
                    selected: i as usize,
                    ..self.request_forms[sel]
                },
            ),
            ..self
        }
    }

    /// The state after moving to the next enabled field, clamped to the last field.
    pub open spec fn after_next_field(self) -> AppView {
        let n = self.active_form().fields.len() as int;
        let start = self.active_form().selected as int;
        if n == 0 {
            self
        } else {
            let lo = if start < n - 1 {
                start + 1
            } else {
                n - 1
            };
            match self.next_enabled_from(lo) {
                Some(j) => self.with_selected_field(j),
                None => self,
            }
        }
    }

    /// The state after moving to the previous enabled field.
    pub open spec fn after_prev_field(self) -> AppView {
        let n = self.active_form().fields.len() as int;
        let start = self.active_form().selected as int;
        if n == 0 {
            self
        } else {
            match self.prev_enabled_from(start - 1) {
                Some(j) => self.with_selected_field(j),
                None => self,
            }
        }
    }

    /// The state after moving to the next method, clamped to the last one.
    pub open spec fn after_next_method(self) -> AppView {
        if self.selected_method + 1 < self.methods.len() {
            AppView { selected_method: (self.selected_method + 1) as usize, ..self }
        } else {
            self
        }
    }

    /// The state after moving to the previous method, clamped to the first one.
    pub open spec fn after_prev_method(self) -> AppView {
        if self.selected_method > 0 {
            AppView { selected_method: (self.selected_method - 1) as usize, ..self }
        } else {
            self
        }
    }

    /// The state with the errors of method `index` recomputed from its form.
    pub open spec fn after_refresh_errors(self, index: int) -> AppView {
        if 0 <= index < self.methods.len() {
            AppView {
                method_errors: self.method_errors.update(
                    index,
                    request_errors(
                        self.methods[index].id,
                        self.methods[index].fields@,
                        self.request_forms[index],
                    ),
                ),
                ..self
            }
        } else {
            self
        }
    }
}

impl App {
    /// Returns mutable request form for selected method.
    pub fn active_request_form_mut(&mut self) -> (form: &mut FormState)
        requires
            old(self)@.wf(),
        ensures
            *form == old(self).request_forms[old(self).selected_method as int],
            final(self).request_forms@ == old(self).request_forms@.update(
                old(self).selected_method as int,
                *final(form),
            ),
            final(self)@ == (AppView {
                request_forms: old(self)@.request_forms.update(
                    old(self).selected_method as int,
                    (*final(form))@,
                ),
                ..old(self)@
            }),
    {
        let sel = self.selected_method;
        &mut self.request_forms[sel]
    }

    /// Whether the selected method is `getEvents`.
    fn on_get_events(&self) -> (b: bool)
        requires
            self@.wf(),
        ensures
            b == self@.on_get_events(),
    {
        self.current_method().id == MethodId::GetEvents
    }

    /// Checks whether GetEvents type enables gated fields.
    pub fn is_get_events_type_enabled(&self) -> (b: bool)
        requires
            self@.wf(),
        ensures
            b == self@.type_enabled(),
    {
        if !self.on_get_events() {
            return true;
        }
        let form = &self.request_forms[self.selected_method];
        match form.field_value("type") {
            Some(value) => event_type_enabled(&Some(owned(value))),
            None => false,
        }
    }

    /// Checks whether given request field index is enabled.
    pub fn is_request_field_enabled(&self, field_index: usize) -> (b: bool)
        requires
            self@.wf(),
        ensures
            b == self@.field_enabled(field_index as int),
    {
        if !self.on_get_events() {
            return true;
        }
        let form = &self.request_forms[self.selected_method];
        let key: &str = if field_index < form.fields.len() {
            form.fields[field_index].spec.key
        } else {
            ""
        };
        proof {
            reveal_strlit("");
            if field_index < form.fields.len() {
                assert(self@.active_form().fields[field_index as int] == form.fields@[field_index as int]@);
            }
            assert(key@ == self@.field_key(field_index as int));
        }
        if !text_eq(key, "contractIds") && !text_eq(key, "topics") {
            return true;
        }
        self.is_get_events_type_enabled()
    }

    /// Checks whether selected request field can be edited now.
    pub fn is_selected_request_editable(&self) -> (b: bool)
        requires
            self@.wf(),
        ensures
            b == self@.field_enabled(self@.active_form().selected as int),
    {
        let selected = self.request_forms[self.selected_method].selected;
        self.is_request_field_enabled(selected)
    }

    /// Selects next enabled request field.
    pub fn select_next_request_field(&mut self)
        requires
            old(self)@.wf(),
        ensures
            final(self)@ == old(self)@.after_next_field(),
    {
        let sel = self.selected_method;
        let form_len = self.request_forms[sel].fields.len();
        if form_len == 0 {
            return;
        }
        let start = self.request_forms[sel].selected;
        let mut index = if start < form_len - 1 {
            start + 1
        } else {
            form_len - 1
        };
        let ghost lo = index as int;
        while index < form_len
            invariant
                self@.wf(),
                self@ == old(self)@,
                sel == self.selected_method,
                form_len == self@.active_form().fields.len(),
                form_len > 0,
                start == old(self)@.active_form().selected,
                lo == (if start < form_len - 1 {
                    start + 1
                } else {
                    form_len - 1
                }),
                lo <= index <= form_len,
                old(self)@.next_enabled_from(lo) == old(self)@.next_enabled_from(index as int),
            decreases form_len - index,
        {
            if self.is_request_field_enabled(index) {
                assert(old(self)@.next_enabled_from(index as int) == Some(index as int));
                let ghost before = self.request_forms@;
                self.request_forms[sel].selected = index;
                assert(self.request_forms@.map_values(|f: FormState| f@) =~= before.map_values(
                    |f: FormState| f@,
                ).update(
                    sel as int,
                    crate::app::model::forms::FormView {
                        selected: index,
                        ..before[sel as int]@
                    },
                ));
                assert(self@ =~= old(self)@.with_selected_field(index as int));
                assert(old(self)@.active_form().selected == start);
                assert(old(self)@.after_next_field() == old(self)@.with_selected_field(index as int));
                return;
            }
            index += 1;
        }
    }

    /// Selects previous enabled request field.
    pub fn select_prev_request_field(&mut self)
        requires
            old(self)@.wf(),
        ensures
            final(self)@ == old(self)@.after_prev_field(),
    {
        let sel = self.selected_method;
        let form_len = self.request_forms[sel].fields.len();
        if form_len == 0 {
            return;
        }
        let start = self.request_forms[sel].selected;
        let mut index = start;
        while index > 0
            invariant
                self@.wf(),
                self@ == old(self)@,
                sel == self.selected_method,
                index <= start,
                start == self@.active_form().selected,
                form_len == self@.active_form().fields.len(),
                form_len > 0,
                old(self)@.prev_enabled_from(start - 1) == old(self)@.prev_enabled_from(
                    index - 1,
                ),
            decreases index,
        {
            index -= 1;
            if self.is_request_field_enabled(index) {
                assert(old(self)@.prev_enabled_from(index as int) == Some(index as int));
                let ghost before = self.request_forms@;
                self.request_forms[sel].selected = index;
                assert(self.request_forms@.map_values(|f: FormState| f@) =~= before.map_values(
                    |f: FormState| f@,
                ).update(
                    sel as int,
                    crate::app::model::forms::FormView {
                        selected: index,
                        ..before[sel as int]@
                    },
                ));
                assert(self@ =~= old(self)@.with_selected_field(index as int));
                assert(old(self)@.after_prev_field() == old(self)@.with_selected_field(index as int));
                return;
            }
        }
    }

    /// Returns validation errors for selected request form.
    pub fn active_errors(&self) -> (e: &ErrorMap)
        requires
            self@.wf(),
        ensures
            e@ == self@.method_errors[self.selected_method as int],
    {
        &self.method_errors[self.selected_method]
    }

    /// Returns title for request pane.
    pub fn active_request_title(&self) -> (t: String)
        ensures
            t@ == "Request"@,
    {
        owned("Request")
    }

    /// Selects next method in list.
    pub fn select_next_method(&mut self)
        ensures
            final(self)@ == old(self)@.after_next_method(),
    {
        if self.methods.len() > 0 && self.selected_method < self.methods.len() - 1 {
            self.selected_method += 1;
        }
    }

    /// Selects previous method in list.
    pub fn select_prev_method(&mut self)
        ensures
            final(self)@ == old(self)@.after_prev_method(),
    {
        if self.selected_method > 0 {
            self.selected_method -= 1;
        }
    }

    /// Refreshes validation errors for selected method.
    pub fn refresh_active_errors(&mut self)
        requires
            old(self)@.wf(),
        ensures
            final(self)@ == old(self)@.after_refresh_errors(old(self).selected_method as int),
    {
        self.refresh_method_errors(self.selected_method);
    }

    /// Refreshes validation errors for a method index.
    pub fn refresh_method_errors(&mut self, index: usize)
        requires
            old(self)@.wf(),
        ensures
            final(self)@ == old(self)@.after_refresh_errors(index as int),
    {
        if index < self.methods.len() {
            let errors = self.methods[index].validate(&self.request_forms[index]);
            let ghost before = self.method_errors@;
            self.method_errors[index] = errors;
            assert(self.method_errors@.map_values(|m: ErrorMap| m@) =~= before.map_values(
                |m: ErrorMap| m@,
            ).update(index as int, errors@));
        }
    }
}

} // verus!
