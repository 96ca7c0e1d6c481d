//! Interactive forms: field specifications, field values and a caret per field.
//!
//! A form is modelled by [`FormView`]: the sequence of its fields, each with its
//! specification, its text and its caret (a character position), plus the index of
//! the selected field and the scroll offset of the viewport.

use vstd::prelude::*;

use crate::text::{
    all_digits, char_count, insert_at, is_digit, owned, remove_range, text_eq,
};

verus! {

/// Data type of a form field, used for validation and UI badges.
#[derive(Debug, Clone, Copy, PartialEq, Eq, Structural)]
pub enum FieldType {
    /// Text input
    Text,
    /// Unsigned integer input
    Number,
    /// Comma-separated list of values
    List,
    /// Raw JSON input
    Json,
}

/// Static specification for a single form field.
#[derive(Debug, Clone, Copy)]
pub struct FieldSpec {
    /// Unique identifier used as the map key in params/errors
    pub key: &'static str,
    /// Label shown in the UI
    pub label: &'static str,
    /// Expected data type
    pub field_type: FieldType,
    /// If true, an empty value is acceptable
    pub optional: bool,
    /// Default value
    pub default_value: &'static str,
    /// Short description shown in the detail area
    pub hint: &'static str,
}

/// Runtime state of a single form field (spec + current value).
#[derive(Debug, Clone)]
pub struct FieldState {
    /// Specification this field was built from
    pub spec: FieldSpec,
    /// Current value
    pub value: String,
    /// Cursor position in character units
    pub cursor: usize,
}

/// Mutable state for an interactive form.
#[derive(Debug, Clone)]
pub struct FormState {
    /// Ordered list of field states
    pub fields: Vec<FieldState>,
    /// Index of the currently selected field
    pub selected: usize,
    /// Scroll offset for viewport based rendering
    pub scroll: usize,
}

/// Abstract value of a field.
pub struct FieldView {
    pub spec: FieldSpec,
    pub value: Seq<char>,
    pub cursor: usize,
}

/// Abstract value of a form.
pub struct FormView {
    pub fields: Seq<FieldView>,
    pub selected: usize,
    pub scroll: usize,
}

impl View for FieldState {
    type V = FieldView;

    open spec fn view(&self) -> FieldView {
        FieldView { spec: self.spec, value: self.value@, cursor: self.cursor }
    }
}

impl View for FormState {
    type V = FormView;

    open spec fn view(&self) -> FormView {
        FormView {
            fields: self.fields@.map_values(|f: FieldState| f@),
            selected: self.selected,
            scroll: self.scroll,
        }
    }
}

/// A field as a form starts with it: its default value, the caret after it.
pub open spec fn initial_field(spec: FieldSpec) -> FieldView {
    FieldView { spec, value: spec.default_value@, cursor: spec.default_value@.len() as usize }
}

/// The form built from a list of field specifications.
pub open spec fn form_of_specs(specs: Seq<FieldSpec>) -> FormView {
    FormView {
        fields: specs.map_values(|s: FieldSpec| initial_field(s)),
        selected: 0,
        scroll: 0,
    }
}

/// Index of the first field at or after `i` whose key is `key`.
pub open spec fn key_index_from(fields: Seq<FieldView>, key: Seq<char>, i: int) -> Option<int>
    decreases fields.len() - i,
{
    if i < 0 || i >= fields.len() {
        None
    } else if fields[i].spec.key@ == key {
        Some(i)
    } else {
        key_index_from(fields, key, i + 1)
    }
}

/// The smaller of two numbers.
pub open spec fn min_nat(a: int, b: int) -> int {
    if a <= b {
        a
    } else {
        b
    }
}

/// Whether typing `ch` into the field first clears its default value: the field shows
/// a non-empty default, unless the default is numeric and `ch` is `0`.
pub open spec fn clears_default(f: FieldView, ch: char) -> bool {
    let d = f.spec.default_value@;
    &&& d.len() > 0
    &&& f.value == d
    &&& !((forall|i: int| 0 <= i < d.len() ==> is_digit(#[trigger] d[i])) && ch == '0')
}

/// The field after typing `ch` at its caret.
pub open spec fn field_after_insert(f: FieldView, ch: char) -> FieldView {
    let v = if clears_default(f, ch) {
        Seq::<char>::empty()
    } else {
        f.value
    };
    let c: int = if clears_default(f, ch) {
        0
    } else {
        f.cursor as int
    };
    let at = min_nat(c, v.len() as int);
    FieldView {
        value: v.subrange(0, at) + seq![ch] + v.subrange(at, v.len() as int),
        cursor: (c + 1) as usize,
        ..f
    }
}

/// The field after deleting the character before its caret.
pub open spec fn field_after_backspace(f: FieldView) -> FieldView {
    if f.cursor == 0 {
        f
    } else {
        let n = f.value.len() as int;
        let lo = min_nat(f.cursor - 1, n);
        let hi = min_nat(f.cursor as int, n);
        FieldView {
            value: f.value.subrange(0, lo) + f.value.subrange(hi, n),
            cursor: (f.cursor - 1) as usize,
            ..f
        }
    }
}

/// The field after deleting the character at its caret.
pub open spec fn field_after_delete(f: FieldView) -> FieldView {
    if f.cursor >= f.value.len() {
        f
    } else {
        FieldView {
            value: f.value.subrange(0, f.cursor as int) + f.value.subrange(
                f.cursor + 1,
                f.value.len() as int,
            ),
            ..f
        }
    }
}

/// The field with its caret one character to the left, stopping at the start.
pub open spec fn field_after_left(f: FieldView) -> FieldView {
    FieldView { cursor: if f.cursor > 0 { (f.cursor - 1) as usize } else { 0 }, ..f }
}

/// The field with its caret one character to the right, stopping at the end.
pub open spec fn field_after_right(f: FieldView) -> FieldView {
    FieldView {
        cursor: if f.cursor < f.value.len() { (f.cursor + 1) as usize } else { f.cursor },
        ..f
    }
}

impl FormView {
    /// Whether a field is selected.
    pub open spec fn has_current(self) -> bool {
        self.selected < self.fields.len()
    }

    /// The form with the selected field replaced by `f`.
    pub open spec fn with_current(self, f: FieldView) -> FormView {
        if self.has_current() {
            FormView { fields: self.fields.update(self.selected as int, f), ..self }
        } else {
            self
        }
    }

    /// Value of the first field with the given key.
    pub open spec fn value_of(self, key: Seq<char>) -> Option<Seq<char>> {
        match key_index_from(self.fields, key, 0) {
            Some(i) => Some(self.fields[i].value),
            None => None,
        }
    }

    /// The form after moving the selection down, stopping at the last field.
    pub open spec fn after_select_next(self) -> FormView {
        if self.selected + 1 < self.fields.len() {
            FormView { selected: (self.selected + 1) as usize, ..self }
        } else {
            self
        }
    }

    /// The form after moving the selection up, stopping at the first field.
    pub open spec fn after_select_prev(self) -> FormView {
        if self.selected > 0 {
            FormView { selected: (self.selected - 1) as usize, ..self }
        } else {
            self
        }
    }

    /// The scroll offset that keeps the selected field inside a viewport of
    /// `height` rows.
    pub open spec fn visible_scroll(self, height: int) -> int {
        if height == 0 || self.fields.len() == 0 {
            0
        } else if self.selected < self.scroll {
            self.selected as int
        } else if self.selected > self.scroll + height - 1 {
            self.selected - (height - 1)
        } else {
            self.scroll as int
        }
    }

    /// The form after setting the first field with `key` to `value`, caret at its end.
    pub open spec fn after_set_value(self, key: Seq<char>, value: Seq<char>) -> FormView {
        match key_index_from(self.fields, key, 0) {
            Some(i) => FormView {
                fields: self.fields.update(
                    i,
                    FieldView { value, cursor: value.len() as usize, ..self.fields[i] },
                ),
                ..self
            },
            None => self,
        }
    }
}

/// `key_index_from` finds a field with the key, and only then.
pub proof fn lemma_key_index(fields: Seq<FieldView>, key: Seq<char>, i: int)
    requires
        0 <= i <= fields.len(),
    ensures
        match key_index_from(fields, key, i) {
            Some(j) => i <= j < fields.len() && fields[j].spec.key@ == key && forall|k: int|
                i <= k < j ==> fields[k].spec.key@ != key,
            None => forall|k: int| i <= k < fields.len() ==> fields[k].spec.key@ != key,
        },
    decreases fields.len() - i,
{
    if i < fields.len() && fields[i].spec.key@ != key {
        lemma_key_index(fields, key, i + 1);
    }
}

impl FormState {
    /// Index of the first field whose key is `key`.
    fn find_key(&self, key: &str) -> (r: Option<usize>)
        ensures
            match r {
                Some(i) => i < self.fields.len() && key_index_from(self@.fields, key@, 0) == Some(i as int),
                None => key_index_from(self@.fields, key@, 0) is None,
            },
    {
        let ghost fv = self@.fields;
        let mut i: usize = 0;
        while i < self.fields.len()
            invariant
                fv == self@.fields,
                0 <= i <= self.fields.len(),
                key_index_from(fv, key@, 0) == key_index_from(fv, key@, i as int),
            decreases self.fields.len() - i,
        {
            if text_eq(self.fields[i].spec.key, key) {
                assert(key_index_from(fv, key@, i as int) == Some(i as int));
                return Some(i);
            }
            i += 1;
        }
        None
    }

    /// Creates a new form state from a slice of field specifications.
    pub fn from_specs(specs: &[FieldSpec]) -> (form: Self)
        ensures
            form@ == form_of_specs(specs@),
    {
        let mut fields: Vec<FieldState> = Vec::new();
        let mut i: usize = 0;
        while i < specs.len()
            invariant
                0 <= i <= specs.len(),
                fields@.map_values(|f: FieldState| f@) =~= specs@.subrange(0, i as int).map_values(
                    |s: FieldSpec| initial_field(s),
                ),
            decreases specs.len() - i,
        {
            let spec = specs[i];
            let field = FieldState {
                spec,
                value: owned(spec.default_value),
                cursor: char_count(spec.default_value),
            };
            assert(field@ == initial_field(spec));
            let ghost before = fields@;
            fields.push(field);
            assert(fields@ =~= before.push(field));
            assert(fields@.map_values(|f: FieldState| f@) =~= before.map_values(|f: FieldState| f@).push(field@));
            assert(specs@.subrange(0, i + 1) =~= specs@.subrange(0, i as int).push(spec));
            i += 1;
        }
        assert(specs@.subrange(0, specs.len() as int) =~= specs@);
        FormState { fields, selected: 0, scroll: 0 }
    }

    /// Resets all field values and selection to match the given specs.
    pub fn reset_from_specs(&mut self, specs: &[FieldSpec])
        ensures
            final(self)@ == form_of_specs(specs@),
    {
        *self = Self::from_specs(specs);
    }

    /// Returns a mutable reference to the currently selected field.
    pub fn current_field_mut(&mut self) -> (r: Option<&mut FieldState>)
        ensures
            old(self)@.has_current() ==> r is Some && *r->0 == old(self).fields[old(
                self,
            ).selected as int],
            !old(self)@.has_current() ==> r is None && *final(self) == *old(self),
            r matches Some(f) ==> final(self).fields@ == old(self).fields@.update(
                old(self).selected as int,
                *final(f),
            ) && final(self).selected == old(self).selected && final(self).scroll == old(
                self,
            ).scroll,
    {
        if self.selected < self.fields.len() {
            let i = self.selected;
            Some(&mut self.fields[i])
        } else {
            None
        }
    }

    /// Moves selection to the next field, clamped to the last index.
    pub fn select_next(&mut self)
        ensures
            final(self)@ == old(self)@.after_select_next(),
    {
        if self.fields.len() > 0 && self.selected < self.fields.len() - 1 {
            self.selected += 1;
        }
    }

    /// Moves selection to the previous field, clamped to zero.
    pub fn select_prev(&mut self)
        ensures
            final(self)@ == old(self)@.after_select_prev(),
    {
        if self.selected > 0 {
            self.selected -= 1;
        }
    }

    /// Adjusts scroll so the selected field is visible in a viewport.
    pub fn ensure_visible(&mut self, viewport_height: usize)
        requires
            viewport_height == 0 || old(self).fields.len() == 0 || old(self).selected < old(
                self,
            ).scroll || old(self).scroll + viewport_height <= usize::MAX,
        ensures
            final(self)@ == (FormView {
                scroll: old(self)@.visible_scroll(viewport_height as int) as usize,
                ..old(self)@
            }),
    {
        if viewport_height == 0 || self.fields.len() == 0 {
            self.scroll = 0;
            return;
        }
        if self.selected < self.scroll {
            self.scroll = self.selected;
            return;
        }
        let bottom = self.scroll + viewport_height - 1;
        if self.selected > bottom {
            self.scroll = self.selected - (viewport_height - 1);
        }
    }

    /// Looks up the current value for a field by key.
    pub fn field_value(&self, key: &str) -> (r: Option<&str>)
        ensures
            match r {
                Some(v) => self@.value_of(key@) == Some(v@),
                None => self@.value_of(key@) is None,
            },
    {
        match self.find_key(key) {
            Some(i) => Some(self.fields[i].value.as_str()),
            None => None,
        }
    }

    /// Inserts a character at the caret of the selected field.
    ///
    /// A field that still shows its non-empty default is cleared first, except that a
    /// `0` typed behind a numeric default is appended.
    pub fn insert_char(&mut self, ch: char)
        requires
            old(self)@.has_current() ==> old(self).fields[old(self).selected as int].cursor
                < usize::MAX,
        ensures
            final(self)@ == old(self)@.with_current(
                field_after_insert(old(self)@.fields[old(self).selected as int], ch),
            ),
    {
        let ghost old_view = self@;
        match self.current_field_mut() {
            Some(field) => {
                let ghost f0 = field@;
                let clear = char_count(field.spec.default_value) > 0 && text_eq(
                    field.value.as_str(),
                    field.spec.default_value,
                ) && !(all_digits(field.spec.default_value) && ch == '0');
                assert(clear == clears_default(f0, ch));
                if clear {
                    field.value = String::new();
                    field.cursor = 0;
                }
                let len = char_count(field.value.as_str());
                let at = if field.cursor < len {
                    field.cursor
                } else {
                    len
                };
                field.value = insert_at(field.value.as_str(), at, ch);
                field.cursor = field.cursor + 1;
                assert(field@ == field_after_insert(f0, ch));
            },
            None => {},
        }
        proof {
            assert(self@.fields =~= old_view.with_current(
                field_after_insert(old_view.fields[old_view.selected as int], ch),
            ).fields);
        }
    }

    /// Removes the character before the caret of the selected field.
    pub fn backspace(&mut self)
        ensures
            final(self)@ == old(self)@.with_current(
                field_after_backspace(old(self)@.fields[old(self).selected as int]),
            ),
    {
        let ghost old_view = self@;
        match self.current_field_mut() {
            Some(field) => {
                let ghost f0 = field@;
                if field.cursor > 0 {
                    let len = char_count(field.value.as_str());
                    let lo = if field.cursor - 1 < len {
                        field.cursor - 1
                    } else {
                        len
                    };
                    let hi = if field.cursor < len {
                        field.cursor
                    } else {
                        len
                    };
                    field.value = remove_range(field.value.as_str(), lo, hi);
                    field.cursor = field.cursor - 1;
                }
                assert(field@ == field_after_backspace(f0));
            },
            None => {},
        }
        proof {
            assert(self@.fields =~= old_view.with_current(
                field_after_backspace(old_view.fields[old_view.selected as int]),
            ).fields);
        }
    }

    /// Removes the character at the caret of the selected field.
    pub fn delete_forward(&mut self)
        ensures
            final(self)@ == old(self)@.with_current(
                field_after_delete(old(self)@.fields[old(self).selected as int]),
            ),
    {
        let ghost old_view = self@;
        match self.current_field_mut() {
            Some(field) => {
                let ghost f0 = field@;
                let len = char_count(field.value.as_str());
                if field.cursor < len {
                    field.value = remove_range(field.value.as_str(), field.cursor, field.cursor + 1);
                }
                assert(field@ == field_after_delete(f0));
            },
            None => {},
        }
        proof {
            assert(self@.fields =~= old_view.with_current(
                field_after_delete(old_view.fields[old_view.selected as int]),
            ).fields);
        }
    }

    /// Moves the caret one character left in the selected field.
    pub fn cursor_left(&mut self)
        ensures
            final(self)@ == old(self)@.with_current(
                field_after_left(old(self)@.fields[old(self).selected as int]),
            ),
    {
        let ghost old_view = self@;
        match self.current_field_mut() {
            Some(field) => {
                field.cursor = if field.cursor > 0 {
                    field.cursor - 1
                } else {
                    0
                };
            },
            None => {},
        }
        proof {
            assert(self@.fields =~= old_view.with_current(
                field_after_left(old_view.fields[old_view.selected as int]),
            ).fields);
        }
    }

    /// Moves the caret one character right in the selected field.
    pub fn cursor_right(&mut self)
        ensures
            final(self)@ == old(self)@.with_current(
                field_after_right(old(self)@.fields[old(self).selected as int]),
            ),
    {
        let ghost old_view = self@;
        match self.current_field_mut() {
            Some(field) => {
                let len = char_count(field.value.as_str());
                if field.cursor < len {
                    field.cursor = field.cursor + 1;
                }
            },
            None => {},
        }
        proof {
            assert(self@.fields =~= old_view.with_current(
                field_after_right(old_view.fields[old_view.selected as int]),
            ).fields);
        }
    }

    /// Sets the value of the first field identified by key, caret at its end.
    pub fn set_value(&mut self, key: &str, value: String)
        ensures
            final(self)@ == old(self)@.after_set_value(key@, value@),
    {
        let ghost old_view = self@;
        match self.find_key(key) {
            Some(i) => {
                let field = &mut self.fields[i];
                field.cursor = char_count(value.as_str());
                field.value = value;
                proof {
                    assert(self@.fields =~= old_view.after_set_value(key@, value@).fields);
                }
            },
            None => {},
        }
    }
}

/// Typing a character into a field and erasing it with backspace gives the field
/// back, when its caret lies within its text and typing keeps the text.
pub proof fn lemma_field_insert_backspace(f: FieldView, ch: char)
    requires
        !clears_default(f, ch),
        f.cursor <= f.value.len(),
        f.cursor < usize::MAX,
    ensures
        field_after_backspace(field_after_insert(f, ch)) == f,
{
    let v = f.value;
    let c = f.cursor as int;
    let v2 = v.subrange(0, c) + seq![ch] + v.subrange(c, v.len() as int);
    assert(v2.subrange(0, c) + v2.subrange(c + 1, v2.len() as int) =~= v);
}

/// Deleting at the caret removes exactly the character under it and keeps the
/// caret.
pub proof fn lemma_field_delete(f: FieldView)
    requires
        f.cursor < f.value.len(),
    ensures
        field_after_delete(f).value.len() == f.value.len() - 1,
        field_after_delete(f).cursor == f.cursor,
        field_after_delete(f).value == f.value.remove(f.cursor as int),
{
    assert(field_after_delete(f).value =~= f.value.remove(f.cursor as int));
}

/// A value set under a key is the value read back under that key.
pub proof fn lemma_set_value_reads_back(form: FormView, key: Seq<char>, value: Seq<char>)
    requires
        form.value_of(key) is Some,
    ensures
        form.after_set_value(key, value).value_of(key) == Some(value),
        form.after_set_value(key, value).fields.len() == form.fields.len(),
{
    lemma_key_index(form.fields, key, 0);
    let i = key_index_from(form.fields, key, 0)->0;
    let f2 = form.after_set_value(key, value).fields;
    assert forall|k: int| 0 <= k < i implies f2[k].spec.key@ != key by {}
    lemma_key_index_found(f2, key, 0, i);
}

/// A key first found at `i` is found there.
pub proof fn lemma_key_index_found(fields: Seq<FieldView>, key: Seq<char>, start: int, i: int)
    requires
        0 <= start <= i < fields.len(),
        fields[i].spec.key@ == key,
        forall|k: int| start <= k < i ==> fields[k].spec.key@ != key,
    ensures
        key_index_from(fields, key, start) == Some(i),
    decreases i - start,
{
    if start < i {
        lemma_key_index_found(fields, key, start + 1, i);
    }
}

} // verus!
