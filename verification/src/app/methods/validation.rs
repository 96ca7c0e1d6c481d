//! Field errors of request forms: generic type checks, per-method formats and the
//! cross-field rules of the list endpoints.

use vstd::prelude::*;

use crate::app::model::forms::{
    form_of_specs, lemma_key_index, lemma_key_index_found, FieldSpec, FieldType, FormState, FormView,
};
use crate::text::{
    all_hex_digits, char_count, decimal_value, digit_value, is_hex_digit, owned, parse_u64, parse_u64_spec,
    text_eq, trim, trim_end, trim_start, trimmed, unsigned_digits,
};

use super::encoding::{base64_accepts, decodes_as_base64, json_reading, read_json};
use super::helpers::{list_value, optional_json, optional_number, optional_text};
use crate::text::list_items;
use super::method::get_events;
use super::paging::paged_field_specs;
use super::types::method_fields;
use super::{parse_list, parse_optional_json, parse_optional_string, MethodId, MethodSpec};

verus! {

// ---------------------------------------------------------------------------
// Error map
// ---------------------------------------------------------------------------

/// Messages keyed by field key. A later message for a key replaces the earlier one.
pub struct ErrorMap {
    entries: Vec<(String, String)>,
}

/// The map that a list of insertions leaves.
pub open spec fn entries_map(es: Seq<(Seq<char>, Seq<char>)>) -> Map<Seq<char>, Seq<char>>
    decreases es.len(),
{
    if es.len() == 0 {
        Map::empty()
    } else {
        entries_map(es.drop_last()).insert(es.last().0, es.last().1)
    }
}

impl View for ErrorMap {
    type V = Map<Seq<char>, Seq<char>>;

    closed spec fn view(&self) -> Map<Seq<char>, Seq<char>> {
        entries_map(self.entries@.map_values(|e: (String, String)| (e.0@, e.1@)))
    }
}

/// Looking a key up in the map of insertions finds the last insertion of the key.
proof fn lemma_entries_lookup(es: Seq<(Seq<char>, Seq<char>)>, k: Seq<char>, j: int)
    requires
        -1 <= j < es.len(),
        forall|i: int| j < i < es.len() ==> es[i].0 != k,
        j >= 0 ==> es[j].0 == k,
    ensures
        j >= 0 ==> entries_map(es).contains_key(k) && entries_map(es)[k] == es[j].1,
        j < 0 ==> !entries_map(es).contains_key(k),
    decreases es.len(),
{
    if es.len() > 0 && j < es.len() - 1 {
        lemma_entries_lookup(es.drop_last(), k, j);
    }
}

/// The map of insertions is empty exactly when there are none.
proof fn lemma_entries_empty(es: Seq<(Seq<char>, Seq<char>)>)
    ensures
        (es.len() == 0) == (entries_map(es).dom() =~= Set::empty()),
{
    if es.len() > 0 {
        assert(entries_map(es).contains_key(es.last().0));
    }
}

impl ErrorMap {
    /// An empty map.
    pub fn new() -> (r: ErrorMap)
        ensures
            r@ == Map::<Seq<char>, Seq<char>>::empty(),
    {
        let r = ErrorMap { entries: Vec::new() };
        assert(r.entries@.map_values(|e: (String, String)| (e.0@, e.1@)) =~= Seq::<
            (Seq<char>, Seq<char>),
        >::empty());
        r
    }

    /// Sets the message of a key.
    pub fn insert(&mut self, key: &str, message: &str)
        ensures
            final(self)@ == old(self)@.insert(key@, message@),
    {
        let ghost before = self.entries@;
        self.entries.push((owned(key), owned(message)));
        assert(self.entries@.map_values(|e: (String, String)| (e.0@, e.1@)).drop_last() =~= before.map_values(
            |e: (String, String)| (e.0@, e.1@),
        ));
    }

    /// The message of a key.
    pub fn get(&self, key: &str) -> (r: Option<&String>)
        ensures
            match r {
                Some(m) => self@.contains_key(key@) && self@[key@] == m@,
                None => !self@.contains_key(key@),
            },
    {
        let ghost es = self.entries@.map_values(|e: (String, String)| (e.0@, e.1@));
        let mut i = self.entries.len();
        while i > 0
            invariant
                es == self.entries@.map_values(|e: (String, String)| (e.0@, e.1@)),
                0 <= i <= self.entries.len(),
                forall|k: int| i <= k < es.len() ==> es[k].0 != key@,
            decreases i,
        {
            if text_eq(self.entries[i - 1].0.as_str(), key) {
                proof {
                    lemma_entries_lookup(es, key@, i - 1);
                }
                return Some(&self.entries[i - 1].1);
            }
            i -= 1;
        }
        proof {
            lemma_entries_lookup(es, key@, -1);
        }
        None
    }

    /// Whether no key has a message.
    pub fn is_empty(&self) -> (b: bool)
        ensures
            b == (self@.dom() =~= Set::<Seq<char>>::empty()),
    {
        proof {
            lemma_entries_empty(self.entries@.map_values(|e: (String, String)| (e.0@, e.1@)));
        }
        self.entries.len() == 0
    }

    /// Removes every message.
    pub fn clear(&mut self)
        ensures
            final(self)@ == Map::<Seq<char>, Seq<char>>::empty(),
    {
        *self = ErrorMap::new();
    }
}

// ---------------------------------------------------------------------------
// Rules
// ---------------------------------------------------------------------------

/// A 64 character hexadecimal text.
pub open spec fn is_hex_64_spec(s: Seq<char>) -> bool {
    s.len() == 64 && forall|i: int| 0 <= i < s.len() ==> is_hex_digit(#[trigger] s[i])
}

/// Value of a field as the generic checks read it: empty when the form lacks it.
pub open spec fn raw_value(form: FormView, key: Seq<char>) -> Seq<char> {
    match form.value_of(key) {
        Some(v) => v,
        None => Seq::empty(),
    }
}

/// Errors of the generic type checks over `fields`, in order: a blank required field
/// is `Required`; a non-blank number field that does not parse, or JSON field that is
/// not JSON, gets its type message.
pub open spec fn field_errors(fields: Seq<FieldSpec>, form: FormView) -> Map<Seq<char>, Seq<char>>
    decreases fields.len(),
{
    if fields.len() == 0 {
        Map::empty()
    } else {
        let m = field_errors(fields.drop_last(), form);
        let f = fields.last();
        let t = trimmed(raw_value(form, f.key@));
        if !f.optional && t.len() == 0 {
            m.insert(f.key@, "Required"@)
        } else if t.len() == 0 {
            m
        } else {
            match f.field_type {
                FieldType::Number => if parse_u64_spec(t) is None {
                    m.insert(f.key@, "Must be a number"@)
                } else {
                    m
                },
                FieldType::Json => if json_reading(t) is Err {
                    m.insert(f.key@, "Invalid JSON"@)
                } else {
                    m
                },
                _ => m,
            }
        }
    }
}

/// Errors of the per-method formats: a transaction hash, a base64 envelope, base64
/// ledger keys.
pub open spec fn format_errors(id: MethodId, form: FormView, m: Map<Seq<char>, Seq<char>>) -> Map<
    Seq<char>,
    Seq<char>,
> {
    match id {
        MethodId::GetTransaction => match optional_text(form, "hash"@) {
            Some(h) => if !is_hex_64_spec(h) {
                m.insert("hash"@, "Must be 64-char hex"@)
            } else {
                m
            },
            None => m,
        },
        MethodId::SendTransaction | MethodId::SimulateTransaction => match optional_text(
            form,
            "transaction"@,
        ) {
            Some(t) => if !base64_accepts(t) {
                m.insert("transaction"@, "Must be base64"@)
            } else {
                m
            },
            None => m,
        },
        MethodId::GetLedgerEntries => {
            let keys = list_value(form, "keys"@);
            if exists|i: int| 0 <= i < keys.len() && !base64_accepts(#[trigger] keys[i]) {
                m.insert("keys"@, "All keys must be base64"@)
            } else {
                m
            }
        },
        _ => m,
    }
}

/// Whether a method pages through ledgers.
pub open spec fn is_list_method(id: MethodId) -> bool {
    id == MethodId::GetEvents || id == MethodId::GetLedgers || id == MethodId::GetTransactions
}

/// A ledger window of more than a hundred ledgers.
pub open spec fn wide_window(start: Option<Seq<char>>, end: Option<Seq<char>>) -> bool {
    match (start, end) {
        (Some(s), Some(e)) => match (parse_u64_spec(s), parse_u64_spec(e)) {
            (Some(a), Some(b)) => b > a && b - a > 100,
            _ => false,
        },
        _ => false,
    }
}

/// Errors of the list endpoints: a start ledger together with a cursor, and a wide
/// ledger window.
pub open spec fn window_errors(id: MethodId, form: FormView, m: Map<Seq<char>, Seq<char>>) -> Map<
    Seq<char>,
    Seq<char>,
> {
    let start = optional_text(form, "startLedger"@);
    let cursor = optional_text(form, "cursor"@);
    let m1 = if is_list_method(id) && start is Some && cursor is Some {
        m.insert("startLedger"@, "Use startLedger or cursor"@).insert(
            "cursor"@,
            "Use cursor or startLedger"@,
        )
    } else {
        m
    };
    if is_list_method(id) && wide_window(start, optional_text(form, "endLedger"@)) {
        m1.insert("endLedger"@, "Large range may slow response"@)
    } else {
        m1
    }
}

/// Errors of the enumerated values: XDR format, auth mode and event type.
pub open spec fn choice_errors(form: FormView, m: Map<Seq<char>, Seq<char>>) -> Map<
    Seq<char>,
    Seq<char>,
> {
    let m1 = match optional_text(form, "xdrFormat"@) {
        Some(v) => if v != "base64"@ && v != "json"@ {
            m.insert("xdrFormat"@, "Use base64 or json"@)
        } else {
            m
        },
        None => m,
    };
    let m2 = match optional_text(form, "authMode"@) {
        Some(v) => if !(v == "enforce"@ || v == "record"@ || v == "record_allow_nonroot"@) {
            m1.insert("authMode"@, "Invalid auth mode"@)
        } else {
            m1
        },
        None => m1,
    };
    match optional_text(form, "type"@) {
        Some(v) => if v != "system"@ && v != "contract"@ {
            m2.insert("type"@, "Use system or contract"@)
        } else {
            m2
        },
        None => m2,
    }
}

/// Errors of the event filters: at most five contract ids and topics, and an event
/// type whenever ids or topics are given.
pub open spec fn filter_errors(id: MethodId, form: FormView, m: Map<Seq<char>, Seq<char>>) -> Map<
    Seq<char>,
    Seq<char>,
> {
    if id == MethodId::GetEvents {
        let ids = list_value(form, "contractIds"@);
        let m1 = if ids.len() > 5 {
            m.insert("contractIds"@, "Up to 5 values"@)
        } else {
            m
        };
        let m2 = if optional_json(form, "topics"@) matches Ok(Some((_, Some(n)))) && n > 5 {
            m1.insert("topics"@, "Up to 5 values"@)
        } else {
            m1
        };
        let has_type = optional_text(form, "type"@) is Some;
        let has_topics = optional_text(form, "topics"@) is Some;
        if (ids.len() > 0 || has_topics) && !has_type {
            m2.insert("type"@, "Required when contractIds/topics are set"@)
        } else {
            m2
        }
    } else {
        m
    }
}

/// Error of the page limit: a number outside 1..=10000.
pub open spec fn limit_errors(form: FormView, m: Map<Seq<char>, Seq<char>>) -> Map<
    Seq<char>,
    Seq<char>,
> {
    match optional_text(form, "limit"@) {
        Some(v) => match parse_u64_spec(v) {
            Some(l) => if l == 0 || l > 10000 {
                m.insert("limit"@, "Range 1-10000"@)
            } else {
                m
            },
            None => m,
        },
        None => m,
    }
}

/// All errors of a request form for method `id` with the given fields, each later
/// rule overriding the message an earlier rule left for the same key.
pub open spec fn request_errors(id: MethodId, fields: Seq<FieldSpec>, form: FormView) -> Map<
    Seq<char>,
    Seq<char>,
> {
    limit_errors(
        form,
        filter_errors(
            id,
            form,
            choice_errors(form, window_errors(id, form, format_errors(id, form, field_errors(fields, form)))),
        ),
    )
}

// ---------------------------------------------------------------------------
// Checks
// ---------------------------------------------------------------------------

/// Whether a text is 64 hexadecimal digits.
pub fn is_hex_64(value: &str) -> (b: bool)
    ensures
        b == is_hex_64_spec(value@),
{
    // All hex digits are one byte each, so the character count is the byte length.
    if char_count(value) != 64 {
        return false;
    }
    all_hex_digits(value)
}

/// Whether a text decodes as standard base64.
fn is_base64(value: &str) -> (b: bool)
    ensures
        b == base64_accepts(value@),
{
    decodes_as_base64(value)
}

/// Whether a text equals one of the given choices.
fn is_one_of(value: &str, a: &str, b: &str) -> (r: bool)
    ensures
        r == (value@ == a@ || value@ == b@),
{
    text_eq(value, a) || text_eq(value, b)
}

/// Applies the generic type checks.
fn check_fields(spec: &MethodSpec, form: &FormState, errors: &mut ErrorMap)
    requires
        old(errors)@ == Map::<Seq<char>, Seq<char>>::empty(),
    ensures
        final(errors)@ == field_errors(spec.fields@, form@),
{
    let mut i: usize = 0;
    while i < spec.fields.len()
        invariant
            0 <= i <= spec.fields.len(),
            errors@ == field_errors(spec.fields@.subrange(0, i as int), form@),
        decreases spec.fields.len() - i,
    {
        let field = spec.fields[i];
        proof {
            assert(spec.fields@.subrange(0, i + 1).drop_last() =~= spec.fields@.subrange(0, i as int));
            assert(spec.fields@.subrange(0, i + 1).last() == field);
        }
        let trimmed_value = match form.field_value(field.key) {
            Some(raw) => trim(raw),
            None => owned(""),
        };
        proof {
            reveal_strlit("");
        }
        let blank = char_count(trimmed_value.as_str()) == 0;
        if !field.optional && blank {
            errors.insert(field.key, "Required");
        } else if !blank {
            match field.field_type {
                FieldType::Number => {
                    if parse_u64(trimmed_value.as_str()).is_none() {
                        errors.insert(field.key, "Must be a number");
                    }
                },
                FieldType::Json => {
                    if read_json(trimmed_value.as_str()).is_err() {
                        errors.insert(field.key, "Invalid JSON");
                    }
                },
                _ => {},
            }
        }
        i += 1;
    }
    assert(spec.fields@.subrange(0, spec.fields.len() as int) =~= spec.fields@);
}

/// Applies the per-method format checks.
fn check_formats(id: MethodId, form: &FormState, errors: &mut ErrorMap)
    ensures
        final(errors)@ == format_errors(id, form@, old(errors)@),
{
    match id {
        MethodId::GetTransaction => {
            if let Some(hash) = parse_optional_string(form, "hash") {
                if !is_hex_64(hash.as_str()) {
                    errors.insert("hash", "Must be 64-char hex");
                }
            }
        },
        MethodId::SendTransaction | MethodId::SimulateTransaction => {
            if let Some(tx) = parse_optional_string(form, "transaction") {
                if !is_base64(tx.as_str()) {
                    errors.insert("transaction", "Must be base64");
                }
            }
        },
        MethodId::GetLedgerEntries => {
            let keys = parse_list(form, "keys");
            let ghost kv = keys.deep_view();
            let mut i: usize = 0;
            let mut all_ok = true;
            while i < keys.len() && all_ok
                invariant
                    kv == keys.deep_view(),
                    kv == list_value(form@, "keys"@),
                    0 <= i <= keys.len(),
                    all_ok ==> forall|k: int| 0 <= k < i ==> base64_accepts(#[trigger] kv[k]),
                    !all_ok ==> exists|k: int| 0 <= k < kv.len() && !base64_accepts(#[trigger] kv[k]),
                decreases keys.len() - i,
            {
                if !is_base64(keys[i].as_str()) {
                    assert(!base64_accepts(kv[i as int]));
                    all_ok = false;
                }
                i += 1;
            }
            if !all_ok {
                errors.insert("keys", "All keys must be base64");
            }
        },
        _ => {},
    }
}

/// Whether the method pages through ledgers.
fn list_method(id: MethodId) -> (b: bool)
    ensures
        b == is_list_method(id),
{
    match id {
        MethodId::GetEvents | MethodId::GetLedgers | MethodId::GetTransactions => true,
        _ => false,
    }
}

/// Applies the list endpoint checks.
fn check_window(id: MethodId, form: &FormState, errors: &mut ErrorMap)
    ensures
        final(errors)@ == window_errors(id, form@, old(errors)@),
{
    let listed = list_method(id);
    // Shared pagination exclusivity for list style endpoints
    let start = parse_optional_string(form, "startLedger");
    let cursor = parse_optional_string(form, "cursor");
    if listed && start.is_some() && cursor.is_some() {
        errors.insert("startLedger", "Use startLedger or cursor");
        errors.insert("cursor", "Use cursor or startLedger");
    }
    // Keeps unusually wide ledger windows visible before request execution
    let end = parse_optional_string(form, "endLedger");
    if listed {
        if let (Some(start_str), Some(end_str)) = (start, end) {
            if let (Some(a), Some(b)) = (parse_u64(start_str.as_str()), parse_u64(end_str.as_str())) {
                if b > a && b - a > 100 {
                    errors.insert("endLedger", "Large range may slow response");
                }
            }
        }
    }
}

/// Applies the enumerated value checks.
fn check_choices(form: &FormState, errors: &mut ErrorMap)
    ensures
        final(errors)@ == choice_errors(form@, old(errors)@),
{
    if let Some(value) = parse_optional_string(form, "xdrFormat") {
        if !is_one_of(value.as_str(), "base64", "json") {
            errors.insert("xdrFormat", "Use base64 or json");
        }
    }
    if let Some(value) = parse_optional_string(form, "authMode") {
        let allowed = is_one_of(value.as_str(), "enforce", "record") || text_eq(
            value.as_str(),
            "record_allow_nonroot",
        );
        if !allowed {
            errors.insert("authMode", "Invalid auth mode");
        }
    }
    if let Some(value) = parse_optional_string(form, "type") {
        if !is_one_of(value.as_str(), "system", "contract") {
            errors.insert("type", "Use system or contract");
        }
    }
}

/// Applies the event filter checks.
fn check_filters(id: MethodId, form: &FormState, errors: &mut ErrorMap)
    ensures
        final(errors)@ == filter_errors(id, form@, old(errors)@),
{
    if id == MethodId::GetEvents {
        let contract_ids = parse_list(form, "contractIds");
        if contract_ids.len() > 5 {
            errors.insert("contractIds", "Up to 5 values");
        }
        if let Ok(Some(topics)) = parse_optional_json(form, "topics") {
            if let Some(n) = topics.array_len {
                if n > 5 {
                    errors.insert("topics", "Up to 5 values");
                }
            }
        }
        let has_event_type = parse_optional_string(form, "type").is_some();
        let has_contract_ids = contract_ids.len() > 0;
        let has_topics = parse_optional_string(form, "topics").is_some();
        if (has_contract_ids || has_topics) && !has_event_type {
            errors.insert("type", "Required when contractIds/topics are set");
        }
    }
}

/// Applies the page limit check.
fn check_limit(form: &FormState, errors: &mut ErrorMap)
    ensures
        final(errors)@ == limit_errors(form@, old(errors)@),
{
    if let Some(value) = parse_optional_string(form, "limit") {
        if let Some(limit) = parse_u64(value.as_str()) {
            if limit == 0 || limit > 10000 {
                errors.insert("limit", "Range 1-10000");
            }
        }
    }
}

/// Returns the field errors of a request form.
pub fn validate_request_form(spec: &MethodSpec, form: &FormState) -> (r: ErrorMap)
    ensures
        r@ == request_errors(spec.id, spec.fields@, form@),
{
    let mut errors = ErrorMap::new();
    // Generic field type validation shared by all methods
    check_fields(spec, form, &mut errors);
    check_formats(spec.id, form, &mut errors);
    check_window(spec.id, form, &mut errors);
    check_choices(form, &mut errors);
    check_filters(spec.id, form, &mut errors);
    check_limit(form, &mut errors);
    errors
}

// ---------------------------------------------------------------------------
// Laws
// ---------------------------------------------------------------------------

/// Some field of `fields` has the key.
pub open spec fn names_field(fields: Seq<FieldSpec>, key: Seq<char>) -> bool {
    exists|i: int| 0 <= i < fields.len() && (#[trigger] fields[i]).key@ == key
}

/// The form holds the fields of `fields`, in order, whatever their values.
pub open spec fn form_fits(form: FormView, fields: Seq<FieldSpec>) -> bool {
    &&& form.fields.len() == fields.len()
    &&& forall|i: int| 0 <= i < fields.len() ==> (#[trigger] form.fields[i]).spec == fields[i]
}

/// A key that the form holds names one of the fields it fits.
proof fn lemma_present_names_field(form: FormView, fields: Seq<FieldSpec>, key: Seq<char>)
    requires
        form_fits(form, fields),
        form.value_of(key) is Some,
    ensures
        names_field(fields, key),
{
    lemma_key_index(form.fields, key, 0);
    let j = key_index_witness(form, key);
    assert(form.fields[j].spec == fields[j]);
}

/// Where the form holds a key.
spec fn key_index_witness(form: FormView, key: Seq<char>) -> int {
    match crate::app::model::forms::key_index_from(form.fields, key, 0) {
        Some(j) => j,
        None => 0,
    }
}

/// The generic checks key their errors by the fields they check.
proof fn lemma_field_errors_keys(fields: Seq<FieldSpec>, form: FormView)
    ensures
        forall|k: Seq<char>|
            #[trigger] field_errors(fields, form).dom().contains(k) ==> names_field(fields, k),
    decreases fields.len(),
{
    if fields.len() > 0 {
        let init = fields.drop_last();
        lemma_field_errors_keys(init, form);
        assert forall|k: Seq<char>| #[trigger] field_errors(fields, form).dom().contains(k) implies names_field(
            fields,
            k,
        ) by {
            if field_errors(init, form).dom().contains(k) {
                let i = choose|i: int| 0 <= i < init.len() && (#[trigger] init[i]).key@ == k;
                assert(fields[i] == init[i]);
            } else {
                assert(fields[fields.len() - 1].key@ == k);
            }
        }
    }
}

/// A form built from a method's fields fits them, and still does after a value
/// is set.
pub proof fn lemma_forms_fit(fields: Seq<FieldSpec>, form: FormView, key: Seq<char>, value: Seq<char>)
    ensures
        form_fits(form_of_specs(fields), fields),
        form_fits(form, fields) ==> form_fits(form.after_set_value(key, value), fields),
{
    let fresh = form_of_specs(fields);
    assert forall|i: int| 0 <= i < fields.len() implies (#[trigger] fresh.fields[i]).spec == fields[i] by {}
    if form_fits(form, fields) {
        lemma_key_index(form.fields, key, 0);
        let edited = form.after_set_value(key, value);
        assert forall|i: int| 0 <= i < fields.len() implies (#[trigger] edited.fields[i]).spec == fields[i] by {
            assert(form.fields[i].spec == fields[i]);
        }
    }
}

/// Validation keys its errors only by the form's fields: every key of the errors
/// of a method's form names one of the method's fields.
pub proof fn lemma_errors_name_fields(id: MethodId, form: FormView)
    requires
        form_fits(form, method_fields(id)),
    ensures
        forall|k: Seq<char>|
            #[trigger] request_errors(id, method_fields(id), form).dom().contains(k) ==> names_field(
                method_fields(id),
                k,
            ),
{
    let fields = method_fields(id);
    lemma_field_errors_keys(fields, form);
    assert forall|k: Seq<char>| #[trigger] form.value_of(k) is Some implies names_field(fields, k) by {
        lemma_present_names_field(form, fields, k);
    }
    if id == MethodId::GetEvents {
        assert(fields[4].key@ == "type"@);
        assert(names_field(fields, "type"@));
    }
    let m0 = field_errors(fields, form);
    let m1 = format_errors(id, form, m0);
    assert forall|k: Seq<char>| #[trigger] m1.dom().contains(k) implies names_field(fields, k) by {
        if !m0.dom().contains(k) {
            if id == MethodId::GetLedgerEntries {
                assert(list_value(form, "keys"@).len() > 0);
                assert(form.value_of("keys"@) is Some);
            } else if id == MethodId::GetTransaction {
                assert(form.value_of("hash"@) is Some);
            } else {
                assert(form.value_of("transaction"@) is Some);
            }
        }
    }
    let m2 = window_errors(id, form, m1);
    assert forall|k: Seq<char>| #[trigger] m2.dom().contains(k) implies names_field(fields, k) by {
        if !m1.dom().contains(k) {
            if k == "endLedger"@ {
                assert(optional_text(form, "endLedger"@) is Some);
                assert(form.value_of("endLedger"@) is Some);
            } else if k == "cursor"@ {
                assert(form.value_of("cursor"@) is Some);
            } else {
                assert(form.value_of("startLedger"@) is Some);
            }
        }
    }
    let m3 = choice_errors(form, m2);
    assert forall|k: Seq<char>| #[trigger] m3.dom().contains(k) implies names_field(fields, k) by {
        if !m2.dom().contains(k) {
            if k == "xdrFormat"@ {
                assert(form.value_of("xdrFormat"@) is Some);
            } else if k == "authMode"@ {
                assert(form.value_of("authMode"@) is Some);
            } else {
                assert(form.value_of("type"@) is Some);
            }
        }
    }
    let m4 = filter_errors(id, form, m3);
    assert forall|k: Seq<char>| #[trigger] m4.dom().contains(k) implies names_field(fields, k) by {
        if !m3.dom().contains(k) {
            if k == "type"@ {
            } else if k == "contractIds"@ && list_value(form, "contractIds"@).len() > 5 {
                assert(form.value_of("contractIds"@) is Some);
            } else {
                assert(k == "topics"@);
                assert(optional_text(form, "topics"@) is Some);
                assert(form.value_of("topics"@) is Some);
            }
        }
    }
    let m5 = limit_errors(form, m4);
    assert forall|k: Seq<char>| #[trigger] m5.dom().contains(k) implies names_field(fields, k) by {
        if !m4.dom().contains(k) {
            assert(form.value_of("limit"@) is Some);
        }
    }
}

/// Every field of `fields` has a key of its own.
pub open spec fn distinct_keys(fields: Seq<FieldSpec>) -> bool {
    forall|a: int, b: int| 0 <= a < b < fields.len() ==> (#[trigger] fields[a]).key@ != (#[trigger] fields[b]).key@
}

/// An untouched form holds each field's default value, and no other key.
proof fn lemma_initial_values(fields: Seq<FieldSpec>)
    requires
        distinct_keys(fields),
    ensures
        forall|i: int|
            0 <= i < fields.len() ==> #[trigger] form_of_specs(fields).value_of(fields[i].key@) == Some(
                fields[i].default_value@,
            ),
        forall|k: Seq<char>|
            !names_field(fields, k) ==> #[trigger] form_of_specs(fields).value_of(k) is None,
{
    let form = form_of_specs(fields);
    assert forall|i: int| 0 <= i < fields.len() implies #[trigger] form.value_of(fields[i].key@) == Some(
        fields[i].default_value@,
    ) by {
        assert forall|j: int| 0 <= j < i implies form.fields[j].spec.key@ != fields[i].key@ by {
            assert(form.fields[j].spec == fields[j]);
        }
        lemma_key_index_found(form.fields, fields[i].key@, 0, i);
    }
    assert forall|k: Seq<char>| !names_field(fields, k) implies #[trigger] form.value_of(k) is None by {
        lemma_key_index(form.fields, k, 0);
        if form.value_of(k) is Some {
            let j = key_index_witness(form, k);
            assert(form.fields[j].spec == fields[j]);
            assert(fields[j].key@ == k);
        }
    }
}

/// Facts of the default texts: blank, a limit of ten, the JSON format.
proof fn lemma_default_texts()
    ensures
        trimmed(""@) == ""@,
        trimmed("10"@) == "10"@,
        parse_u64_spec("10"@) == Some(10u64),
        trimmed("json"@) == "json"@,
        ""@.len() == 0,
{
    reveal_strlit("");
    reveal_strlit("10");
    reveal_strlit("json");
    assert(trim_start("10"@) == "10"@);
    assert(trim_end("10"@) == "10"@);
    assert(trim_start("json"@) == "json"@);
    assert(trim_end("json"@) == "json"@);
    let d = "10"@;
    assert(d =~= seq!['1', '0']);
    assert(unsigned_digits(d) == d);
    assert(d.drop_last() =~= seq!['1']);
    assert(seq!['1'].drop_last() =~= Seq::<char>::empty());
    assert(digit_value('1') == 1 && digit_value('0') == 0);
    assert(seq!['1'].last() == '1' && d.last() == '0');
    assert(decimal_value(Seq::<char>::empty()) == 0);
    assert(decimal_value(seq!['1']) == 1);
    assert(decimal_value(d) == 10);
}

/// The untouched form of the ledger pagination fields validates cleanly.
proof fn lemma_paged_defaults(id: MethodId)
    requires
        id == MethodId::GetLedgers || id == MethodId::GetTransactions,
    ensures
        request_errors(id, paged_field_specs(), form_of_specs(paged_field_specs())) =~= Map::<
            Seq<char>,
            Seq<char>,
        >::empty(),
{
    let fields = paged_field_specs();
    let form = form_of_specs(fields);
    reveal_strlit("startLedger");
    reveal_strlit("cursor");
    reveal_strlit("limit");
    reveal_strlit("xdrFormat");
    reveal_strlit("authMode");
    reveal_strlit("type");
    reveal_strlit("endLedger");
    assert(fields[0].key@ == "startLedger"@ && "startLedger"@.len() == 11);
    assert(fields[1].key@ == "cursor"@ && "cursor"@.len() == 6);
    assert(fields[2].key@ == "limit"@ && "limit"@.len() == 5);
    assert(fields[3].key@ == "xdrFormat"@ && "xdrFormat"@.len() == 9);
    assert("endLedger"@[0] == 'e' && "xdrFormat"@[0] == 'x');
    assert(distinct_keys(fields)) by {
        assert forall|a: int, b: int| 0 <= a < b < fields.len() implies (#[trigger] fields[a]).key@
            != (#[trigger] fields[b]).key@ by {
            assert(fields[a].key@.len() != fields[b].key@.len());
        }
    }
    lemma_initial_values(fields);
    lemma_default_texts();
    assert(form.value_of(fields[0].key@) == Some(""@));
    assert(form.value_of(fields[1].key@) == Some(""@));
    assert(form.value_of(fields[2].key@) == Some("10"@));
    assert(form.value_of(fields[3].key@) == Some("json"@));
    assert(!names_field(fields, "authMode"@) && !names_field(fields, "type"@) && !names_field(
        fields,
        "endLedger"@,
    )) by {
        assert forall|i: int| 0 <= i < fields.len() implies (#[trigger] fields[i]).key@ != "authMode"@
            && fields[i].key@ != "type"@ && fields[i].key@ != "endLedger"@ by {
            if i == 3 {
                assert(fields[i].key@[0] != "endLedger"@[0]);
            }
        }
    }
    assert(form.value_of("authMode"@) is None);
    assert(form.value_of("type"@) is None);
    assert(form.value_of("endLedger"@) is None);
    reveal_with_fuel(field_errors, 5);
    assert(field_errors(fields, form) =~= Map::<Seq<char>, Seq<char>>::empty());
}

/// The untouched form of the event fields validates cleanly.
proof fn lemma_events_defaults()
    ensures
        request_errors(
            MethodId::GetEvents,
            get_events::fields(),
            form_of_specs(get_events::fields()),
        ) =~= Map::<Seq<char>, Seq<char>>::empty(),
{
    let fields = get_events::fields();
    let form = form_of_specs(fields);
    reveal_strlit("startLedger");
    reveal_strlit("endLedger");
    reveal_strlit("cursor");
    reveal_strlit("limit");
    reveal_strlit("type");
    reveal_strlit("contractIds");
    reveal_strlit("topics");
    reveal_strlit("xdrFormat");
    reveal_strlit("authMode");
    assert(fields[0].key@ == "startLedger"@ && "startLedger"@.len() == 11 && "startLedger"@[0] == 's');
    assert(fields[1].key@ == "endLedger"@ && "endLedger"@.len() == 9 && "endLedger"@[0] == 'e');
    assert(fields[2].key@ == "cursor"@ && "cursor"@.len() == 6 && "cursor"@[0] == 'c');
    assert(fields[3].key@ == "limit"@ && "limit"@.len() == 5);
    assert(fields[4].key@ == "type"@ && "type"@.len() == 4);
    assert(fields[5].key@ == "contractIds"@ && "contractIds"@.len() == 11 && "contractIds"@[0] == 'c');
    assert(fields[6].key@ == "topics"@ && "topics"@.len() == 6 && "topics"@[0] == 't');
    assert(fields[7].key@ == "xdrFormat"@ && "xdrFormat"@.len() == 9 && "xdrFormat"@[0] == 'x');
    assert(distinct_keys(fields)) by {
        assert forall|a: int, b: int| 0 <= a < b < fields.len() implies (#[trigger] fields[a]).key@
            != (#[trigger] fields[b]).key@ by {
            assert(fields[a].key@.len() != fields[b].key@.len() || fields[a].key@[0] != fields[b].key@[0]);
        }
    }
    lemma_initial_values(fields);
    lemma_default_texts();
    assert(!names_field(fields, "authMode"@)) by {
        reveal_strlit("authMode");
        assert("authMode"@.len() == 8);
        assert forall|i: int| 0 <= i < fields.len() implies (#[trigger] fields[i]).key@ != "authMode"@ by {
            assert(fields[i].key@.len() != 8);
        }
    }
    assert(form.value_of("authMode"@) is None);
    assert(form.value_of(fields[0].key@) == Some(""@));
    assert(form.value_of(fields[1].key@) == Some(""@));
    assert(form.value_of(fields[2].key@) == Some(""@));
    assert(form.value_of(fields[3].key@) == Some("10"@));
    assert(form.value_of(fields[4].key@) == Some(""@));
    assert(form.value_of(fields[5].key@) == Some(""@));
    assert(form.value_of(fields[6].key@) == Some(""@));
    assert(form.value_of(fields[7].key@) == Some("json"@));
    assert(list_items(""@) =~= Seq::<Seq<char>>::empty());
    reveal_with_fuel(field_errors, 9);
    assert(field_errors(fields, form) =~= Map::<Seq<char>, Seq<char>>::empty());
}

/// The untouched form of a method without fields validates cleanly.
proof fn lemma_bare_defaults(id: MethodId)
    requires
        method_fields(id).len() == 0,
    ensures
        request_errors(id, method_fields(id), form_of_specs(method_fields(id))) =~= Map::<
            Seq<char>,
            Seq<char>,
        >::empty(),
{
    let fields = method_fields(id);
    let form = form_of_specs(fields);
    assert forall|k: Seq<char>| #[trigger] form.value_of(k) is None by {
        lemma_key_index(form.fields, k, 0);
    }
    assert(field_errors(fields, form) =~= Map::<Seq<char>, Seq<char>>::empty());
    assert(list_value(form, "keys"@).len() == 0);
    assert(list_value(form, "contractIds"@).len() == 0);
}

/// A method whose fields are all optional accepts its untouched form: the
/// default values validate cleanly.
pub proof fn lemma_defaults_validate(id: MethodId)
    requires
        forall|i: int| 0 <= i < method_fields(id).len() ==> (#[trigger] method_fields(id)[i]).optional,
    ensures
        request_errors(id, method_fields(id), form_of_specs(method_fields(id))) == Map::<
            Seq<char>,
            Seq<char>,
        >::empty(),
{
    match id {
        MethodId::GetEvents => lemma_events_defaults(),
        MethodId::GetLedgers | MethodId::GetTransactions => lemma_paged_defaults(id),
        MethodId::GetTransaction | MethodId::GetLedgerEntries | MethodId::SendTransaction
        | MethodId::SimulateTransaction => {
            assert(!method_fields(id)[0].optional);
        },
        _ => lemma_bare_defaults(id),
    }
}

/// The lengths of the field keys: only `limit` has five characters.
proof fn lemma_key_lengths()
    ensures
        "limit"@.len() == 5,
        "startLedger"@.len() == 11,
        "endLedger"@.len() == 9,
        "cursor"@.len() == 6,
        "type"@.len() == 4,
        "contractIds"@.len() == 11,
        "topics"@.len() == 6,
        "xdrFormat"@.len() == 9,
        "keys"@.len() == 4,
        "hash"@.len() == 4,
        "transaction"@.len() == 11,
        "instructionLeeway"@.len() == 17,
        "authMode"@.len() == 8,
{
    reveal_strlit("limit");
    reveal_strlit("startLedger");
    reveal_strlit("endLedger");
    reveal_strlit("cursor");
    reveal_strlit("type");
    reveal_strlit("contractIds");
    reveal_strlit("topics");
    reveal_strlit("xdrFormat");
    reveal_strlit("keys");
    reveal_strlit("hash");
    reveal_strlit("transaction");
    reveal_strlit("instructionLeeway");
    reveal_strlit("authMode");
}

/// Every field keyed `limit` is a number field.
proof fn lemma_limit_fields_numeric(id: MethodId)
    ensures
        forall|i: int|
            0 <= i < method_fields(id).len() && (#[trigger] method_fields(id)[i]).key@ == "limit"@
                ==> method_fields(id)[i].field_type == FieldType::Number,
{
    lemma_key_lengths();
    let fields = method_fields(id);
    assert forall|i: int|
        0 <= i < fields.len() && (#[trigger] fields[i]).key@ == "limit"@ implies fields[i].field_type
        == FieldType::Number by {
        assert(fields[i].key@.len() == 5);
    }
}

/// The generic checks leave `limit` alone while every field keyed `limit` is a
/// number field and its text reads as a number.
proof fn lemma_field_errors_skip_limit(fields: Seq<FieldSpec>, form: FormView)
    requires
        forall|i: int|
            0 <= i < fields.len() && (#[trigger] fields[i]).key@ == "limit"@ ==> fields[i].field_type
                == FieldType::Number,
        parse_u64_spec(trimmed(raw_value(form, "limit"@))) is Some,
    ensures
        !field_errors(fields, form).dom().contains("limit"@),
    decreases fields.len(),
{
    if fields.len() > 0 {
        let init = fields.drop_last();
        assert forall|i: int|
            0 <= i < init.len() && (#[trigger] init[i]).key@ == "limit"@ implies init[i].field_type
            == FieldType::Number by {
            assert(init[i] == fields[i]);
        }
        lemma_field_errors_skip_limit(init, form);
        let f = fields.last();
        assert(fields[fields.len() - 1] == f);
        if f.key@ == "limit"@ {
            assert(f.field_type == FieldType::Number);
            assert(trimmed(raw_value(form, "limit"@)).len() > 0) by {
                if trimmed(raw_value(form, "limit"@)).len() == 0 {
                    assert(parse_u64_spec(trimmed(raw_value(form, "limit"@))) is None);
                }
            }
        }
    }
}

/// The page limit is checked against its range: when a method's form holds a
/// limit that reads as the number `l`, validation reports an error for `limit`
/// exactly when `l` is 0 or above 10000, and the error is `Range 1-10000`.
pub proof fn lemma_limit_range(id: MethodId, form: FormView, l: u64)
    requires
        form_fits(form, method_fields(id)),
        optional_number(form, "limit"@) == Ok::<Option<u64>, Seq<char>>(Some(l)),
    ensures
        request_errors(id, method_fields(id), form).dom().contains("limit"@) <==> (l == 0 || l > 10000),
        (l == 0 || l > 10000) ==> request_errors(id, method_fields(id), form)["limit"@] == "Range 1-10000"@,
{
    lemma_key_lengths();
    lemma_limit_fields_numeric(id);
    let fields = method_fields(id);
    let t = optional_text(form, "limit"@)->0;
    assert(optional_text(form, "limit"@) == Some(t));
    assert(trimmed(raw_value(form, "limit"@)) == t);
    lemma_field_errors_skip_limit(fields, form);
    let m0 = field_errors(fields, form);
    let m1 = format_errors(id, form, m0);
    let m2 = window_errors(id, form, m1);
    let m3 = choice_errors(form, m2);
    let m4 = filter_errors(id, form, m3);
    assert(!m1.dom().contains("limit"@));
    assert(!m2.dom().contains("limit"@));
    assert(!m3.dom().contains("limit"@));
    assert(!m4.dom().contains("limit"@));
}

} // verus!
