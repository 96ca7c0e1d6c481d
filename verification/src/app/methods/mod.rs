mod encoding;
mod helpers;
mod method;
mod paging;
mod registry;
mod types;
mod validation;

pub mod params;

pub use encoding::{base64_accepts, json_reading};
pub use helpers::{
    JsonInput,
    list_value, optional_json, optional_number, optional_text, parse_list, parse_optional_json,
    parse_optional_string, parse_optional_u64, parse_required_string, required_text,
};
pub use method::{
    get_events::{event_type_enabled, type_enables_filters},
    get_events, get_fee_stats, get_health, get_latest_ledger, get_ledger_entries, get_ledgers,
    get_network, get_transaction, get_transactions, get_version_info, send_transaction,
    simulate_transaction,
};
pub use paging::{build_paged_request, paged_fields, paged_params};
pub use registry::{method_order, method_specs};
pub use types::{
    lemma_typed_values_sent, method_fields, method_help, method_name, method_params, paginated_with,
    sends_typed_values, MethodId, MethodSpec,
};
pub use validation::{
    form_fits, is_hex_64, lemma_defaults_validate, lemma_errors_name_fields, lemma_forms_fit,
    lemma_limit_range,
    names_field, raw_value, request_errors, validate_request_form, ErrorMap,
};
