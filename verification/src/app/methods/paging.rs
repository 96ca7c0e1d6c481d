//! Ledger pagination shared by the list style endpoints.

use vstd::prelude::*;

use crate::app::model::forms::{FieldSpec, FieldType, FormState, FormView};
use crate::text::owned;

use super::helpers::{optional_number, optional_text, parse_optional_string, parse_optional_u64};
use super::params::{
    built_view, entry_if, number_param, number_view, pagination_entry, push_pagination,
    text_param, text_view, Entries, ParamValue, ParamView,
};

verus! {

/// The fields of the ledger pagination contract.
pub open spec fn paged_field_specs() -> Seq<FieldSpec> {
    seq![
        FieldSpec {
            key: "startLedger",
            label: "Start ledger",
            field_type: FieldType::Number,
            optional: true,
            default_value: "",
            hint: "Inclusive start ledger sequence",
        },
        FieldSpec {
            key: "cursor",
            label: "Cursor",
            field_type: FieldType::Text,
            optional: true,
            default_value: "",
            hint: "Use instead of 'startLedger'",
        },
        FieldSpec {
            key: "limit",
            label: "Limit",
            field_type: FieldType::Number,
            optional: true,
            default_value: "10",
            hint: "1-10000 (default: 10)",
        },
        FieldSpec {
            key: "xdrFormat",
            label: "XDR format",
            field_type: FieldType::Text,
            optional: true,
            default_value: "json",
            hint: "'json' (default) or 'base64'",
        },
    ]
}

/// Parameters of a paged request: a start ledger or a cursor (never both), the limit
/// and cursor nested under `pagination`, and the XDR format.
pub open spec fn paged_params(form: FormView) -> Result<ParamView, Seq<char>> {
    match optional_number(form, "startLedger"@) {
        Err(e) => Err(e),
        Ok(start) => {
            let cursor = optional_text(form, "cursor"@);
            match optional_number(form, "limit"@) {
                Err(e) => Err(e),
                Ok(limit) => {
                    let xdr = optional_text(form, "xdrFormat"@);
                    if cursor is Some && start is Some {
                        Err("Provide either startLedger or cursor, not both"@)
                    } else {
                        Ok(
                            ParamView::Object(
                                entry_if("startLedger"@, number_view(start)) + entry_if(
                                    "xdrFormat"@,
                                    text_view(xdr),
                                ) + pagination_entry(limit, cursor),
                            ),
                        )
                    }
                },
            }
        },
    }
}

/// Builds the parameters of a paged request.
pub fn build_paged_request(form: &FormState) -> (r: Result<ParamValue, String>)
    ensures
        built_view(r) == paged_params(form@),
{
    let start_ledger = match parse_optional_u64(form, "startLedger") {
        Ok(v) => v,
        Err(e) => return Err(e),
    };
    let cursor = parse_optional_string(form, "cursor");
    let limit = match parse_optional_u64(form, "limit") {
        Ok(v) => v,
        Err(e) => return Err(e),
    };
    let xdr_format = parse_optional_string(form, "xdrFormat");

    // Stellar RPC pagination accepts a cursor or a start ledger seed, never both
    if cursor.is_some() && start_ledger.is_some() {
        return Err(owned("Provide either startLedger or cursor, not both"));
    }
    let ghost cv = crate::text::opt_view(cursor);
    let ghost xv = crate::text::opt_view(xdr_format);
    let mut params = Entries::new();
    params.push_if("startLedger", number_param(start_ledger));
    params.push_if("xdrFormat", text_param(xdr_format));
    // Keeps pagination nested to match RPC request schema
    push_pagination(&mut params, limit, cursor);
    assert(params.eview() =~= entry_if("startLedger"@, number_view(start_ledger)) + entry_if(
        "xdrFormat"@,
        text_view(xv),
    ) + pagination_entry(limit, cv));
    Ok(params.into_object())
}

/// Shared field schema for methods that expose the same ledger pagination contract.
pub fn paged_fields() -> (r: Vec<FieldSpec>)
    ensures
        r@ == paged_field_specs(),
{
    let r = vec![
        FieldSpec {
            key: "startLedger",
            label: "Start ledger",
            field_type: FieldType::Number,
            optional: true,
            default_value: "",
            hint: "Inclusive start ledger sequence",
        },
        FieldSpec {
            key: "cursor",
            label: "Cursor",
            field_type: FieldType::Text,
            optional: true,
            default_value: "",
            hint: "Use instead of 'startLedger'",
        },
        FieldSpec {
            key: "limit",
            label: "Limit",
            field_type: FieldType::Number,
            optional: true,
            default_value: "10",
            hint: "1-10000 (default: 10)",
        },
        FieldSpec {
            key: "xdrFormat",
            label: "XDR format",
            field_type: FieldType::Text,
            optional: true,
            default_value: "json",
            hint: "'json' (default) or 'base64'",
        },
    ];
    assert(r@ =~= paged_field_specs());
    r
}

} // verus!
