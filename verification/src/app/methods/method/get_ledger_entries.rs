//! Stellar RPC method getLedgerEntries

use vstd::prelude::*;

use crate::app::model::forms::{FieldSpec, FieldType, FormState, FormView};
use crate::app::methods::helpers::list_value;
use crate::app::methods::params::{built_view, text_array, Entries, ParamValue, ParamView};
use crate::app::methods::{parse_list, MethodId, MethodSpec};
use crate::text::owned;

verus! {

/// Ledger keys.
pub open spec fn fields() -> Seq<FieldSpec> {
    seq![
        FieldSpec {
            key: "keys",
            label: "Ledger keys",
            field_type: FieldType::List,
            optional: false,
            default_value: "",
            hint: "Base64 LedgerKey values",
        },
    ]
}

/// The keys, at least one.
pub open spec fn params(form: FormView) -> Result<ParamView, Seq<char>> {
    let keys = list_value(form, "keys"@);
    if keys.len() == 0 {
        Err("At least one ledger key is required"@)
    } else {
        Ok(
            ParamView::Object(
                seq![("keys"@, ParamView::Array(keys.map_values(|t: Seq<char>| ParamView::Text(t))))],
            ),
        )
    }
}

/// Returns the method specification
pub fn spec() -> (r: MethodSpec)
    ensures
        r.id == MethodId::GetLedgerEntries,
        r.name == "getLedgerEntries",
        r.http_method == "POST",
        r.fields@ == fields(),
        r.help == "Returns ledger entries.",
{
    let r = MethodSpec {
        id: MethodId::GetLedgerEntries,
        name: "getLedgerEntries",
        http_method: "POST",
        fields: vec![
            FieldSpec {
                key: "keys",
                label: "Ledger keys",
                field_type: FieldType::List,
                optional: false,
                default_value: "",
                hint: "Base64 LedgerKey values",
            },
        ],
        help: "Returns ledger entries.",
    };
    assert(r.fields@ =~= fields());
    r
}

/// Builds the JSON-RPC params object from form values
pub fn build(form: &FormState) -> (r: Result<ParamValue, String>)
    ensures
        built_view(r) == params(form@),
{
    let keys = parse_list(form, "keys");
    // Empty key sets are rejected by the endpoint and should fail fast in UI
    if keys.len() == 0 {
        return Err(owned("At least one ledger key is required"));
    }
    let ghost kv = keys.deep_view();
    let mut params = Entries::new();
    params.push("keys", text_array(&keys));
    assert(params.eview() =~= seq![
        ("keys"@, ParamView::Array(kv.map_values(|t: Seq<char>| ParamView::Text(t)))),
    ]);
    Ok(params.into_object())
}

} // verus!
