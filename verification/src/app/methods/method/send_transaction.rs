//! Stellar RPC method sendTransaction

use vstd::prelude::*;

use crate::app::model::forms::{FieldSpec, FieldType, FormState, FormView};
use crate::app::methods::helpers::required_text;
use crate::app::methods::params::{built_view, Entries, ParamValue, ParamView};
use crate::app::methods::{parse_required_string, MethodId, MethodSpec};

verus! {

/// A transaction envelope.
pub open spec fn fields() -> Seq<FieldSpec> {
    seq![
        FieldSpec {
            key: "transaction",
            label: "Transaction envelope XDR",
            field_type: FieldType::Text,
            optional: false,
            default_value: "",
            hint: "Base64-encoded envelope",
        },
    ]
}

/// The envelope, required.
pub open spec fn params(form: FormView) -> Result<ParamView, Seq<char>> {
    match required_text(form, "transaction"@) {
        Err(e) => Err(e),
        Ok(tx) => Ok(
            ParamView::Object(
                seq![("transaction"@, ParamView::Text(tx))],
            ),
        ),
    }
}

/// Returns the method specification
pub fn spec() -> (r: MethodSpec)
    ensures
        r.id == MethodId::SendTransaction,
        r.name == "sendTransaction",
        r.http_method == "POST",
        r.fields@ == fields(),
        r.help == "Submits a transaction.",
{
    let r = MethodSpec {
        id: MethodId::SendTransaction,
        name: "sendTransaction",
        http_method: "POST",
        fields: vec![
            FieldSpec {
                key: "transaction",
                label: "Transaction envelope XDR",
                field_type: FieldType::Text,
                optional: false,
                default_value: "",
                hint: "Base64-encoded envelope",
            },
        ],
        help: "Submits a transaction.",
    };
    assert(r.fields@ =~= fields());
    r
}

/// Builds the JSON-RPC params object from form values
pub fn build(form: &FormState) -> (r: Result<ParamValue, String>)
    ensures
        built_view(r) == params(form@),
{
    // Transaction envelope XDR is the only lookup key accepted by the endpoint
    let tx = match parse_required_string(form, "transaction") {
        Ok(h) => h,
        Err(e) => return Err(e),
    };
    let ghost hv = tx@;
    let mut params = Entries::new();
    params.push("transaction", ParamValue::Text(tx));
    assert(params.eview() =~= seq![("transaction"@, ParamView::Text(hv))]);
    Ok(params.into_object())
}

} // verus!
