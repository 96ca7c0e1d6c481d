//! Stellar RPC method getTransaction

use vstd::prelude::*;

use crate::app::model::forms::{FieldSpec, FieldType, FormState, FormView};
use crate::app::methods::helpers::{optional_text, required_text};
use crate::app::methods::params::{
    built_view, entry_if, text_param, text_view, Entries, ParamValue, ParamView,
};
use crate::app::methods::{parse_optional_string, parse_required_string, MethodId, MethodSpec};

verus! {

/// A transaction hash and the XDR format.
pub open spec fn fields() -> Seq<FieldSpec> {
    seq![
        FieldSpec {
            key: "hash",
            label: "Transaction hash",
            field_type: FieldType::Text,
            optional: false,
            default_value: "",
            hint: "64-char hex",
        },
        FieldSpec {
            key: "xdrFormat",
            label: "XDR format",
            field_type: FieldType::Text,
            optional: true,
            default_value: "json",
            hint: "'json' (default) or 'base64'",
        },
    ]
}

/// The hash, required, and the XDR format when given.
pub open spec fn params(form: FormView) -> Result<ParamView, Seq<char>> {
    match required_text(form, "hash"@) {
        Err(e) => Err(e),
        Ok(hash) => Ok(
            ParamView::Object(
                seq![("hash"@, ParamView::Text(hash))] + entry_if(
                    "xdrFormat"@,
                    text_view(optional_text(form, "xdrFormat"@)),
                ),
            ),
        ),
    }
}

/// Returns the method specification
pub fn spec() -> (r: MethodSpec)
    ensures
        r.id == MethodId::GetTransaction,
        r.name == "getTransaction",
        r.http_method == "POST",
        r.fields@ == fields(),
        r.help == "Returns transaction details.",
{
    let r = MethodSpec {
        id: MethodId::GetTransaction,
        name: "getTransaction",
        http_method: "POST",
        fields: vec![
            FieldSpec {
                key: "hash",
                label: "Transaction hash",
                field_type: FieldType::Text,
                optional: false,
                default_value: "",
                hint: "64-char hex",
            },
            FieldSpec {
                key: "xdrFormat",
                label: "XDR format",
                field_type: FieldType::Text,
                optional: true,
                default_value: "json",
                hint: "'json' (default) or 'base64'",
            },
        ],
        help: "Returns transaction details.",
    };
    assert(r.fields@ =~= fields());
    r
}

/// Builds the JSON-RPC params object from form values
pub fn build(form: &FormState) -> (r: Result<ParamValue, String>)
    ensures
        built_view(r) == params(form@),
{
    // Transaction hash is the only lookup key accepted by the endpoint
    let hash = match parse_required_string(form, "hash") {
        Ok(h) => h,
        Err(e) => return Err(e),
    };
    let xdr_format = parse_optional_string(form, "xdrFormat");
    let ghost hv = hash@;
    let ghost xv = crate::text::opt_view(xdr_format);
    let mut params = Entries::new();
    params.push("hash", ParamValue::Text(hash));
    params.push_if("xdrFormat", text_param(xdr_format));
    assert(params.eview() =~= seq![("hash"@, ParamView::Text(hv))] + entry_if(
        "xdrFormat"@,
        text_view(xv),
    ));
    Ok(params.into_object())
}

} // verus!
