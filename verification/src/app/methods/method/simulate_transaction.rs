//! Stellar RPC method simulateTransaction

use vstd::prelude::*;

use crate::app::model::forms::{FieldSpec, FieldType, FormState, FormView};
use crate::app::methods::helpers::{optional_number, optional_text, required_text};
use crate::app::methods::params::{
    built_view, entry_if, number_param, number_view, text_param, text_view, Entries,
    ParamValue, ParamView,
};
use crate::app::methods::{
    parse_optional_string, parse_optional_u64, parse_required_string, MethodId, MethodSpec,
};

verus! {

/// Envelope, instruction leeway, auth mode and XDR format.
pub open spec fn fields() -> Seq<FieldSpec> {
    seq![
        FieldSpec {
            key: "transaction",
            label: "Transaction envelope XDR",
            field_type: FieldType::Text,
            optional: false,
            default_value: "",
            hint: "Base64-encoded envelope",
        },
        FieldSpec {
            key: "instructionLeeway",
            label: "Instruction leeway",
            field_type: FieldType::Number,
            optional: true,
            default_value: "",
            hint: "Optional instruction leeway",
        },
        FieldSpec {
            key: "authMode",
            label: "Auth mode",
            field_type: FieldType::Text,
            optional: true,
            default_value: "enforce",
            hint: "'enforce' (default), 'record' or 'record_allow_nonroot'",
        },
        FieldSpec {
            key: "xdrFormat",
            label: "XDR format",
            field_type: FieldType::Text,
            optional: true,
            default_value: "json",
            hint: "'json' (default) or 'base64'",
        },
    ]
}

/// The `resourceConfig` entry: present when an instruction leeway is given.
pub open spec fn resource_config_entry(leeway: Option<u64>) -> Seq<(Seq<char>, ParamView)> {
    match leeway {
        Some(n) => seq![
            ("resourceConfig"@, ParamView::Object(seq![("instructionLeeway"@, ParamView::Number(n))])),
        ],
        None => Seq::empty(),
    }
}

/// The envelope, required; the leeway nested under `resourceConfig`; auth mode and
/// XDR format when given.
pub open spec fn params(form: FormView) -> Result<ParamView, Seq<char>> {
    match required_text(form, "transaction"@) {
        Err(e) => Err(e),
        Ok(tx) => match optional_number(form, "instructionLeeway"@) {
            Err(e) => Err(e),
            Ok(leeway) => Ok(
                ParamView::Object(
                    seq![("transaction"@, ParamView::Text(tx))] + resource_config_entry(leeway)
                        + entry_if("authMode"@, text_view(optional_text(form, "authMode"@)))
                        + entry_if("xdrFormat"@, text_view(optional_text(form, "xdrFormat"@))),
                ),
            ),
        },
    }
}

/// Returns the method specification
pub fn spec() -> (r: MethodSpec)
    ensures
        r.id == MethodId::SimulateTransaction,
        r.name == "simulateTransaction",
        r.http_method == "POST",
        r.fields@ == fields(),
        r.help == "Submits a trial contract invocation transaction.",
{
    let r = MethodSpec {
        id: MethodId::SimulateTransaction,
        name: "simulateTransaction",
        http_method: "POST",
        fields: vec![
            FieldSpec {
                key: "transaction",
                label: "Transaction envelope XDR",
                field_type: FieldType::Text,
                optional: false,
                default_value: "",
                hint: "Base64-encoded envelope",
            },
            FieldSpec {
                key: "instructionLeeway",
                label: "Instruction leeway",
                field_type: FieldType::Number,
                optional: true,
                default_value: "",
                hint: "Optional instruction leeway",
            },
            FieldSpec {
                key: "authMode",
                label: "Auth mode",
                field_type: FieldType::Text,
                optional: true,
                default_value: "enforce",
                hint: "'enforce' (default), 'record' or 'record_allow_nonroot'",
            },
            FieldSpec {
                key: "xdrFormat",
                label: "XDR format",
                field_type: FieldType::Text,
                optional: true,
                default_value: "json",
                hint: "'json' (default) or 'base64'",
            },
        ],
        help: "Submits a trial contract invocation transaction.",
    };
    assert(r.fields@ =~= fields());
    r
}

/// Builds the JSON-RPC params object from form values
pub fn build(form: &FormState) -> (r: Result<ParamValue, String>)
    ensures
        built_view(r) == params(form@),
{
    let tx = match parse_required_string(form, "transaction") {
        Ok(t) => t,
        Err(e) => return Err(e),
    };
    let instruction_leeway = match parse_optional_u64(form, "instructionLeeway") {
        Ok(v) => v,
        Err(e) => return Err(e),
    };
    let auth_mode = parse_optional_string(form, "authMode");
    let xdr_format = parse_optional_string(form, "xdrFormat");
    let ghost tv = tx@;
    let ghost av = crate::text::opt_view(auth_mode);
    let ghost xv = crate::text::opt_view(xdr_format);

    let mut params = Entries::new();
    params.push("transaction", ParamValue::Text(tx));
    let ghost before = params.eview();
    if let Some(value) = instruction_leeway {
        // RPC expects instructionLeeway nested under resourceConfig
        let mut resource_config = Entries::new();
        resource_config.push("instructionLeeway", ParamValue::Number(value));
        params.push("resourceConfig", resource_config.into_object());
    }
    assert(params.eview() =~= before + resource_config_entry(instruction_leeway));
    params.push_if("authMode", text_param(auth_mode));
    params.push_if("xdrFormat", text_param(xdr_format));
    assert(params.eview() =~= seq![("transaction"@, ParamView::Text(tv))] + resource_config_entry(
        instruction_leeway,
    ) + entry_if("authMode"@, text_view(av)) + entry_if("xdrFormat"@, text_view(xv)));
    Ok(params.into_object())
}

} // verus!
