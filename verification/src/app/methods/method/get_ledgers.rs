//! Stellar RPC method getLedgers

use vstd::prelude::*;

use crate::app::model::forms::{FieldSpec, FormState, FormView};
use crate::app::methods::params::{built_view, ParamValue, ParamView};
use crate::app::methods::paging::{paged_field_specs, paged_params};
use crate::app::methods::{build_paged_request, paged_fields, MethodId, MethodSpec};

verus! {

/// The ledger pagination fields.
pub open spec fn fields() -> Seq<FieldSpec> {
    paged_field_specs()
}

/// The ledger pagination parameters.
pub open spec fn params(form: FormView) -> Result<ParamView, Seq<char>> {
    paged_params(form)
}

/// Returns the method specification
pub fn spec() -> (r: MethodSpec)
    ensures
        r.id == MethodId::GetLedgers,
        r.name == "getLedgers",
        r.http_method == "POST",
        r.fields@ == fields(),
        r.help == "Returns list of ledgers.",
{
    MethodSpec {
        id: MethodId::GetLedgers,
        name: "getLedgers",
        http_method: "POST",
        fields: paged_fields(),
        help: "Returns list of ledgers.",
    }
}

/// Builds the JSON-RPC params object from form values
pub fn build(form: &FormState) -> (r: Result<ParamValue, String>)
    ensures
        built_view(r) == params(form@),
{
    // Reuses the shared pagination contract used by ledger and transaction list endpoints
    build_paged_request(form)
}

} // verus!
