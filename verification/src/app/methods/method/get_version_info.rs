//! Stellar RPC method getVersionInfo

use vstd::prelude::*;

use crate::app::model::forms::{FieldSpec, FormState};
use crate::app::methods::params::{Entries, ParamValue, ParamView};
use crate::app::methods::{MethodId, MethodSpec};

verus! {

/// The method takes no parameters.
pub open spec fn fields() -> Seq<FieldSpec> {
    Seq::empty()
}

/// The parameters: an empty object.
pub open spec fn params(form: crate::app::model::forms::FormView) -> Result<ParamView, Seq<char>> {
    Ok(ParamView::Object(Seq::empty()))
}

/// Returns the method specification
pub fn spec() -> (r: MethodSpec)
    ensures
        r.id == MethodId::GetVersionInfo,
        r.name == "getVersionInfo",
        r.http_method == "POST",
        r.fields@ == fields(),
        r.help == "Returns version information.",
{
    let r = MethodSpec {
        id: MethodId::GetVersionInfo,
        name: "getVersionInfo",
        http_method: "POST",
        fields: Vec::new(),
        help: "Returns version information.",
    };
    assert(r.fields@ =~= fields());
    r
}

/// Builds the JSON-RPC params object from form values
pub fn build(_form: &FormState) -> (r: Result<ParamValue, String>)
    ensures
        crate::app::methods::params::built_view(r) == params(_form@),
{
    // Keep explicit empty params to produce a stable JSON-RPC request envelope
    let params = Entries::new();
    Ok(params.into_object())
}

} // verus!
