//! Method identities and specifications.

use vstd::prelude::*;

use crate::app::model::forms::{FieldSpec, FormState, FormView};

use super::method::{
    get_events, get_fee_stats, get_health, get_latest_ledger, get_ledger_entries, get_ledgers,
    get_network, get_transaction, get_transactions, get_version_info, send_transaction,
    simulate_transaction,
};
use super::helpers::{optional_number, optional_text};
use super::params::{built_view, entry_if, number_view, pagination_entry, text_view, ParamValue, ParamView};
use super::validation::{request_errors, validate_request_form, ErrorMap};

verus! {

/// Discriminant for each supported Stellar RPC method.
#[derive(Debug, Clone, Copy, PartialEq, Eq, Structural)]
pub enum MethodId {
    GetEvents,
    GetFeeStats,
    GetHealth,
    GetLatestLedger,
    GetLedgerEntries,
    GetLedgers,
    GetNetwork,
    GetTransaction,
    GetTransactions,
    GetVersionInfo,
    SendTransaction,
    SimulateTransaction,
}

/// Full specification for an RPC method: metadata, fields, and help text.
#[derive(Debug, Clone)]
pub struct MethodSpec {
    pub id: MethodId,
    pub name: &'static str,
    pub http_method: &'static str,
    pub fields: Vec<FieldSpec>,
    pub help: &'static str,
}

/// The RPC name of a method.
pub open spec fn method_name(id: MethodId) -> &'static str {
    match id {
        MethodId::GetEvents => "getEvents",
        MethodId::GetFeeStats => "getFeeStats",
        MethodId::GetHealth => "getHealth",
        MethodId::GetLatestLedger => "getLatestLedger",
        MethodId::GetLedgerEntries => "getLedgerEntries",
        MethodId::GetLedgers => "getLedgers",
        MethodId::GetNetwork => "getNetwork",
        MethodId::GetTransaction => "getTransaction",
        MethodId::GetTransactions => "getTransactions",
        MethodId::GetVersionInfo => "getVersionInfo",
        MethodId::SendTransaction => "sendTransaction",
        MethodId::SimulateTransaction => "simulateTransaction",
    }
}

/// The help text of a method.
pub open spec fn method_help(id: MethodId) -> &'static str {
    match id {
        MethodId::GetEvents => "Returns contract events.",
        MethodId::GetFeeStats => "Returns statistics about network fees.",
        MethodId::GetHealth => "Returns the health of the RPC node.",
        MethodId::GetLatestLedger => "Returns the latest known ledger.",
        MethodId::GetLedgerEntries => "Returns ledger entries.",
        MethodId::GetLedgers => "Returns list of ledgers.",
        MethodId::GetNetwork => "Returns general network information.",
        MethodId::GetTransaction => "Returns transaction details.",
        MethodId::GetTransactions => "Returns list of transactions.",
        MethodId::GetVersionInfo => "Returns version information.",
        MethodId::SendTransaction => "Submits a transaction.",
        MethodId::SimulateTransaction => "Submits a trial contract invocation transaction.",
    }
}

/// The request fields of a method.
pub open spec fn method_fields(id: MethodId) -> Seq<FieldSpec> {
    match id {
        MethodId::GetEvents => get_events::fields(),
        MethodId::GetFeeStats => get_fee_stats::fields(),
        MethodId::GetHealth => get_health::fields(),
        MethodId::GetLatestLedger => get_latest_ledger::fields(),
        MethodId::GetLedgerEntries => get_ledger_entries::fields(),
        MethodId::GetLedgers => get_ledgers::fields(),
        MethodId::GetNetwork => get_network::fields(),
        MethodId::GetTransaction => get_transaction::fields(),
        MethodId::GetTransactions => get_transactions::fields(),
        MethodId::GetVersionInfo => get_version_info::fields(),
        MethodId::SendTransaction => send_transaction::fields(),
        MethodId::SimulateTransaction => simulate_transaction::fields(),
    }
}

/// The parameters a method sends for a form, or the message why it cannot.
pub open spec fn method_params(id: MethodId, form: FormView) -> Result<ParamView, Seq<char>> {
    match id {
        MethodId::GetEvents => get_events::params(form),
        MethodId::GetFeeStats => get_fee_stats::params(form),
        MethodId::GetHealth => get_health::params(form),
        MethodId::GetLatestLedger => get_latest_ledger::params(form),
        MethodId::GetLedgerEntries => get_ledger_entries::params(form),
        MethodId::GetLedgers => get_ledgers::params(form),
        MethodId::GetNetwork => get_network::params(form),
        MethodId::GetTransaction => get_transaction::params(form),
        MethodId::GetTransactions => get_transactions::params(form),
        MethodId::GetVersionInfo => get_version_info::params(form),
        MethodId::SendTransaction => send_transaction::params(form),
        MethodId::SimulateTransaction => simulate_transaction::params(form),
    }
}

impl MethodSpec {
    /// The specification of method `id`: its name, the POST verb, its fields and help.
    pub open spec fn describes(&self, id: MethodId) -> bool {
        &&& self.id == id
        &&& self.name == method_name(id)
        &&& self.http_method == "POST"
        &&& self.fields@ == method_fields(id)
        &&& self.help == method_help(id)
    }

    /// Builds JSON RPC params from current form values.
    pub fn build_params(&self, form: &FormState) -> (r: Result<ParamValue, String>)
        ensures
            built_view(r) == method_params(self.id, form@),
    {
        // Per method builders keep RPC specific payload shape close to field definitions
        match self.id {
            MethodId::GetEvents => get_events::build(form),
            MethodId::GetFeeStats => get_fee_stats::build(form),
            MethodId::GetHealth => get_health::build(form),
            MethodId::GetLatestLedger => get_latest_ledger::build(form),
            MethodId::GetLedgerEntries => get_ledger_entries::build(form),
            MethodId::GetLedgers => get_ledgers::build(form),
            MethodId::GetNetwork => get_network::build(form),
            MethodId::GetTransaction => get_transaction::build(form),
            MethodId::GetTransactions => get_transactions::build(form),
            MethodId::GetVersionInfo => get_version_info::build(form),
            MethodId::SendTransaction => send_transaction::build(form),
            MethodId::SimulateTransaction => simulate_transaction::build(form),
        }
    }

    /// Validates form values and returns field errors.
    pub fn validate(&self, form: &FormState) -> (r: ErrorMap)
        ensures
            r@ == request_errors(self.id, self.fields@, form@),
    {
        // Validation remains centralized so UI can reuse one error model for all methods
        validate_request_form(self, form)
    }
}

/// Whether a `pagination` object among the entries holds the entry.
pub open spec fn paginated_with(es: Seq<(Seq<char>, ParamView)>, entry: (Seq<char>, ParamView)) -> bool {
    exists|ps: Seq<(Seq<char>, ParamView)>|
        #[trigger] es.contains(("pagination"@, ParamView::Object(ps))) && ps.contains(entry)
}

/// What the pagination entries hold: the limit and the cursor that were given.
proof fn lemma_pagination_holds(limit: Option<u64>, cursor: Option<Seq<char>>)
    ensures
        limit is Some ==> paginated_with(pagination_entry(limit, cursor), ("limit"@, ParamView::Number(limit->0))),
        cursor is Some ==> paginated_with(pagination_entry(limit, cursor), ("cursor"@, ParamView::Text(cursor->0))),
{
    if limit is Some || cursor is Some {
        let ps = entry_if("limit"@, number_view(limit)) + entry_if("cursor"@, text_view(cursor));
        let pe = pagination_entry(limit, cursor);
        assert(pe[0] == ("pagination"@, ParamView::Object(ps)));
        assert(pe.contains(("pagination"@, ParamView::Object(ps))));
        if limit is Some {
            assert(ps[0] == ("limit"@, ParamView::Number(limit->0)));
            assert(ps.contains(("limit"@, ParamView::Number(limit->0))));
        }
        if cursor is Some {
            let k = entry_if("limit"@, number_view(limit)).len() as int;
            assert(ps[k] == ("cursor"@, ParamView::Text(cursor->0)));
            assert(ps.contains(("cursor"@, ParamView::Text(cursor->0))));
        }
    }
}

/// Entries of a part are entries of the whole.
proof fn lemma_part_entries(
    a: Seq<(Seq<char>, ParamView)>,
    b: Seq<(Seq<char>, ParamView)>,
    c: Seq<(Seq<char>, ParamView)>,
)
    ensures
        forall|x: (Seq<char>, ParamView)| #[trigger] b.contains(x) ==> (a + b + c).contains(x),
        forall|x: (Seq<char>, ParamView)| paginated_with(b, x) ==> #[trigger] paginated_with(a + b + c, x),
{
    assert forall|x: (Seq<char>, ParamView)| #[trigger] b.contains(x) implies (a + b + c).contains(x) by {
        let i = choose|i: int| 0 <= i < b.len() && b[i] == x;
        assert((a + b + c)[a.len() + i] == x);
    }
    assert forall|x: (Seq<char>, ParamView)| paginated_with(b, x) implies #[trigger] paginated_with(a + b + c, x) by {
        let ps = choose|ps: Seq<(Seq<char>, ParamView)>|
            #[trigger] b.contains(("pagination"@, ParamView::Object(ps))) && ps.contains(x);
        assert((a + b + c).contains(("pagination"@, ParamView::Object(ps))));
    }
}

/// An entry that is given is among the entries of `entry_if`.
proof fn lemma_entry_given(key: Seq<char>, v: Option<ParamView>)
    ensures
        v is Some ==> entry_if(key, v).contains((key, v->0)),
{
    if v is Some {
        assert(entry_if(key, v)[0] == (key, v->0));
    }
}

/// The values a paged request sends, as the laws below state them.
pub open spec fn sends_typed_values(form: FormView, es: Seq<(Seq<char>, ParamView)>) -> bool {
    &&& optional_number(form, "startLedger"@) matches Ok(Some(n)) ==> es.contains(
        ("startLedger"@, ParamView::Number(n)),
    )
    &&& optional_text(form, "xdrFormat"@) matches Some(x) ==> es.contains(("xdrFormat"@, ParamView::Text(x)))
    &&& optional_number(form, "limit"@) matches Ok(Some(l)) ==> paginated_with(
        es,
        ("limit"@, ParamView::Number(l)),
    )
    &&& optional_text(form, "cursor"@) matches Some(c) ==> paginated_with(es, ("cursor"@, ParamView::Text(c)))
}

/// The entries of a part are found in the whole, however the whole is cut.
proof fn lemma_sent_from_parts(
    form: FormView,
    before: Seq<(Seq<char>, ParamView)>,
    se: Seq<(Seq<char>, ParamView)>,
    mid: Seq<(Seq<char>, ParamView)>,
    xe: Seq<(Seq<char>, ParamView)>,
    pe: Seq<(Seq<char>, ParamView)>,
    after: Seq<(Seq<char>, ParamView)>,
)
    requires
        se == entry_if("startLedger"@, number_view(optional_number(form, "startLedger"@)->Ok_0)),
        xe == entry_if("xdrFormat"@, text_view(optional_text(form, "xdrFormat"@))),
        pe == pagination_entry(optional_number(form, "limit"@)->Ok_0, optional_text(form, "cursor"@)),
    ensures
        sends_typed_values(form, before + se + mid + xe + pe + after),
{
    let es = before + se + mid + xe + pe + after;
    let start = optional_number(form, "startLedger"@)->Ok_0;
    let limit = optional_number(form, "limit"@)->Ok_0;
    let cursor = optional_text(form, "cursor"@);
    let xdr = optional_text(form, "xdrFormat"@);
    lemma_entry_given("startLedger"@, number_view(start));
    lemma_entry_given("xdrFormat"@, text_view(xdr));
    lemma_pagination_holds(limit, cursor);
    lemma_part_entries(before, se, mid + xe + pe + after);
    assert(es =~= before + se + (mid + xe + pe + after));
    lemma_part_entries(before + se + mid, xe, pe + after);
    assert(es =~= (before + se + mid) + xe + (pe + after));
    lemma_part_entries(before + se + mid + xe, pe, after);
}

/// A paged request of ledgers or transactions sends every value typed in its
/// form that reads.
proof fn lemma_paged_sent(form: FormView, es: Seq<(Seq<char>, ParamView)>)
    requires
        super::paging::paged_params(form) == Ok::<ParamView, Seq<char>>(ParamView::Object(es)),
    ensures
        sends_typed_values(form, es),
{
    let se = entry_if("startLedger"@, number_view(optional_number(form, "startLedger"@)->Ok_0));
    let xe = entry_if("xdrFormat"@, text_view(optional_text(form, "xdrFormat"@)));
    let pe = pagination_entry(optional_number(form, "limit"@)->Ok_0, optional_text(form, "cursor"@));
    assert(es =~= Seq::empty() + se + Seq::empty() + xe + pe + Seq::empty());
    lemma_sent_from_parts(form, Seq::empty(), se, Seq::empty(), xe, pe, Seq::empty());
}

/// An event request sends every value typed in its form that reads, the end
/// ledger among them.
#[verifier::rlimit(40)]
proof fn lemma_events_sent(form: FormView, es: Seq<(Seq<char>, ParamView)>)
    requires
        get_events::params(form) == Ok::<ParamView, Seq<char>>(ParamView::Object(es)),
    ensures
        sends_typed_values(form, es),
        optional_number(form, "endLedger"@) matches Ok(Some(n)) ==> es.contains(
            ("endLedger"@, ParamView::Number(n)),
        ),
{
    let se = entry_if("startLedger"@, number_view(optional_number(form, "startLedger"@)->Ok_0));
    let end = optional_number(form, "endLedger"@)->Ok_0;
    let ee = entry_if("endLedger"@, number_view(end));
    let xe = entry_if("xdrFormat"@, text_view(optional_text(form, "xdrFormat"@)));
    let pe = pagination_entry(optional_number(form, "limit"@)->Ok_0, optional_text(form, "cursor"@));
    let fe = es.subrange((se.len() + ee.len() + xe.len() + pe.len()) as int, es.len() as int);
    assert(es =~= Seq::empty() + se + ee + xe + pe + fe);
    lemma_sent_from_parts(form, Seq::empty(), se, ee, xe, pe, fe);
    lemma_entry_given("endLedger"@, number_view(end));
    lemma_part_entries(se, ee, xe + pe + fe);
    assert(es =~= se + ee + (xe + pe + fe));
}

/// The ledger-paged methods send every value typed in their form that reads: a
/// start (and, for events, an end) ledger as its number, the XDR format as its
/// text, and the limit and cursor inside `pagination`.
pub proof fn lemma_typed_values_sent(id: MethodId, form: FormView, es: Seq<(Seq<char>, ParamView)>)
    requires
        id == MethodId::GetEvents || id == MethodId::GetLedgers || id == MethodId::GetTransactions,
        method_params(id, form) == Ok::<ParamView, Seq<char>>(ParamView::Object(es)),
    ensures
        sends_typed_values(form, es),
        id == MethodId::GetEvents ==> (optional_number(form, "endLedger"@) matches Ok(Some(n))
            ==> es.contains(("endLedger"@, ParamView::Number(n)))),
{
    if id == MethodId::GetEvents {
        lemma_events_sent(form, es);
    } else {
        lemma_paged_sent(form, es);
    }
}

} // verus!
