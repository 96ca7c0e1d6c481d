//! The list of supported methods.

use vstd::prelude::*;

use super::method::{
    get_events, get_fee_stats, get_health, get_latest_ledger, get_ledger_entries, get_ledgers,
    get_network, get_transaction, get_transactions, get_version_info, send_transaction,
    simulate_transaction,
};
use super::{MethodId, MethodSpec};

verus! {

/// The methods in the order the interface lists them.
pub open spec fn method_order() -> Seq<MethodId> {
    seq![
        MethodId::GetEvents,
        MethodId::GetFeeStats,
        MethodId::GetHealth,
        MethodId::GetLatestLedger,
        MethodId::GetLedgerEntries,
        MethodId::GetLedgers,
        MethodId::GetNetwork,
        MethodId::GetTransaction,
        MethodId::GetTransactions,
        MethodId::GetVersionInfo,
        MethodId::SendTransaction,
        MethodId::SimulateTransaction,
    ]
}

/// Returns the complete, ordered list of supported RPC method specs.
pub fn method_specs() -> (r: Vec<MethodSpec>)
    ensures
        r.len() == method_order().len(),
        forall|i: int| 0 <= i < r.len() ==> (#[trigger] r[i]).describes(method_order()[i]),
{
    // Order here defines method list order in the UI
    let r = vec![
        get_events::spec(),
        get_fee_stats::spec(),
        get_health::spec(),
        get_latest_ledger::spec(),
        get_ledger_entries::spec(),
        get_ledgers::spec(),
        get_network::spec(),
        get_transaction::spec(),
        get_transactions::spec(),
        get_version_info::spec(),
        send_transaction::spec(),
        simulate_transaction::spec(),
    ];
    r
}

} // verus!
