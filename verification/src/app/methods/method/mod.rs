pub mod get_events;
pub mod get_fee_stats;
pub mod get_health;
pub mod get_latest_ledger;
pub mod get_ledger_entries;
pub mod get_ledgers;
pub mod get_network;
pub mod get_transaction;
pub mod get_transactions;
pub mod get_version_info;
pub mod send_transaction;
pub mod simulate_transaction;
