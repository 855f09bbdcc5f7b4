//! Client-side logic for a facilities asset-management service: the search
//! filter compiler, result mapping, bulk batching and the reconciliation rules
//! that bulk updates apply before each remote mutation.

pub mod alarms;
pub mod api_constants;
pub mod app_errors;
pub mod batch;
pub mod cli;
pub mod cli_data;
pub mod cli_functions;
pub mod filter;
pub mod ids;
pub mod power;
pub mod properties;
pub mod rack;
pub mod records;
pub mod search;
pub mod sensor;
pub mod text;
