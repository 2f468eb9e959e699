//! Product safety-assessment browser: the records, the product-name filter,
//! the UI state machine, the fetch status and what the page renders from them.

pub mod fetch;
pub mod filter;
pub mod record;
pub mod state;
pub mod view;
