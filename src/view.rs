use vstd::prelude::*;
use crate::fetch::FetchState;
use crate::filter::{filter_by_product_name, filter_spec};
use crate::record::Data;

verus! {

/// What the main area of the page shows.
pub enum MainView {
    /// The fetch is still pending: the loading placeholder, no table.
    Loading,
    /// The fetch failed: the failure message, no table.
    Failed,
    /// The table with the explicit no-match row and no data rows.
    NoMatch,
    /// The table with one row per record, in this order.
    Rows(Vec<Data>),
}

/// The main view for the fetch status and the search text.
pub open spec fn main_view_spec(fetch: FetchState, query: Seq<char>, r: MainView) -> bool {
    match fetch {
        FetchState::Pending => r is Loading,
        FetchState::Failed => r is Failed,
        FetchState::Loaded(items) => {
            let shown = filter_spec(items@, query);
            if shown.len() == 0 {
                r is NoMatch
            } else {
                match r {
                    MainView::Rows(rows) => rows@ == shown,
                    _ => false,
                }
            }
        },
    }
}

/// Decides what the main area shows: the loading placeholder, the failure
/// message, or the table of the records whose product name contains the
/// search text.
pub fn main_view(fetch: &FetchState, search_input: &str) -> (r: MainView)
    ensures
        main_view_spec(*fetch, search_input@, r),
{
    match fetch {
        FetchState::Pending => MainView::Loading,
        FetchState::Failed => MainView::Failed,
        FetchState::Loaded(items) => {
            let rows = filter_by_product_name(items, search_input);
            if rows.len() == 0 {
                MainView::NoMatch
            } else {
                MainView::Rows(rows)
            }
        },
    }
}

} // verus!
