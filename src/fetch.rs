use vstd::prelude::*;
use crate::record::Data;

verus! {

/// The one outcome of a failed fetch: network errors, error statuses and
/// malformed bodies are not told apart.
pub struct FetchFailed;

/// The status of the single fetch made at start-up.
pub enum FetchState {
    /// No response yet.
    Pending,
    /// The records, in the order the server sent them.
    Loaded(Vec<Data>),
    /// The fetch failed; only a reload recovers.
    Failed,
}

impl FetchState {
    /// The status before the response arrives.
    pub fn new() -> (r: FetchState)
        ensures
            r is Pending,
    {
        FetchState::Pending
    }

    /// Records the fetch's outcome. Only the first outcome counts: a settled
    /// status never changes again.
    pub fn settle(&mut self, outcome: Result<Vec<Data>, FetchFailed>)
        ensures
            *old(self) is Pending ==> match outcome {
                Ok(items) => *final(self) == FetchState::Loaded(items),
                Err(_) => *final(self) is Failed,
            },
            !(*old(self) is Pending) ==> *final(self) == *old(self),
    {
        if let FetchState::Pending = self {
            *self = match outcome {
                Ok(items) => FetchState::Loaded(items),
                Err(_) => FetchState::Failed,
            };
        }
    }
}

/// The data endpoint for a deployment and an API version.
pub open spec fn data_url_spec(deployment_id: Seq<char>, api_version: Seq<char>) -> Seq<char> {
    "https://script.google.com/macros/s/"@ + deployment_id + "/exec?v=v"@ + api_version
}

/// The URL of the single GET made at start-up.
pub fn data_url(deployment_id: &str, api_version: &str) -> (r: String)
    ensures
        r@ == data_url_spec(deployment_id@, api_version@),
{
    let mut url = String::from_str("https://script.google.com/macros/s/");
    url.append(deployment_id);
    url.append("/exec?v=v");
    url.append(api_version);
    url
}

/// The fetch's outcome from the response's status and its body read as
/// records (`None` when the body is not a JSON array of records). Only a 2xx
/// status with a readable body succeeds.
pub fn response_outcome(status: u16, records: Option<Vec<Data>>) -> (r: Result<Vec<Data>, FetchFailed>)
    ensures
        r is Ok <==> (200 <= status <= 299 && records is Some),
        r is Ok ==> records == Some(r->Ok_0),
{
    if 200 <= status && status <= 299 {
        match records {
            Some(items) => Ok(items),
            None => Err(FetchFailed),
        }
    } else {
        Err(FetchFailed)
    }
}

} // verus!
