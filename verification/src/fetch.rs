//! The outbound request to the address service, as the handler sees it.

use vstd::prelude::*;

verus! {

/// What one request to the address service came to.
#[derive(Debug)]
pub enum FetchOutcome {
    /// No usable answer: the service could not be reached, the exchange
    /// broke off, or the body could not be read as text.
    Failed,
    /// An answer arrived, with its status code and its body as text.
    Answered { status: u16, body: String },
}

/// A status code in the success class, 200 to 299.
pub open spec fn is_success_status(status: u16) -> bool {
    200 <= status < 300
}

impl FetchOutcome {
    /// The address text that this outcome carries: the body of an answer with
    /// a success status, taken as it came. Every other outcome carries none.
    pub open spec fn ip(self) -> Option<Seq<char>> {
        match self {
            FetchOutcome::Failed => None,
            FetchOutcome::Answered { status, body } => if is_success_status(status) {
                Some(body@)
            } else {
                None
            },
        }
    }
}

/// The address service: one fixed location, asked without credentials.
pub fn ip_service_url() -> (url: &'static str)
    ensures
        url@ == "http://httpbin.org/ip"@,
{
    "http://httpbin.org/ip"
}

/// Tells whether `status` is in the success class.
pub fn is_success(status: u16) -> (ok: bool)
    ensures
        ok == is_success_status(status),
{
    200 <= status && status < 300
}

/// Takes the address text out of an outcome. The body is neither parsed nor
/// checked: it is handed on exactly when the answer's status is a success.
pub fn fetched_ip(outcome: FetchOutcome) -> (ip: Option<String>)
    ensures
        ip is Some <==> outcome.ip() is Some,
        ip matches Some(text) ==> outcome.ip() == Some(text@),
{
    match outcome {
        FetchOutcome::Failed => None,
        FetchOutcome::Answered { status, body } => {
            if is_success(status) {
                Some(body)
            } else {
                None
            }
        },
    }
}

} // verus!
