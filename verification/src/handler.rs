//! The one request handler: a greeting, with the caller's address when the
//! address service gave one.

use vstd::prelude::*;
use vstd::string::*;
use crate::fetch::FetchOutcome;
use crate::fetch::fetched_ip;
use crate::fetch::is_success_status;
use crate::greeting::greeting;
use crate::greeting::greeting_text;

verus! {

/// The status of every reply.
pub const STATUS_OK: u16 = 200;

/// What goes back to the caller: a status code and a plain-text body.
#[derive(Debug)]
pub struct Reply {
    pub status: u16,
    pub body: String,
}

/// The body of the reply to `name`. With an address text, the greeting is
/// followed by a fixed phrase and the text; without one, the greeting stands
/// alone.
pub open spec fn response_text(name: Seq<char>, ip: Option<Seq<char>>) -> Seq<char> {
    match ip {
        Some(text) => greeting_text(name) + " The IP is: "@ + text,
        None => greeting_text(name),
    }
}

/// Puts the reply body together from a name and what the address service
/// gave.
pub fn response_body(name: &str, ip: Option<String>) -> (body: String)
    ensures
        ip matches Some(text) ==> body@ == response_text(name@, Some(text@)),
        ip is None ==> body@ == response_text(name@, None),
{
    let mut body = greeting(name);
    match ip {
        Some(text) => {
            body.append(" The IP is: ");
            body.append(text.as_str());
        },
        None => {},
    }
    body
}

/// Answers a request for `name`, given what the request to the address
/// service came to. No failure of that request reaches the caller: the reply
/// is a success either way, and only its body tells the two apart.
pub fn handle_request(name: String, outcome: FetchOutcome) -> (reply: Reply)
    ensures
        reply.status == STATUS_OK,
        reply.body@ == response_text(name@, outcome.ip()),
        greeting_text(name@).is_prefix_of(reply.body@),
        outcome is Failed ==> reply.body@ == greeting_text(name@),
        outcome matches FetchOutcome::Answered { status, body } ==> (is_success_status(status)
            ==> reply.body@ == greeting_text(name@) + " The IP is: "@ + body@),
        outcome matches FetchOutcome::Answered { status, .. } ==> (!is_success_status(status)
            ==> reply.body@ == greeting_text(name@)),
{
    let ghost carried = outcome.ip();
    let ip = fetched_ip(outcome);
    let body = response_body(name.as_str(), ip);
    proof {
        lemma_response_starts_with_greeting(name@, carried);
    }
    Reply { status: STATUS_OK, body }
}

/// Whatever the address service gave, the reply body begins with the
/// greeting for the name.
pub proof fn lemma_response_starts_with_greeting(name: Seq<char>, ip: Option<Seq<char>>)
    ensures
        greeting_text(name).is_prefix_of(response_text(name, ip)),
{
    let greeting = greeting_text(name);
    match ip {
        Some(text) => {
            let rest = " The IP is: "@ + text;
            assert(response_text(name, ip) =~= greeting + rest);
            assert((greeting + rest).subrange(0, greeting.len() as int) =~= greeting);
        },
        None => {
            assert(greeting.subrange(0, greeting.len() as int) =~= greeting);
        },
    }
}

} // verus!
