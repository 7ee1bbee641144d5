use vstd::prelude::*;
use crate::greeting::{default_name, greet, greet_json, greeting_text, hello_text, Greeting, GreetingView};
use crate::routing::{Endpoint, EndpointView};

verus! {

/// The request was answered.
pub const OK: u16 = 200;

/// The path is not registered.
pub const NOT_FOUND: u16 = 404;

/// The path is registered, but not for the request's method.
pub const METHOD_NOT_ALLOWED: u16 = 405;

/// The body of a JSON greeting request could not be read as a payload.
pub const UNPROCESSABLE_ENTITY: u16 = 422;

/// A status code and a plain-text body.
#[derive(Debug, PartialEq, Eq)]
pub struct Response {
    pub status: u16,
    pub body: String,
}

/// A response as plain values.
pub struct ResponseView {
    pub status: u16,
    pub body: Seq<char>,
}

impl View for Response {
    type V = ResponseView;

    open spec fn view(&self) -> ResponseView {
        ResponseView { status: self.status, body: self.body@ }
    }
}

/// The payload of a request as plain values; `None` where the body could not
/// be read as a payload.
pub open spec fn payload_view(body: Option<Greeting>) -> Option<GreetingView> {
    match body {
        Some(g) => Some(g@),
        None => None,
    }
}

/// What the service answers at `endpoint`, given the payload read from the
/// request body (which only the JSON greeting reads).
pub open spec fn response_of(endpoint: EndpointView, body: Option<GreetingView>) -> ResponseView {
    match endpoint {
        EndpointView::Hello => ResponseView { status: OK, body: hello_text(default_name()) },
        EndpointView::HelloName(n) => ResponseView { status: OK, body: hello_text(n) },
        EndpointView::HelloJson => match body {
            Some(g) => ResponseView { status: OK, body: greeting_text(g) },
            None => ResponseView { status: UNPROCESSABLE_ENTITY, body: Seq::empty() },
        },
        EndpointView::MethodNotAllowed => ResponseView {
            status: METHOD_NOT_ALLOWED,
            body: Seq::empty(),
        },
        EndpointView::NotFound => ResponseView { status: NOT_FOUND, body: Seq::empty() },
    }
}

/// Whether the endpoint reads the request body.
pub fn reads_body(endpoint: &Endpoint) -> (r: bool)
    ensures
        r == (endpoint@ is HelloJson),
{
    match endpoint {
        Endpoint::HelloJson => true,
        _ => false,
    }
}

/// The answer at `endpoint`, given the payload read from the request body
/// (`None` where it could not be read as one).
pub fn respond(endpoint: &Endpoint, body: Option<Greeting>) -> (r: Response)
    ensures
        r@ == response_of(endpoint@, payload_view(body)),
{
    match endpoint {
        Endpoint::Hello => Response { status: OK, body: greet(None) },
        Endpoint::HelloName(n) => Response { status: OK, body: greet(Some(n.as_str())) },
        Endpoint::HelloJson => match body {
            Some(g) => Response { status: OK, body: greet_json(&g) },
            None => Response { status: UNPROCESSABLE_ENTITY, body: String::new() },
        },
        Endpoint::MethodNotAllowed => Response { status: METHOD_NOT_ALLOWED, body: String::new() },
        Endpoint::NotFound => Response { status: NOT_FOUND, body: String::new() },
    }
}

} // verus!
