use vstd::prelude::*;
use crate::decimal::decimal;
use crate::greeting::GreetingView;
use crate::response::{response_of, ResponseView, NOT_FOUND, OK};
use crate::routing::{is_get_path, is_post_path, is_segment, route_of, Method};

verus! {

/// `GET /hello` is answered with status 200 and `Hello, world!` and a newline,
/// whatever the request body holds.
pub proof fn lemma_default_greeting(body: Option<GreetingView>)
    ensures
        response_of(route_of(Method::Get, "/hello"@), body) == (ResponseView {
            status: OK,
            body: "Hello, world!\n"@,
        }),
        OK == 200,
{
    reveal_strlit("/hello");
    reveal_strlit("Hello, ");
    reveal_strlit("world");
    reveal_strlit("!\n");
    reveal_strlit("Hello, world!\n");
    assert("Hello, "@ + "world"@ + "!\n"@ =~= "Hello, world!\n"@);
}

/// `GET /hello/<s>`, for any non-empty `s` without a slash (every printable
/// ASCII token among them), is answered with status 200 and `Hello, <s>!` and a
/// newline.
pub proof fn lemma_named_greeting(s: Seq<char>, body: Option<GreetingView>)
    requires
        is_segment(s),
    ensures
        response_of(route_of(Method::Get, "/hello/"@ + s), body) == (ResponseView {
            status: OK,
            body: "Hello, "@ + s + "!\n"@,
        }),
{
    reveal_strlit("/hello");
    reveal_strlit("/hello/");
    let path = "/hello/"@ + s;
    assert(path.len() != "/hello"@.len());
    assert(path.subrange(0, 7) =~= "/hello/"@);
    assert(path.skip(7) =~= s);
}

/// `POST /hello_json` with a payload of name `name` and age `age` is answered
/// with status 200 and `Hello, <name>!, you appear to be <age>` and a newline,
/// the age in base ten.
pub proof fn lemma_json_greeting(name: Seq<char>, age: u16)
    ensures
        response_of(
            route_of(Method::Post, "/hello_json"@),
            Some(GreetingView { name, age: age as nat }),
        ) == (ResponseView {
            status: OK,
            body: "Hello, "@ + name + "!, you appear to be "@ + decimal(age as nat) + "\n"@,
        }),
{
}

/// `POST /hello_json` with a body that cannot be read as a payload (not JSON,
/// a field missing, a field of the wrong type) is answered with a client error.
pub proof fn lemma_bad_payload()
    ensures
        400 <= response_of(route_of(Method::Post, "/hello_json"@), None).status < 500,
{
}

/// The answers to a sequence of requests, each given by its method, its path
/// and the payload read from its body.
pub open spec fn serve(requests: Seq<(Method, Seq<char>, Option<GreetingView>)>) -> Seq<
    ResponseView,
> {
    requests.map_values(
        |r: (Method, Seq<char>, Option<GreetingView>)| response_of(route_of(r.0, r.1), r.2),
    )
}

/// The same request sent any number of times gets the same answer each time:
/// nothing that one request leaves behind changes the next answer.
pub proof fn lemma_repeatable(
    request: (Method, Seq<char>, Option<GreetingView>),
    requests: Seq<(Method, Seq<char>, Option<GreetingView>)>,
)
    requires
        forall|i: int| 0 <= i < requests.len() ==> requests[i] == request,
    ensures
        serve(requests).len() == requests.len(),
        forall|i: int|
            0 <= i < requests.len() ==> #[trigger] serve(requests)[i] == serve(seq![request])[0],
{
}

/// A request to a path that is not registered, with any method, is answered
/// with status 404.
pub proof fn lemma_unregistered(m: Method, path: Seq<char>, body: Option<GreetingView>)
    requires
        !is_get_path(path),
        !is_post_path(path),
    ensures
        response_of(route_of(m, path), body).status == NOT_FOUND,
        NOT_FOUND == 404,
{
}

} // verus!
