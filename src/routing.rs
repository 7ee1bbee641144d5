use vstd::prelude::*;
use vstd::string::StrSliceExecFns;

verus! {

/// The request methods that the routing table tells apart.
#[derive(Debug, Clone, Copy, PartialEq, Eq, Structural)]
pub enum Method {
    Get,
    Head,
    Post,
    Other,
}

/// Where a request goes.
#[derive(Debug, PartialEq, Eq)]
pub enum Endpoint {
    /// `GET /hello`
    Hello,
    /// `GET /hello/<name>`, with the name as it stands in the path
    HelloName(String),
    /// `POST /hello_json`
    HelloJson,
    /// a registered path asked with a method that it does not take
    MethodNotAllowed,
    /// a path that is not registered
    NotFound,
}

/// An endpoint as plain values.
pub enum EndpointView {
    Hello,
    HelloName(Seq<char>),
    HelloJson,
    MethodNotAllowed,
    NotFound,
}

impl View for Endpoint {
    type V = EndpointView;

    open spec fn view(&self) -> EndpointView {
        match self {
            Endpoint::Hello => EndpointView::Hello,
            Endpoint::HelloName(n) => EndpointView::HelloName(n@),
            Endpoint::HelloJson => EndpointView::HelloJson,
            Endpoint::MethodNotAllowed => EndpointView::MethodNotAllowed,
            Endpoint::NotFound => EndpointView::NotFound,
        }
    }
}

/// The path of the default greeting.
pub open spec fn hello_path() -> Seq<char> {
    "/hello"@
}

/// What a path to a named greeting starts with.
pub open spec fn name_prefix() -> Seq<char> {
    "/hello/"@
}

/// The path of the JSON greeting.
pub open spec fn json_path() -> Seq<char> {
    "/hello_json"@
}

/// A single path segment: at least one character, none of them a slash.
pub open spec fn is_segment(s: Seq<char>) -> bool {
    s.len() > 0 && forall|i: int| 0 <= i < s.len() ==> s[i] != '/'
}

/// `path` is the name prefix followed by one segment.
pub open spec fn is_named_path(path: Seq<char>) -> bool {
    &&& name_prefix().len() <= path.len()
    &&& path.subrange(0, name_prefix().len() as int) == name_prefix()
    &&& is_segment(path.skip(name_prefix().len() as int))
}

/// The name that a named greeting path carries.
pub open spec fn name_in(path: Seq<char>) -> Seq<char> {
    path.skip(name_prefix().len() as int)
}

/// `path` is registered for `GET`.
pub open spec fn is_get_path(path: Seq<char>) -> bool {
    path == hello_path() || is_named_path(path)
}

/// `path` is registered for `POST`.
pub open spec fn is_post_path(path: Seq<char>) -> bool {
    path == json_path()
}

/// `HEAD` is answered as `GET` is.
pub open spec fn reads_as_get(m: Method) -> bool {
    m == Method::Get || m == Method::Head
}

/// The routing table: where a request with method `m` and path `path` goes.
pub open spec fn route_of(m: Method, path: Seq<char>) -> EndpointView {
    if reads_as_get(m) && path == hello_path() {
        EndpointView::Hello
    } else if reads_as_get(m) && is_named_path(path) {
        EndpointView::HelloName(name_in(path))
    } else if m == Method::Post && is_post_path(path) {
        EndpointView::HelloJson
    } else if is_get_path(path) || is_post_path(path) {
        EndpointView::MethodNotAllowed
    } else {
        EndpointView::NotFound
    }
}

/// Whether two strings hold the same characters.
fn same_text(a: &str, b: &str) -> (r: bool)
    ensures
        r == (a@ == b@),
{
    let n = a.unicode_len();
    if n != b.unicode_len() {
        return false;
    }
    let mut i: usize = 0;
    while i < n
        invariant
            n == a@.len(),
            n == b@.len(),
            i <= n,
            a@.subrange(0, i as int) == b@.subrange(0, i as int),
        decreases n - i,
    {
        if a.get_char(i) != b.get_char(i) {
            return false;
        }
        assert(a@.subrange(0, i + 1) == a@.subrange(0, i as int).push(a@[i as int]));
        assert(b@.subrange(0, i + 1) == b@.subrange(0, i as int).push(b@[i as int]));
        i = i + 1;
    }
    assert(a@ == a@.subrange(0, n as int));
    assert(b@ == b@.subrange(0, n as int));
    true
}

/// Whether `s` is a single path segment.
fn segment(s: &str) -> (r: bool)
    ensures
        r == is_segment(s@),
{
    let n = s.unicode_len();
    if n == 0 {
        return false;
    }
    let mut i: usize = 0;
    while i < n
        invariant
            n == s@.len(),
            i <= n,
            forall|j: int| 0 <= j < i ==> s@[j] != '/',
        decreases n - i,
    {
        if s.get_char(i) == '/' {
            return false;
        }
        i = i + 1;
    }
    true
}

/// The name in `path`, where `path` is a named greeting path.
fn named(path: &str) -> (r: Option<&str>)
    ensures
        r is Some <==> is_named_path(path@),
        r matches Some(n) ==> n@ == name_in(path@),
{
    let prefix = "/hello/";
    proof {
        reveal_strlit("/hello/");
    }
    let k = prefix.unicode_len();
    let n = path.unicode_len();
    if n < k {
        return None;
    }
    let head = path.substring_char(0, k);
    if !same_text(head, prefix) {
        return None;
    }
    let rest = path.substring_char(k, n);
    assert(rest@ == path@.skip(k as int));
    if segment(rest) {
        Some(rest)
    } else {
        None
    }
}

/// Where a request with method `method` and path `path` goes.
pub fn route(method: Method, path: &str) -> (r: Endpoint)
    ensures
        r@ == route_of(method, path@),
{
    let as_get = method == Method::Get || method == Method::Head;
    let hello = same_text(path, "/hello");
    let json = same_text(path, "/hello_json");
    let name = named(path);
    if as_get {
        if hello {
            return Endpoint::Hello;
        }
        if let Some(n) = name {
            return Endpoint::HelloName(n.to_string());
        }
    }
    if method == Method::Post && json {
        Endpoint::HelloJson
    } else if hello || json || name.is_some() {
        Endpoint::MethodNotAllowed
    } else {
        Endpoint::NotFound
    }
}

} // verus!
