use vstd::prelude::*;
use vstd::string::StringExecFns;
use crate::decimal::{decimal, push_decimal};

verus! {

/// The payload of a JSON greeting request.
#[derive(Debug)]
pub struct Greeting {
    pub name: String,
    pub age: u16,
}

/// What a payload says, as plain values.
pub struct GreetingView {
    pub name: Seq<char>,
    pub age: nat,
}

impl View for Greeting {
    type V = GreetingView;

    open spec fn view(&self) -> GreetingView {
        GreetingView { name: self.name@, age: self.age as nat }
    }
}

impl Greeting {
    /// A payload with the given fields.
    pub fn new(name: String, age: u16) -> (r: Greeting)
        ensures
            r.name@ == name@,
            r.age == age,
    {
        Greeting { name, age }
    }
}

/// The name greeted when a request names nobody.
pub open spec fn default_name() -> Seq<char> {
    "world"@
}

/// `Hello, <name>!` followed by a newline.
pub open spec fn hello_text(name: Seq<char>) -> Seq<char> {
    "Hello, "@ + name + "!\n"@
}

/// `Hello, <name>!, you appear to be <age>` followed by a newline, the age in
/// base ten.
pub open spec fn greeting_text(g: GreetingView) -> Seq<char> {
    "Hello, "@ + g.name + "!, you appear to be "@ + decimal(g.age) + "\n"@
}

/// The greeting for `name`, or for the world when there is no name.
pub fn greet(name: Option<&str>) -> (r: String)
    ensures
        r@ == hello_text(
            match name {
                Some(n) => n@,
                None => default_name(),
            },
        ),
{
    let mut s = String::from_str("Hello, ");
    match name {
        Some(n) => s.append(n),
        None => s.append("world"),
    }
    s.append("!\n");
    s
}

/// The greeting that answers a JSON payload.
pub fn greet_json(g: &Greeting) -> (r: String)
    ensures
        r@ == greeting_text(g@),
{
    let mut s = String::from_str("Hello, ");
    s.append(g.name.as_str());
    s.append("!, you appear to be ");
    push_decimal(&mut s, g.age);
    s.append("\n");
    s
}

} // verus!
