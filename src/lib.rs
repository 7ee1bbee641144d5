//! A greeting service: a routing table for three endpoints and the text each
//! one answers with.

mod decimal;
mod greeting;
mod laws;
mod response;
mod routing;

pub use decimal::{decimal, digit_char, push_decimal};
pub use greeting::{
    default_name, greet, greet_json, greeting_text, hello_text, Greeting, GreetingView,
};
pub use routing::{
    hello_path, is_get_path, is_named_path, is_post_path, is_segment, json_path, name_in,
    name_prefix, reads_as_get, route, route_of, Endpoint, EndpointView, Method,
};
pub use response::{
    payload_view, reads_body, respond, response_of, Response, ResponseView, METHOD_NOT_ALLOWED,
    NOT_FOUND, OK, UNPROCESSABLE_ENTITY,
};
pub use laws::{
    lemma_bad_payload, lemma_default_greeting, lemma_json_greeting, lemma_named_greeting,
    lemma_repeatable, lemma_unregistered, serve,
};
