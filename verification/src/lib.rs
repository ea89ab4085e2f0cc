use vstd::prelude::*;

pub mod api;
pub mod config;
pub mod error;
pub mod request;
pub mod response;

verus! {

/// Greeting returned by the extension's smoke-test entry point.
pub fn hello_pg_summarize() -> (r: &'static str)
    ensures
        r@ == "Hello, pg_summarize"@,
{
    "Hello, pg_summarize"
}

} // verus!
