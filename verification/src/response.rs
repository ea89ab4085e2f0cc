use vstd::prelude::*;

use crate::error::SummarizeError;

verus! {

/// Whether an HTTP status code lies in the success range.
pub open spec fn is_success_status(status: u16) -> bool {
    200 <= status < 300
}

/// What the completion endpoint's body carries at
/// `choices[0].message.content`: the string there, when the body parses as
/// JSON and that path holds a string; nothing otherwise. A function of the
/// body's characters alone.
pub uninterp spec fn extracted_content(body: Seq<char>) -> Option<Seq<char>>;

/// Relies on serde_json::from_str, serde_json::Value's index operator, and
/// Value::as_str: parses the body and reads `choices[0].message.content`,
/// `None` when the body is not JSON or that path does not hold a string
/// (indexing a missing key or element yields `Value::Null`).
#[verifier::external_body]
fn extract_content(body: &str) -> (r: Option<String>)
    ensures
        r is Some <==> extracted_content(body@) is Some,
        r is Some ==> r->0@ == extracted_content(body@)->0,
{
    let parsed: Result<serde_json::Value, serde_json::Error> = serde_json::from_str(body);
    match parsed {
        Ok(v) => v["choices"][0]["message"]["content"].as_str().map(|s| s.to_string()),
        Err(_) => None,
    }
}

/// The three-outcome interpretation of one response, in order: a status
/// outside the success range fails with that status; a success status
/// without the expected field fails as a format error; otherwise the
/// extracted string is returned verbatim, with no trimming or other
/// post-processing.
pub fn classify_response(status: u16, content: Option<String>) -> (r: Result<
    String,
    SummarizeError,
>)
    ensures
        !is_success_status(status) ==> r == Err::<String, SummarizeError>(
            SummarizeError::HttpStatus(status),
        ),
        is_success_status(status) && content is None ==> r == Err::<String, SummarizeError>(
            SummarizeError::ResponseFormat,
        ),
        is_success_status(status) && content is Some ==> r is Ok && r->Ok_0@ == content->0@,
{
    if !(200 <= status && status < 300) {
        Err(SummarizeError::HttpStatus(status))
    } else {
        match content {
            Some(s) => Ok(s),
            None => Err(SummarizeError::ResponseFormat),
        }
    }
}

/// Interprets one HTTP response from the completion endpoint: status first,
/// then the single field extraction. The body is only read on a success
/// status.
pub fn interpret_response(status: u16, body: &str) -> (r: Result<String, SummarizeError>)
    ensures
        !is_success_status(status) ==> r == Err::<String, SummarizeError>(
            SummarizeError::HttpStatus(status),
        ),
        is_success_status(status) && extracted_content(body@) is None ==> r == Err::<
            String,
            SummarizeError,
        >(SummarizeError::ResponseFormat),
        is_success_status(status) && extracted_content(body@) is Some ==> r is Ok && r->Ok_0@
            == extracted_content(body@)->0,
{
    if 200 <= status && status < 300 {
        let content = extract_content(body);
        classify_response(status, content)
    } else {
        classify_response(status, None)
    }
}

} // verus!
