use vstd::prelude::*;

use crate::config::{default_prompt, fallback_model, resolve_settings};
use crate::error::SummarizeError;
use crate::request::{auth_header_value, bearer_of, payload_json, wrapped_user_text,
    SummarizationRequest};

verus! {

/// Everything the transport needs for the one HTTPS POST: the Authorization
/// header value and the serialized payload. The endpoint and the
/// Content-Type header are fixed.
pub struct OutboundRequest {
    pub auth_header: String,
    pub body: String,
}

/// Everything before the network: resolves the three settings and builds the
/// outbound request. When the credential is absent this fails with
/// `ConfigMissing` and no request exists, so nothing can be sent.
pub fn prepare_call(
    input: &str,
    api_key: Option<String>,
    model: Option<String>,
    prompt: Option<String>,
) -> (r: Result<OutboundRequest, SummarizeError>)
    ensures
        api_key is None ==> r == Err::<OutboundRequest, SummarizeError>(
            SummarizeError::ConfigMissing,
        ),
        api_key is Some ==> r is Ok,
        r is Ok ==> {
            &&& r->Ok_0.auth_header@ == bearer_of(api_key.unwrap()@)
            &&& r->Ok_0.body@ == payload_json(
                if model is Some {
                    model.unwrap()@
                } else {
                    fallback_model()
                },
                if prompt is Some {
                    prompt.unwrap()@
                } else {
                    default_prompt()
                },
                wrapped_user_text(input@),
            )
        },
{
    let settings = match resolve_settings(api_key, model, prompt) {
        Ok(s) => s,
        Err(e) => {
            return Err(e);
        },
    };
    let auth_header = auth_header_value(settings.api_key.as_str());
    let request = SummarizationRequest::new(input, settings);
    let body = request.to_json();
    Ok(OutboundRequest { auth_header, body })
}

} // verus!
