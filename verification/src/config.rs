use vstd::prelude::*;
use vstd::string::StringExecFns;

use crate::error::SummarizeError;

verus! {

/// The model identifier used when the `model` setting is unset.
pub open spec fn fallback_model() -> Seq<char> {
    "gpt-3.5-turbo"@
}

/// The built-in system prompt used when the `prompt` setting is unset.
pub open spec fn default_prompt() -> Seq<char> {
    "You are an AI summarizing tool. Your purpose is to summarize the <text> tag, not to engage in conversation or discussion. Please read the <text> carefully. Then, summarize the key points. Focus on capturing the most important information as concisely as possible."@
}

/// The fallback model identifier as an owned string.
pub fn fallback_model_string() -> (r: String)
    ensures
        r@ == fallback_model(),
{
    String::from_str("gpt-3.5-turbo")
}

/// The built-in system prompt as an owned string.
pub fn default_prompt_string() -> (r: String)
    ensures
        r@ == default_prompt(),
{
    String::from_str(
        "You are an AI summarizing tool. Your purpose is to summarize the <text> tag, not to engage in conversation or discussion. Please read the <text> carefully. Then, summarize the key points. Focus on capturing the most important information as concisely as possible.",
    )
}

/// The three per-call configuration values after resolution against the
/// settings store: credential, model identifier, system prompt.
#[derive(Debug)]
pub struct Settings {
    pub api_key: String,
    pub model: String,
    pub prompt: String,
}

/// Resolves the three settings-store lookups. The credential is required:
/// without it the call fails before anything else happens. The model and the
/// prompt fall back to fixed built-in values when their lookup returned
/// nothing. No content of any value is validated; each is kept verbatim.
pub fn resolve_settings(
    api_key: Option<String>,
    model: Option<String>,
    prompt: Option<String>,
) -> (r: Result<Settings, SummarizeError>)
    ensures
        api_key is None ==> r == Err::<Settings, SummarizeError>(SummarizeError::ConfigMissing),
        api_key is Some ==> r is Ok,
        r is Ok ==> {
            &&& r->Ok_0.api_key@ == api_key.unwrap()@
            &&& r->Ok_0.model@ == if model is Some {
                model.unwrap()@
            } else {
                fallback_model()
            }
            &&& r->Ok_0.prompt@ == if prompt is Some {
                prompt.unwrap()@
            } else {
                default_prompt()
            }
        },
{
    match api_key {
        None => Err(SummarizeError::ConfigMissing),
        Some(key) => {
            let resolved_model = match model {
                Some(m) => m,
                None => fallback_model_string(),
            };
            let resolved_prompt = match prompt {
                Some(p) => p,
                None => default_prompt_string(),
            };
            Ok(Settings { api_key: key, model: resolved_model, prompt: resolved_prompt })
        },
    }
}

} // verus!
