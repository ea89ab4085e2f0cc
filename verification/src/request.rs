use vstd::prelude::*;
use vstd::string::StringExecFns;

use crate::config::Settings;

verus! {

/// The chat-completion request assembled per invocation and discarded after
/// the HTTP call: model identifier, system prompt, and the caller's text.
pub struct SummarizationRequest {
    pub model: String,
    pub system_prompt: String,
    pub user_text: String,
}

/// The content of the user message: the text wrapped in a fixed delimiting
/// tag. This is a literal substitution with no escaping, so text that itself
/// contains `</text>` corrupts the delimiter; a documented limitation.
pub open spec fn wrapped_user_text(t: Seq<char>) -> Seq<char> {
    "<text>"@ + t + "</text>"@
}

/// What serde_json emits for one string: the quoted JSON string literal,
/// escapes included. A function of the characters alone.
pub uninterp spec fn json_string_of(s: Seq<char>) -> Seq<char>;

/// The serialized two-message chat-completion payload. Object keys appear in
/// sorted order, as serde_json writes them: `content` before `role` inside a
/// message, `messages` before `model` at the top.
pub open spec fn payload_json(
    model: Seq<char>,
    system_content: Seq<char>,
    user_content: Seq<char>,
) -> Seq<char> {
    "{\"messages\":[{\"content\":"@ + json_string_of(system_content) + ",\"role\":\"system\"},{\"content\":"@
        + json_string_of(user_content) + ",\"role\":\"user\"}],\"model\":"@ + json_string_of(model)
        + "}"@
}

/// Relies on serde_json::to_string on a string slice: it returns the quoted,
/// escaped JSON string literal for exactly those characters, and on a string
/// it does not fail.
#[verifier::external_body]
fn json_string_literal(s: &str) -> (r: String)
    ensures
        r@ == json_string_of(s@),
{
    serde_json::to_string(s).unwrap()
}

impl SummarizationRequest {
    /// Builds the request from the caller's text and the resolved settings,
    /// each kept verbatim.
    pub fn new(user_text: &str, settings: Settings) -> (r: SummarizationRequest)
        ensures
            r.model@ == settings.model@,
            r.system_prompt@ == settings.prompt@,
            r.user_text@ == user_text@,
    {
        SummarizationRequest {
            model: settings.model,
            system_prompt: settings.prompt,
            user_text: String::from_str(user_text),
        }
    }

    /// The user-message content: exactly `<text>`, the text, `</text>`,
    /// character for character.
    pub fn user_message_content(&self) -> (r: String)
        ensures
            r@ == wrapped_user_text(self.user_text@),
    {
        let mut s = String::new();
        s.append("<text>");
        s.append(self.user_text.as_str());
        s.append("</text>");
        proof {
            assert(s@ =~= wrapped_user_text(self.user_text@));
        }
        s
    }

    /// Serializes the payload: two messages, system then user, and the model
    /// identifier.
    pub fn to_json(&self) -> (r: String)
        ensures
            r@ == payload_json(self.model@, self.system_prompt@, wrapped_user_text(self.user_text@)),
    {
        let system_lit = json_string_literal(self.system_prompt.as_str());
        let user_wrapped = self.user_message_content();
        let user_lit = json_string_literal(user_wrapped.as_str());
        let model_lit = json_string_literal(self.model.as_str());
        let mut s = String::new();
        s.append("{\"messages\":[{\"content\":");
        s.append(system_lit.as_str());
        s.append(",\"role\":\"system\"},{\"content\":");
        s.append(user_lit.as_str());
        s.append(",\"role\":\"user\"}],\"model\":");
        s.append(model_lit.as_str());
        s.append("}");
        proof {
            assert(s@ =~= payload_json(
                self.model@,
                self.system_prompt@,
                wrapped_user_text(self.user_text@),
            ));
        }
        s
    }
}

/// The Authorization header value for a credential: `Bearer ` then the key.
pub open spec fn bearer_of(key: Seq<char>) -> Seq<char> {
    "Bearer "@ + key
}

/// Builds the Authorization header value for the credential, verbatim.
pub fn auth_header_value(api_key: &str) -> (r: String)
    ensures
        r@ == bearer_of(api_key@),
{
    let mut s = String::new();
    s.append("Bearer ");
    s.append(api_key);
    proof {
        assert(s@ =~= bearer_of(api_key@));
    }
    s
}

/// The single fixed completion endpoint.
pub fn endpoint_url() -> (r: &'static str)
    ensures
        r@ == "https://api.openai.com/v1/chat/completions"@,
{
    "https://api.openai.com/v1/chat/completions"
}

} // verus!
