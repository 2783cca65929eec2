use crate::helpers::text::join_text;
use crate::models::general::llm::{
    reply_view, APIResponse, ChatCompletion, GatewayError, GatewayErrorView, Message,
};
use vstd::prelude::*;
use vstd::string::StringExecFns;

verus! {

/// The model that the gateway asks.
pub open spec fn model_name() -> Seq<char> {
    "gpt-3.5-turbo"@
}

/// The sampling temperature of every request, in hundredths.
pub const TEMPERATURE_HUNDREDTHS: u32 = 10;

/// Whether a character may stand in the value of a request header: the
/// tab and every character from the space on, but for the delete
/// character.
pub open spec fn header_char_allowed(c: char) -> bool {
    (c as u32 >= 32 && c as u32 != 127) || c as u32 == 9
}

/// Whether a text can be sent as the value of a request header.
pub open spec fn header_text_allowed(text: Seq<char>) -> bool {
    forall|i: int| 0 <= i < text.len() ==> header_char_allowed(#[trigger] text[i])
}

/// Calls `HeaderValue::from_str` of `reqwest::header` and says whether it
/// took the text. That function goes through the bytes of the text and
/// refuses it where a byte is below 32 and no tab, or is 127. A character
/// above 127 is encoded in bytes above 127 and is taken; any other
/// character is its own byte. The contract claims exactly this.
#[verifier::external_body]
fn header_value_accepts(text: &str) -> (accepted: bool)
    ensures
        accepted == header_text_allowed(text@),
{
    reqwest::header::HeaderValue::from_str(text).is_ok()
}

/// The value of the authorization header for an API key.
pub open spec fn bearer_text(api_key: Seq<char>) -> Seq<char> {
    "Bearer "@ + api_key
}

/// The values of the two headers that every request to the gateway
/// carries.
#[derive(Debug, PartialEq)]
pub struct GatewayHeaders {
    pub authorization: String,
    pub organization: String,
}

/// Builds the header values for an API key and an organization. Both
/// must be texts that a header can carry; where one is not, the gateway
/// fails before anything is sent.
pub fn gateway_headers(api_key: &str, api_org: &str) -> (headers: Result<
    GatewayHeaders,
    GatewayError,
>)
    ensures
        headers is Ok <==> header_text_allowed(bearer_text(api_key@)) && header_text_allowed(
            api_org@,
        ),
        headers matches Ok(values) ==> values.authorization@ == bearer_text(api_key@)
            && values.organization@ == api_org@,
        headers matches Err(error) ==> error@ == GatewayErrorView::InvalidHeader,
{
    let authorization = join_text("Bearer ", api_key);
    if !header_value_accepts(authorization.as_str()) {
        return Err(GatewayError::InvalidHeader);
    }
    if !header_value_accepts(api_org) {
        return Err(GatewayError::InvalidHeader);
    }
    Ok(GatewayHeaders { authorization, organization: String::from_str(api_org) })
}

/// The body of the request that sends `messages` to the model.
pub fn chat_completion(messages: Vec<Message>) -> (request: ChatCompletion)
    ensures
        request.model@ == model_name(),
        request.messages == messages,
        request.temperature_hundredths == TEMPERATURE_HUNDREDTHS,
{
    ChatCompletion {
        model: String::from_str("gpt-3.5-turbo"),
        messages,
        temperature_hundredths: TEMPERATURE_HUNDREDTHS,
    }
}

/// The text of the model in an answer: the content of the first choice.
/// An answer without a choice is a failure of the gateway.
pub fn first_choice_content(response: &APIResponse) -> (content: Result<String, GatewayError>)
    ensures
        content is Ok <==> response.choices.len() > 0,
        content matches Ok(text) ==> text@ == response.choices[0].message.content@,
        content matches Err(error) ==> error@ == GatewayErrorView::NoChoices,
{
    if response.choices.len() == 0 {
        Err(GatewayError::NoChoices)
    } else {
        Ok(response.choices[0].message.content.clone())
    }
}

/// Whether a status is a success: the statuses from 200 to 299 are.
pub open spec fn status_is_success(status: u16) -> bool {
    200 <= status <= 299
}

/// What an answer of the inference endpoint is worth to the gateway.
pub open spec fn gateway_answer(
    status: u16,
    body: Result<Seq<Seq<char>>, Seq<char>>,
) -> Result<Seq<char>, GatewayErrorView> {
    if !status_is_success(status) {
        Err(GatewayErrorView::Status(status))
    } else {
        match body {
            Err(detail) => Err(GatewayErrorView::MalformedResponse(detail)),
            Ok(choices) => if choices.len() == 0 {
                Err(GatewayErrorView::NoChoices)
            } else {
                Ok(choices[0])
            },
        }
    }
}

/// The contents of the choices of an answer, in their order.
pub open spec fn choice_contents(response: APIResponse) -> Seq<Seq<char>> {
    Seq::new(response.choices@.len(), |i: int| response.choices@[i].message.content@)
}

/// The body of an answer as the gateway reads it: the contents of its
/// choices, or why the body could not be decoded.
pub open spec fn body_view(body: Result<APIResponse, String>) -> Result<
    Seq<Seq<char>>,
    Seq<char>,
> {
    match body {
        Ok(response) => Ok(choice_contents(response)),
        Err(detail) => Err(detail@),
    }
}

/// Turns an answer of the inference endpoint into the result of the
/// gateway. `status` is the status of the answer and `body` is its body,
/// decoded, or the reason why it could not be decoded. A status that is
/// no success is a failure, whatever the body holds; then a body that
/// could not be decoded is one; then a body without a choice is one. Else
/// the result is the content of the first choice.
pub fn gateway_reply(status: u16, body: Result<APIResponse, String>) -> (reply: Result<
    String,
    GatewayError,
>)
    ensures
        reply_view(reply) == gateway_answer(status, body_view(body)),
{
    if status < 200 || status > 299 {
        return Err(GatewayError::Status(status));
    }
    match body {
        Err(detail) => Err(GatewayError::MalformedResponse(detail)),
        Ok(response) => first_choice_content(&response),
    }
}

} // verus!
