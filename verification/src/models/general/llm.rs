use vstd::prelude::*;

verus! {

/// One role-tagged message of a model conversation.
#[derive(Debug, PartialEq, Eq)]
pub struct Message {
    pub role: String,
    pub content: String,
}

/// What a [`Message`] says, as plain sequences of characters.
pub struct MessageView {
    pub role: Seq<char>,
    pub content: Seq<char>,
}

impl View for Message {
    type V = MessageView;

    open spec fn view(&self) -> MessageView {
        MessageView { role: self.role@, content: self.content@ }
    }
}

impl DeepView for Message {
    type V = MessageView;

    open spec fn deep_view(&self) -> MessageView {
        self@
    }
}

impl Clone for Message {
    fn clone(&self) -> (copy: Self)
        ensures
            copy@ == self@,
    {
        Message { role: self.role.clone(), content: self.content.clone() }
    }
}

/// Why a call of the model gateway failed. Every failure of the gateway is
/// one of these; none of them is retried by the gateway itself.
#[derive(Debug, PartialEq, Eq)]
pub enum GatewayError {
    /// A credential cannot be sent as the value of a request header.
    InvalidHeader,
    /// The request could not be sent or no answer came back.
    Transport(String),
    /// The answer came with a status that is not a success.
    Status(u16),
    /// The answer did not have the shape of a chat completion.
    MalformedResponse(String),
    /// The answer holds no choice to take the text from.
    NoChoices,
}

/// A [`GatewayError`] with its texts as sequences of characters.
pub enum GatewayErrorView {
    InvalidHeader,
    Transport(Seq<char>),
    Status(u16),
    MalformedResponse(Seq<char>),
    NoChoices,
}

impl View for GatewayError {
    type V = GatewayErrorView;

    open spec fn view(&self) -> GatewayErrorView {
        match self {
            GatewayError::InvalidHeader => GatewayErrorView::InvalidHeader,
            GatewayError::Transport(detail) => GatewayErrorView::Transport(detail@),
            GatewayError::Status(status) => GatewayErrorView::Status(*status),
            GatewayError::MalformedResponse(detail) => GatewayErrorView::MalformedResponse(detail@),
            GatewayError::NoChoices => GatewayErrorView::NoChoices,
        }
    }
}

impl Clone for GatewayError {
    fn clone(&self) -> (copy: Self)
        ensures
            copy@ == self@,
    {
        match self {
            GatewayError::InvalidHeader => GatewayError::InvalidHeader,
            GatewayError::Transport(detail) => GatewayError::Transport(detail.clone()),
            GatewayError::Status(status) => GatewayError::Status(*status),
            GatewayError::MalformedResponse(detail) => GatewayError::MalformedResponse(
                detail.clone(),
            ),
            GatewayError::NoChoices => GatewayError::NoChoices,
        }
    }
}

/// What the gateway answers: the text of the model, or the failure.
pub open spec fn reply_view(reply: Result<String, GatewayError>) -> Result<
    Seq<char>,
    GatewayErrorView,
> {
    match reply {
        Ok(text) => Ok(text@),
        Err(error) => Err(error@),
    }
}

/// The body of a chat completion request. The sampling temperature is held
/// in hundredths, so that `10` stands for 0.1.
#[derive(Debug, PartialEq)]
pub struct ChatCompletion {
    pub model: String,
    pub messages: Vec<Message>,
    pub temperature_hundredths: u32,
}

/// One alternative answer of the model.
#[derive(Debug, PartialEq)]
pub struct APIChoice {
    pub message: Message,
}

/// The body of a chat completion answer.
#[derive(Debug, PartialEq)]
pub struct APIResponse {
    pub choices: Vec<APIChoice>,
}

} // verus!
