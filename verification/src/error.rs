//! The ways in which a chat call fails.

use vstd::prelude::*;

verus! {

/// Why a chat call produced no answer.
#[derive(Clone, Debug, PartialEq, Eq)]
pub enum ChatError {
    /// The credential is empty once trimmed.
    MissingCredential,
    /// The request holds no message.
    NoMessages,
    /// The credential holds a character that no header value may hold.
    InvalidCredential,
    /// The call did not get through; the text is the transport's account.
    Network(String),
    /// The server answered with a status other than success; the text is the
    /// body it sent.
    Server(String),
    /// The body of a successful answer could not be parsed; the text is the
    /// parser's account.
    Parse(String),
    /// The answer was parsed and lists no choice.
    NoContent,
}

/// What a [`ChatError`] holds.
pub ghost enum ErrorModel {
    MissingCredential,
    NoMessages,
    InvalidCredential,
    Network(Seq<char>),
    Server(Seq<char>),
    Parse(Seq<char>),
    NoContent,
}

impl View for ChatError {
    type V = ErrorModel;

    open spec fn view(&self) -> ErrorModel {
        match self {
            ChatError::MissingCredential => ErrorModel::MissingCredential,
            ChatError::NoMessages => ErrorModel::NoMessages,
            ChatError::InvalidCredential => ErrorModel::InvalidCredential,
            ChatError::Network(detail) => ErrorModel::Network(detail@),
            ChatError::Server(body) => ErrorModel::Server(body@),
            ChatError::Parse(detail) => ErrorModel::Parse(detail@),
            ChatError::NoContent => ErrorModel::NoContent,
        }
    }
}

/// The text for [`ChatError::MissingCredential`].
pub const MISSING_CREDENTIAL: &'static str = "missing credential";

/// The text for [`ChatError::NoMessages`].
pub const NO_MESSAGES: &'static str = "no messages provided";

/// The text for [`ChatError::InvalidCredential`].
pub const INVALID_CREDENTIAL: &'static str = "invalid credential characters";

/// What stands before the transport's account of a failure.
pub const NETWORK_FAILURE: &'static str = "network failure: ";

/// What stands before the body of a failed answer.
pub const SERVER_ERROR: &'static str = "server error: ";

/// What stands before the parser's account of a failure.
pub const PARSE_FAILURE: &'static str = "response parse failure: ";

/// The text for [`ChatError::NoContent`].
pub const NO_CONTENT: &'static str = "no content returned by model";

/// The one line of text that describes `error` to a person.
pub open spec fn message_of(error: ErrorModel) -> Seq<char> {
    match error {
        ErrorModel::MissingCredential => MISSING_CREDENTIAL@,
        ErrorModel::NoMessages => NO_MESSAGES@,
        ErrorModel::InvalidCredential => INVALID_CREDENTIAL@,
        ErrorModel::Network(detail) => NETWORK_FAILURE@ + detail,
        ErrorModel::Server(body) => SERVER_ERROR@ + body,
        ErrorModel::Parse(detail) => PARSE_FAILURE@ + detail,
        ErrorModel::NoContent => NO_CONTENT@,
    }
}

/// The text tells the error: two errors with the same text are the same
/// error. In particular a failure to parse never reads like an error that
/// the server reported.
pub proof fn lemma_message_tells_error(a: ErrorModel, b: ErrorModel)
    requires
        message_of(a) == message_of(b),
    ensures
        a == b,
{
    reveal_strlit("missing credential");
    reveal_strlit("no messages provided");
    reveal_strlit("invalid credential characters");
    reveal_strlit("network failure: ");
    reveal_strlit("server error: ");
    reveal_strlit("response parse failure: ");
    reveal_strlit("no content returned by model");
    let text = message_of(a);
    assert(text[0] == message_of(b)[0]);
    assert(text[1] == message_of(b)[1]);
    assert(text[3] == message_of(b)[3]);
    match (a, b) {
        (ErrorModel::Network(x), ErrorModel::Network(y)) => {
            assert(x =~= text.subrange(NETWORK_FAILURE@.len() as int, text.len() as int));
            assert(y =~= text.subrange(NETWORK_FAILURE@.len() as int, text.len() as int));
        },
        (ErrorModel::Server(x), ErrorModel::Server(y)) => {
            assert(x =~= text.subrange(SERVER_ERROR@.len() as int, text.len() as int));
            assert(y =~= text.subrange(SERVER_ERROR@.len() as int, text.len() as int));
        },
        (ErrorModel::Parse(x), ErrorModel::Parse(y)) => {
            assert(x =~= text.subrange(PARSE_FAILURE@.len() as int, text.len() as int));
            assert(y =~= text.subrange(PARSE_FAILURE@.len() as int, text.len() as int));
        },
        _ => {},
    }
}

impl ChatError {
    /// The one line of text that describes this error to a person.
    pub fn message(&self) -> (text: String)
        ensures
            text@ == message_of(self@),
    {
        match self {
            ChatError::MissingCredential => String::from_str(MISSING_CREDENTIAL),
            ChatError::NoMessages => String::from_str(NO_MESSAGES),
            ChatError::InvalidCredential => String::from_str(INVALID_CREDENTIAL),
            ChatError::Network(detail) => String::from_str(NETWORK_FAILURE).concat(
                detail.as_str(),
            ),
            ChatError::Server(body) => String::from_str(SERVER_ERROR).concat(body.as_str()),
            ChatError::Parse(detail) => String::from_str(PARSE_FAILURE).concat(detail.as_str()),
            ChatError::NoContent => String::from_str(NO_CONTENT),
        }
    }
}

} // verus!
