//! The hub's error type.

use vstd::prelude::*;

verus! {

/// Everything that can go wrong while a message is handled or a connection
/// is set up.
#[derive(Debug, PartialEq)]
pub enum CustomProjectErrors {
    RMQConnectionError(String),
    RMQChannelCreationError(String),
    RMQChannelError(String),
    RMQPublishError(String),
    RMQAckError(String),
    /// The model that broke a rule, and the rules it broke.
    ValidationError(String, String),
    DatabaseConnectionError(String),
    DatabaseOperationError(String),
    DatabaseTypeValidationError(String),
    IncomingSerializingMessageError(String),
    SerializingStructError(String),
    DatabaseHealthCheckError,
    Unknown,
}

/// An error as the contracts speak of it.
pub enum ErrorView {
    RMQConnectionError(Seq<char>),
    RMQChannelCreationError(Seq<char>),
    RMQChannelError(Seq<char>),
    RMQPublishError(Seq<char>),
    RMQAckError(Seq<char>),
    ValidationError(Seq<char>, Seq<char>),
    DatabaseConnectionError(Seq<char>),
    DatabaseOperationError(Seq<char>),
    DatabaseTypeValidationError(Seq<char>),
    IncomingSerializingMessageError(Seq<char>),
    SerializingStructError(Seq<char>),
    DatabaseHealthCheckError,
    Unknown,
}

impl View for CustomProjectErrors {
    type V = ErrorView;

    open spec fn view(&self) -> ErrorView {
        match self {
            Self::RMQConnectionError(m) => ErrorView::RMQConnectionError(m@),
            Self::RMQChannelCreationError(m) => ErrorView::RMQChannelCreationError(m@),
            Self::RMQChannelError(m) => ErrorView::RMQChannelError(m@),
            Self::RMQPublishError(m) => ErrorView::RMQPublishError(m@),
            Self::RMQAckError(m) => ErrorView::RMQAckError(m@),
            Self::ValidationError(model, m) => ErrorView::ValidationError(model@, m@),
            Self::DatabaseConnectionError(m) => ErrorView::DatabaseConnectionError(m@),
            Self::DatabaseOperationError(m) => ErrorView::DatabaseOperationError(m@),
            Self::DatabaseTypeValidationError(m) => ErrorView::DatabaseTypeValidationError(m@),
            Self::IncomingSerializingMessageError(m) => ErrorView::IncomingSerializingMessageError(
                m@,
            ),
            Self::SerializingStructError(m) => ErrorView::SerializingStructError(m@),
            Self::DatabaseHealthCheckError => ErrorView::DatabaseHealthCheckError,
            Self::Unknown => ErrorView::Unknown,
        }
    }
}

impl ErrorView {
    /// The text that describes the error to a person.
    pub open spec fn message(self) -> Seq<char> {
        match self {
            ErrorView::RMQConnectionError(m) => "Error while connecting to RMQ: "@ + m,
            ErrorView::RMQChannelCreationError(m) => "Channel on create error: "@ + m,
            ErrorView::RMQChannelError(m) => "Channel method error: "@ + m,
            ErrorView::RMQPublishError(m) => "Message publish error: "@ + m,
            ErrorView::RMQAckError(m) => m,
            ErrorView::ValidationError(model, m) => "Model "@ + model + " validation error: "@ + m,
            ErrorView::DatabaseConnectionError(m) => m,
            ErrorView::DatabaseOperationError(m) => m,
            ErrorView::DatabaseTypeValidationError(m) => m,
            ErrorView::IncomingSerializingMessageError(m) => "Rmq message deserializing error: "@
                + m,
            ErrorView::SerializingStructError(m) => "Struct cannot be serialized: "@ + m,
            ErrorView::DatabaseHealthCheckError => "Health Check error"@,
            ErrorView::Unknown => "Unknown error"@,
        }
    }
}

/// `prefix` followed by `text`.
fn prefixed(prefix: &str, text: &String) -> (out: String)
    ensures
        out@ == prefix@ + text@,
{
    let mut out = prefix.to_owned();
    out.append(text.as_str());
    out
}

impl CustomProjectErrors {
    /// The text that describes the error to a person.
    pub fn to_string(&self) -> (text: String)
        ensures
            text@ == self@.message(),
    {
        match self {
            Self::RMQConnectionError(m) => prefixed("Error while connecting to RMQ: ", m),
            Self::RMQChannelCreationError(m) => prefixed("Channel on create error: ", m),
            Self::RMQChannelError(m) => prefixed("Channel method error: ", m),
            Self::RMQPublishError(m) => prefixed("Message publish error: ", m),
            Self::RMQAckError(m) => m.clone(),
            Self::ValidationError(model, m) => {
                let mut text = prefixed("Model ", model);
                text.append(" validation error: ");
                text.append(m.as_str());
                text
            },
            Self::DatabaseConnectionError(m) => m.clone(),
            Self::DatabaseOperationError(m) => m.clone(),
            Self::DatabaseTypeValidationError(m) => m.clone(),
            Self::IncomingSerializingMessageError(m) => prefixed(
                "Rmq message deserializing error: ",
                m,
            ),
            Self::SerializingStructError(m) => prefixed("Struct cannot be serialized: ", m),
            Self::DatabaseHealthCheckError => "Health Check error".to_owned(),
            Self::Unknown => "Unknown error".to_owned(),
        }
    }
}

impl Default for CustomProjectErrors {
    fn default() -> (error: Self)
        ensures
            error == CustomProjectErrors::Unknown,
    {
        CustomProjectErrors::Unknown
    }
}

} // verus!
