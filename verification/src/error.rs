//! The errors an invocation can end with.
//!
//! Each error type has a view in which its texts are character sequences, so
//! that contracts can say which error comes back and what it carries.

use vstd::prelude::*;
use vstd::string::StringExecFns;

verus! {

/// The error handed to the host: a message and nothing else.
#[derive(Debug, Clone, PartialEq, Eq)]
pub struct CustomError {
    msg: String,
}

impl View for CustomError {
    type V = Seq<char>;

    closed spec fn view(&self) -> Seq<char> {
        self.msg@
    }
}

impl CustomError {
    /// An error carrying `msg`.
    pub fn new(msg: String) -> (e: CustomError)
        ensures
            e@ == msg@,
    {
        CustomError { msg }
    }

    /// The message this error carries.
    pub fn message(&self) -> (m: &str)
        ensures
            m@ == self@,
    {
        self.msg.as_str()
    }
}

/// Configuration could not be resolved.
#[derive(Debug, PartialEq, Eq)]
pub enum ConfigError {
    /// A required variable, named here, is not set.
    MissingRequired(String),
}

/// A configuration error, with the variable's name as a character sequence.
pub enum ConfigErrorView {
    MissingRequired(Seq<char>),
}

impl View for ConfigError {
    type V = ConfigErrorView;

    open spec fn view(&self) -> ConfigErrorView {
        match self {
            ConfigError::MissingRequired(name) => ConfigErrorView::MissingRequired(name@),
        }
    }
}

/// The stage at which decoding a log batch stopped.
#[derive(Debug, Clone, Copy, PartialEq, Eq, Structural)]
pub enum DecodeError {
    /// The payload is not base64.
    InvalidEncoding,
    /// The decoded bytes are not a complete gzip stream of UTF-8 text.
    DecompressionFailed,
    /// The decompressed text is not JSON, or not JSON of a log batch.
    MalformedPayload,
}

/// A message could not be delivered.
#[derive(Debug, PartialEq, Eq)]
pub enum DeliveryError {
    /// The one attempt failed; the text says how.
    SendFailed(String),
}

/// A delivery error, with its detail as a character sequence.
pub enum DeliveryErrorView {
    SendFailed(Seq<char>),
}

impl View for DeliveryError {
    type V = DeliveryErrorView;

    open spec fn view(&self) -> DeliveryErrorView {
        match self {
            DeliveryError::SendFailed(detail) => DeliveryErrorView::SendFailed(detail@),
        }
    }
}

/// Whatever ended an invocation early.
#[derive(Debug, PartialEq, Eq)]
pub enum RelayError {
    /// Configuration could not be resolved; nothing was attempted.
    Config(ConfigError),
    /// The event could not be decoded; nothing was delivered.
    Decode(DecodeError),
    /// A delivery failed; the messages after it were not attempted.
    Delivery(DeliveryError),
}

/// An error of any kind, with its texts as character sequences.
pub enum RelayErrorView {
    Config(ConfigErrorView),
    Decode(DecodeError),
    Delivery(DeliveryErrorView),
}

impl View for RelayError {
    type V = RelayErrorView;

    open spec fn view(&self) -> RelayErrorView {
        match self {
            RelayError::Config(e) => RelayErrorView::Config(e@),
            RelayError::Decode(e) => RelayErrorView::Decode(*e),
            RelayError::Delivery(e) => RelayErrorView::Delivery(e@),
        }
    }
}

impl Clone for ConfigError {
    fn clone(&self) -> (c: ConfigError)
        ensures
            c@ == self@,
    {
        match self {
            ConfigError::MissingRequired(name) => ConfigError::MissingRequired(name.clone()),
        }
    }
}

impl Clone for DeliveryError {
    fn clone(&self) -> (c: DeliveryError)
        ensures
            c@ == self@,
    {
        match self {
            DeliveryError::SendFailed(detail) => DeliveryError::SendFailed(detail.clone()),
        }
    }
}

impl Clone for RelayError {
    fn clone(&self) -> (c: RelayError)
        ensures
            c@ == self@,
    {
        match self {
            RelayError::Config(e) => RelayError::Config(e.clone()),
            RelayError::Decode(e) => RelayError::Decode(*e),
            RelayError::Delivery(e) => RelayError::Delivery(e.clone()),
        }
    }
}

/// The text that describes a decoding failure.
pub open spec fn decode_error_text(e: DecodeError) -> Seq<char> {
    match e {
        DecodeError::InvalidEncoding => "log data is not valid base64"@,
        DecodeError::DecompressionFailed => "log data is not a gzip stream of text"@,
        DecodeError::MalformedPayload => "log data is not the JSON of a log batch"@,
    }
}

/// The text that describes an error: for a missing variable a fixed phrase
/// and its name, for a decoding failure the stage's phrase, for a failed
/// delivery the detail it carries.
pub open spec fn error_text(e: RelayErrorView) -> Seq<char> {
    match e {
        RelayErrorView::Config(ConfigErrorView::MissingRequired(name)) => {
            "missing required variable "@ + name
        },
        RelayErrorView::Decode(stage) => decode_error_text(stage),
        RelayErrorView::Delivery(DeliveryErrorView::SendFailed(detail)) => detail,
    }
}

impl ConfigError {
    /// The text that describes this error.
    pub fn message(&self) -> (m: String)
        ensures
            m@ == error_text(RelayErrorView::Config(self@)),
    {
        match self {
            ConfigError::MissingRequired(name) => {
                "missing required variable ".to_owned().concat(name.as_str())
            },
        }
    }
}

impl DecodeError {
    /// The text that describes this error.
    pub fn message(&self) -> (m: String)
        ensures
            m@ == decode_error_text(*self),
    {
        match self {
            DecodeError::InvalidEncoding => "log data is not valid base64".to_owned(),
            DecodeError::DecompressionFailed => "log data is not a gzip stream of text".to_owned(),
            DecodeError::MalformedPayload => "log data is not the JSON of a log batch".to_owned(),
        }
    }
}

impl DeliveryError {
    /// The text that describes this error.
    pub fn message(&self) -> (m: String)
        ensures
            m@ == error_text(RelayErrorView::Delivery(self@)),
    {
        match self {
            DeliveryError::SendFailed(detail) => detail.clone(),
        }
    }
}

impl RelayError {
    /// The text that describes this error.
    pub fn message(&self) -> (m: String)
        ensures
            m@ == error_text(self@),
    {
        match self {
            RelayError::Config(e) => e.message(),
            RelayError::Decode(e) => e.message(),
            RelayError::Delivery(e) => e.message(),
        }
    }

    /// This error as the host receives it.
    pub fn report(&self) -> (e: CustomError)
        ensures
            e@ == error_text(self@),
    {
        CustomError::new(self.message())
    }
}

} // verus!
