//! Error taxonomy of the chat library.

use vstd::prelude::*;

verus! {

/// Errors produced while talking to an LLM provider.
#[derive(Debug)]
pub enum Error {
    /// A mandatory configuration argument is missing.
    MissingArgError(&'static str),
    /// The transport failed to carry the request (network or HTTP failure).
    LLMCallError(String),
    /// A nested JSON document inside a response could not be parsed.
    LLMJsonError(String),
    /// The response is missing an expected field or has an unexpected shape.
    LLMResponseError(&'static str),
    /// A general error described by a message.
    Error(String),
    /// The provider answered with an explicit error envelope; recoverable.
    LLMErrorMessage(String),
}

/// The mathematical content of an [`Error`].
#[verifier::ext_equal]
pub enum ErrorView {
    /// A mandatory configuration argument is missing.
    MissingArgError(Seq<char>),
    /// The transport failed to carry the request.
    LLMCallError(Seq<char>),
    /// A nested JSON document inside a response could not be parsed.
    LLMJsonError(Seq<char>),
    /// The response is missing an expected field or has an unexpected shape.
    LLMResponseError(Seq<char>),
    /// A general error described by a message.
    Error(Seq<char>),
    /// The provider answered with an explicit error envelope; recoverable.
    LLMErrorMessage(Seq<char>),
}

impl View for Error {
    type V = ErrorView;

    open spec fn view(&self) -> ErrorView {
        match self {
            Error::MissingArgError(m) => ErrorView::MissingArgError(m@),
            Error::LLMCallError(m) => ErrorView::LLMCallError(m@),
            Error::LLMJsonError(m) => ErrorView::LLMJsonError(m@),
            Error::LLMResponseError(m) => ErrorView::LLMResponseError(m@),
            Error::Error(m) => ErrorView::Error(m@),
            Error::LLMErrorMessage(m) => ErrorView::LLMErrorMessage(m@),
        }
    }
}

impl Error {
    /// Whether the session may go on after this error: only an explicit
    /// provider error envelope is recoverable; a transport failure or a
    /// malformed response is fatal.
    pub fn is_recoverable(&self) -> (r: bool)
        ensures
            r == (self@ matches ErrorView::LLMErrorMessage(_)),
    {
        match self {
            Error::LLMErrorMessage(_) => true,
            _ => false,
        }
    }

    /// A one-line description of the error, as shown to the human.
    pub fn message(&self) -> (r: String)
        ensures
            r@ == spec_error_message(self@),
    {
        match self {
            Error::MissingArgError(m) => {
                let mut s = "Missing mandatory arguments: ".to_owned();
                s.append(m);
                s.append("\nTry `apprentice --help` for more information.");
                s
            },
            Error::LLMCallError(m) => {
                let mut s = "Failed to call LLM: ".to_owned();
                s.append(m.as_str());
                s
            },
            Error::LLMJsonError(m) => {
                let mut s = "Failed to process LLM call: ".to_owned();
                s.append(m.as_str());
                s
            },
            Error::LLMResponseError(m) => {
                let mut s = "Failed to parse LLM response: ".to_owned();
                s.append(m);
                s
            },
            Error::Error(m) => m.clone(),
            Error::LLMErrorMessage(m) => {
                let mut s = "LLM provider responded with error: ".to_owned();
                s.append(m.as_str());
                s
            },
        }
    }
}

/// Errors of the agent application around the chat library.
#[derive(Debug)]
pub enum AppError {
    /// The configuration file could not be parsed.
    TomlError(String),
    /// A configuration value has the wrong shape.
    ConfigParseError(&'static str),
    /// A mandatory argument is missing.
    MissingArgError(&'static str),
    /// An argument value is invalid.
    InvalidArgError(&'static str),
    /// An error of the chat library.
    LibError(Error),
    /// An unknown error.
    Unknown,
    /// The format of a color value is incorrect.
    ColorParseError,
    /// The conversation protocol was broken.
    ApplicationError(&'static str),
    /// A general error described by a message.
    Error(String),
}

/// The mathematical content of an [`AppError`].
#[verifier::ext_equal]
pub enum AppErrorView {
    /// The configuration file could not be parsed.
    TomlError(Seq<char>),
    /// A configuration value has the wrong shape.
    ConfigParseError(Seq<char>),
    /// A mandatory argument is missing.
    MissingArgError(Seq<char>),
    /// An argument value is invalid.
    InvalidArgError(Seq<char>),
    /// An error of the chat library.
    LibError(ErrorView),
    /// An unknown error.
    Unknown,
    /// The format of a color value is incorrect.
    ColorParseError,
    /// The conversation protocol was broken.
    ApplicationError(Seq<char>),
    /// A general error described by a message.
    Error(Seq<char>),
}

impl View for AppError {
    type V = AppErrorView;

    open spec fn view(&self) -> AppErrorView {
        match self {
            AppError::TomlError(m) => AppErrorView::TomlError(m@),
            AppError::ConfigParseError(m) => AppErrorView::ConfigParseError(m@),
            AppError::MissingArgError(m) => AppErrorView::MissingArgError(m@),
            AppError::InvalidArgError(m) => AppErrorView::InvalidArgError(m@),
            AppError::LibError(e) => AppErrorView::LibError(e@),
            AppError::Unknown => AppErrorView::Unknown,
            AppError::ColorParseError => AppErrorView::ColorParseError,
            AppError::ApplicationError(m) => AppErrorView::ApplicationError(m@),
            AppError::Error(m) => AppErrorView::Error(m@),
        }
    }
}

impl AppError {
    /// A one-line description of the error, as shown to the human.
    pub fn message(&self) -> (r: String)
        ensures
            r@ == spec_app_error_message(self@),
    {
        match self {
            AppError::TomlError(m) => {
                let mut s = "Failed to parse config file: ".to_owned();
                s.append(m.as_str());
                s
            },
            AppError::ConfigParseError(m) => {
                let mut s = "Failed to parse config file: ".to_owned();
                s.append(m);
                s
            },
            AppError::MissingArgError(m) => {
                let mut s = "Missing mandatory arguments: ".to_owned();
                s.append(m);
                s.append("\nTry `apprentice --help` for more information.");
                s
            },
            AppError::InvalidArgError(m) => {
                let mut s = "Incorrect argument value: ".to_owned();
                s.append(m);
                s
            },
            AppError::LibError(e) => e.message(),
            AppError::Unknown => "Unknown error".to_owned(),
            AppError::ColorParseError => "The format of the color value is incorrect".to_owned(),
            AppError::ApplicationError(m) => {
                let mut s = "Application error: ".to_owned();
                s.append(m);
                s
            },
            AppError::Error(m) => m.clone(),
        }
    }
}

/// The one-line description of each application error.
pub open spec fn spec_app_error_message(e: AppErrorView) -> Seq<char> {
    match e {
        AppErrorView::TomlError(m) => "Failed to parse config file: "@ + m,
        AppErrorView::ConfigParseError(m) => "Failed to parse config file: "@ + m,
        AppErrorView::MissingArgError(m) => "Missing mandatory arguments: "@ + m
            + "\nTry `apprentice --help` for more information."@,
        AppErrorView::InvalidArgError(m) => "Incorrect argument value: "@ + m,
        AppErrorView::LibError(le) => spec_error_message(le),
        AppErrorView::Unknown => "Unknown error"@,
        AppErrorView::ColorParseError => "The format of the color value is incorrect"@,
        AppErrorView::ApplicationError(m) => "Application error: "@ + m,
        AppErrorView::Error(m) => m,
    }
}

/// The one-line description of each error.
pub open spec fn spec_error_message(e: ErrorView) -> Seq<char> {
    match e {
        ErrorView::MissingArgError(m) => "Missing mandatory arguments: "@ + m
            + "\nTry `apprentice --help` for more information."@,
        ErrorView::LLMCallError(m) => "Failed to call LLM: "@ + m,
        ErrorView::LLMJsonError(m) => "Failed to process LLM call: "@ + m,
        ErrorView::LLMResponseError(m) => "Failed to parse LLM response: "@ + m,
        ErrorView::Error(m) => m,
        ErrorView::LLMErrorMessage(m) => "LLM provider responded with error: "@ + m,
    }
}

} // verus!
