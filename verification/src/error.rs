//! The errors that commands and channels report.

use vstd::prelude::*;

verus! {

/// What kind of failure a command reports.
#[derive(Clone, Copy, Debug, PartialEq, Eq, Structural)]
pub enum AppErrorCode {
    InvalidInput,
    ConfigurationMissing,
    ConfigurationInvalid,
    NotFound,
    Io,
    Network,
    /// A failure of the database.
    Database,
    /// A failure of a chat channel.
    Channel,
}

/// The failure of a command, as it is shown to the user.
#[derive(Debug)]
pub struct AppCommandError {
    pub code: AppErrorCode,
    pub message: String,
    pub detail: Option<String>,
}

/// An [`AppCommandError`] by the texts in it.
pub struct AppErrorView {
    pub code: AppErrorCode,
    pub message: Seq<char>,
    pub detail: Option<Seq<char>>,
}

/// An optional text by its characters.
pub open spec fn text_view(s: Option<String>) -> Option<Seq<char>> {
    match s {
        Some(s) => Some(s@),
        None => None,
    }
}

impl View for AppCommandError {
    type V = AppErrorView;

    open spec fn view(&self) -> AppErrorView {
        AppErrorView { code: self.code, message: self.message@, detail: text_view(self.detail) }
    }
}

/// A failure without details.
pub open spec fn failure(code: AppErrorCode, message: Seq<char>) -> AppErrorView {
    AppErrorView { code, message, detail: None }
}

/// A failure with details.
pub open spec fn detailed(
    code: AppErrorCode,
    message: Seq<char>,
    detail: Seq<char>,
) -> AppErrorView {
    AppErrorView { code, message, detail: Some(detail) }
}

impl AppCommandError {
    /// A failure of kind `code`, without details.
    pub fn new(code: AppErrorCode, message: String) -> (r: Self)
        ensures
            r@ == failure(code, message@),
    {
        AppCommandError { code, message, detail: None }
    }

    /// The input of the command is not acceptable.
    pub fn invalid_input(message: String) -> (r: Self)
        ensures
            r@ == failure(AppErrorCode::InvalidInput, message@),
    {
        Self::new(AppErrorCode::InvalidInput, message)
    }

    /// Something that the command needs has not been configured.
    pub fn configuration_missing(message: String) -> (r: Self)
        ensures
            r@ == failure(AppErrorCode::ConfigurationMissing, message@),
    {
        Self::new(AppErrorCode::ConfigurationMissing, message)
    }

    /// What has been configured cannot be used.
    pub fn configuration_invalid(message: String) -> (r: Self)
        ensures
            r@ == failure(AppErrorCode::ConfigurationInvalid, message@),
    {
        Self::new(AppErrorCode::ConfigurationInvalid, message)
    }

    /// What the command asks for does not exist.
    pub fn not_found(message: String) -> (r: Self)
        ensures
            r@ == failure(AppErrorCode::NotFound, message@),
    {
        Self::new(AppErrorCode::NotFound, message)
    }

    /// Reading or writing failed.
    pub fn io_error(message: String) -> (r: Self)
        ensures
            r@ == failure(AppErrorCode::Io, message@),
    {
        Self::new(AppErrorCode::Io, message)
    }

    /// A remote service could not be used.
    pub fn network(message: String) -> (r: Self)
        ensures
            r@ == failure(AppErrorCode::Network, message@),
    {
        Self::new(AppErrorCode::Network, message)
    }

    /// The same failure, with `detail` as its details.
    pub fn with_detail(self, detail: String) -> (r: Self)
        ensures
            r@ == detailed(self.code, self.message@, detail@),
    {
        AppCommandError { code: self.code, message: self.message, detail: Some(detail) }
    }
}

/// The failure of a chat channel.
#[derive(Debug)]
pub enum ChatChannelError {
    SendFailed(String),
}

/// A [`ChatChannelError`] by the text in it.
pub enum ChatErrorView {
    SendFailed(Seq<char>),
}

impl View for ChatChannelError {
    type V = ChatErrorView;

    open spec fn view(&self) -> ChatErrorView {
        match self {
            ChatChannelError::SendFailed(reason) => ChatErrorView::SendFailed(reason@),
        }
    }
}

} // verus!
