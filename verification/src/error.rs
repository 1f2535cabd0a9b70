//! Why an operation failed, in words for the log.
use vstd::prelude::*;

verus! {

#[derive(Clone, Debug, PartialEq, Eq)]
pub enum AppError {
    Config(String),
    Windows(String),
    Render(String),
}

impl AppError {
    /// A drawing or encoding failure with this reason.
    pub open spec fn is_render(self, reason: Seq<char>) -> bool {
        self is Render && self->Render_0@ == reason
    }

    /// A failed system call with this reason.
    pub open spec fn is_windows(self, reason: Seq<char>) -> bool {
        self is Windows && self->Windows_0@ == reason
    }

    pub fn render(reason: &str) -> (error: AppError)
        ensures
            error.is_render(reason@),
    {
        AppError::Render(reason.to_owned())
    }

    pub fn windows(reason: &str) -> (error: AppError)
        ensures
            error.is_windows(reason@),
    {
        AppError::Windows(reason.to_owned())
    }

    /// The reason.
    pub open spec fn reason(self) -> Seq<char> {
        match self {
            AppError::Config(text) => text@,
            AppError::Windows(text) => text@,
            AppError::Render(text) => text@,
        }
    }

    pub fn message(&self) -> (reason: &str)
        ensures
            reason@ == self.reason(),
    {
        match self {
            AppError::Config(text) => text.as_str(),
            AppError::Windows(text) => text.as_str(),
            AppError::Render(text) => text.as_str(),
        }
    }
}

/// An error is of its kind and says its reason.
pub proof fn law_errors_say_their_reason(
    reason: &str,
    render: AppError,
    windows: AppError,
    drawn: &str,
    called: &str,
)
    requires
        call_ensures(AppError::render, (reason,), render),
        call_ensures(AppError::windows, (reason,), windows),
        call_ensures(AppError::message, (&render,), drawn),
        call_ensures(AppError::message, (&windows,), called),
    ensures
        render is Render,
        windows is Windows,
        drawn@ == reason@,
        called@ == reason@,
{
}

} // verus!
