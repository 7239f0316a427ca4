use vstd::prelude::*;

verus! {

/// The errors of the library: a storage failure or a configuration/connection
/// failure, each carrying a human-readable message.
#[derive(Debug)]
pub enum AppError {
    Database(String),
    Config(String),
}

/// What an error is, as a mathematical value.
pub enum ErrorView {
    Database(Seq<char>),
    Config(Seq<char>),
}

impl View for AppError {
    type V = ErrorView;

    open spec fn view(&self) -> ErrorView {
        match self {
            AppError::Database(m) => ErrorView::Database(m@),
            AppError::Config(m) => ErrorView::Config(m@),
        }
    }
}

/// `r` is a failure with the error `v`.
pub open spec fn fails_with<T>(r: Result<T, AppError>, v: ErrorView) -> bool {
    r matches Err(e) && e@ == v
}

impl AppError {
    /// The text of the error's message.
    pub open spec fn spec_message(self) -> Seq<char> {
        match self {
            AppError::Database(m) => m@,
            AppError::Config(m) => m@,
        }
    }

    /// The message that callers show for this error.
    pub fn message(&self) -> (m: String)
        ensures
            m@ == self.spec_message(),
    {
        match self {
            AppError::Database(m) => m.clone(),
            AppError::Config(m) => m.clone(),
        }
    }

    /// A copy of this error.
    pub fn duplicate(&self) -> (e: AppError)
        ensures
            e@ == self@,
    {
        match self {
            AppError::Database(m) => AppError::Database(m.clone()),
            AppError::Config(m) => AppError::Config(m.clone()),
        }
    }
}

} // verus!
