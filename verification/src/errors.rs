use vstd::prelude::*;
use vstd::string::StringExecFns;

verus! {

/// Spec-level shape of a [`CliConfigError`]: each variant's message as a
/// sequence of characters.
pub enum CliErrorView {
    RusotoError(Seq<char>),
    FileError(Seq<char>),
    HttpClientError(Seq<char>),
    CliArgError(Seq<char>),
}

/// Everything that can go wrong in one invocation of the tool.
///
/// The argument resolvers only ever produce `CliArgError`; the remaining
/// variants carry messages from the object-store client, the local
/// filesystem, and HTTP client construction.
#[derive(Debug, PartialEq)]
pub enum CliConfigError {
    RusotoError(String),
    FileError(String),
    HttpClientError(String),
    CliArgError(String),
}

impl View for CliConfigError {
    type V = CliErrorView;

    open spec fn view(&self) -> CliErrorView {
        match self {
            CliConfigError::RusotoError(e) => CliErrorView::RusotoError(e@),
            CliConfigError::FileError(e) => CliErrorView::FileError(e@),
            CliConfigError::HttpClientError(e) => CliErrorView::HttpClientError(e@),
            CliConfigError::CliArgError(e) => CliErrorView::CliArgError(e@),
        }
    }
}

impl DeepView for CliConfigError {
    type V = CliErrorView;

    open spec fn deep_view(&self) -> CliErrorView {
        self.view()
    }
}

/// Deep view of a `Result`, component for component.
pub open spec fn result_deep_view<T: DeepView, E: DeepView>(r: Result<T, E>) -> Result<
    T::V,
    E::V,
> {
    match r {
        Ok(t) => Ok(t.deep_view()),
        Err(e) => Err(e.deep_view()),
    }
}

impl CliConfigError {
    /// The user-facing report for this error.
    pub open spec fn spec_message(&self) -> Seq<char> {
        match self {
            CliConfigError::RusotoError(e) => e@,
            CliConfigError::FileError(e) => e@,
            CliConfigError::HttpClientError(e) => "Fail to create S3 Http Client : "@ + e@,
            CliConfigError::CliArgError(e) => "Fail to parse arguments : "@ + e@,
        }
    }

    pub fn message(&self) -> (r: String)
        ensures
            r@ == self.spec_message(),
    {
        match self {
            CliConfigError::RusotoError(e) => e.clone(),
            CliConfigError::FileError(e) => e.clone(),
            CliConfigError::HttpClientError(e) => String::from_str(
                "Fail to create S3 Http Client : ",
            ).concat(e.as_str()),
            CliConfigError::CliArgError(e) => String::from_str(
                "Fail to parse arguments : ",
            ).concat(e.as_str()),
        }
    }
}

} // verus!
