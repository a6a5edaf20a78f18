use vstd::prelude::*;

verus! {

/// What the command line asked for.
pub struct Opt {
    /// Append the underlying error text to diagnostics.
    pub verbose: bool,
    /// Also copy the result to the system clipboard.
    pub clipboard: bool,
    /// Name of the crate to look up.
    pub crate_name: String,
}

/// The `crate` object of a crates.io answer.
pub struct Crate {
    pub max_version: String,
}

/// One entry of the `errors` list of a crates.io answer.
pub struct ApiError {
    pub detail: String,
}

/// A decoded crates.io answer: the crate, when it was found, and the errors
/// that the registry reported, in the order it gave them.
pub struct ApiResponse {
    pub crate_: Option<Crate>,
    pub errors: Vec<ApiError>,
}

/// Why no `ApiResponse` could be had, with the underlying error text.
pub enum FetchError {
    /// The request itself failed.
    Transport(String),
    /// The body did not decode into an `ApiResponse`.
    Decode(String),
}

pub struct OptView {
    pub verbose: bool,
    pub clipboard: bool,
    pub crate_name: Seq<char>,
}

/// An answer as text: the newest version, if any, and the error details.
pub struct ResponseView {
    pub max_version: Option<Seq<char>>,
    pub errors: Seq<Seq<char>>,
}

pub enum FetchErrorView {
    Transport(Seq<char>),
    Decode(Seq<char>),
}

impl View for Opt {
    type V = OptView;

    open spec fn view(&self) -> OptView {
        OptView { verbose: self.verbose, clipboard: self.clipboard, crate_name: self.crate_name@ }
    }
}

impl View for ApiResponse {
    type V = ResponseView;

    open spec fn view(&self) -> ResponseView {
        ResponseView {
            max_version: match self.crate_ {
                Some(c) => Some(c.max_version@),
                None => None,
            },
            errors: self.errors@.map_values(|e: ApiError| e.detail@),
        }
    }
}

impl View for FetchError {
    type V = FetchErrorView;

    open spec fn view(&self) -> FetchErrorView {
        match self {
            FetchError::Transport(d) => FetchErrorView::Transport(d@),
            FetchError::Decode(d) => FetchErrorView::Decode(d@),
        }
    }
}

} // verus!
