use vstd::prelude::*;
use vstd::string::StringExecFns;

verus! {

/// Why no runnable binary could be produced.
#[derive(Debug, Clone, PartialEq, Eq)]
pub enum ResolveError {
    /// No build is published for the host's operating system.
    UnsupportedPlatform,
    /// No build is published for the host's processor.
    UnsupportedArchitecture,
    /// The release source could not be queried; holds the cause.
    Lookup(String),
    /// The release has no asset by the expected name; holds that name.
    AssetNotFound(String),
    /// The version directory could not be created.
    Directory { path: String, cause: String },
    /// The asset could not be transferred; holds the cause.
    Download(String),
    /// The downloaded file could not be marked executable; holds the cause.
    Permission(String),
    /// The working directory could not be listed; holds the cause.
    List(String),
    /// A local build was asked for and the environment has no `HOME`.
    MissingHomeEnv,
    /// An event arrived that does not answer the action last handed out.
    UnexpectedEvent,
}

/// The mathematical value of a [`ResolveError`].
pub enum ResolveErrorView {
    UnsupportedPlatform,
    UnsupportedArchitecture,
    Lookup(Seq<char>),
    AssetNotFound(Seq<char>),
    Directory { path: Seq<char>, cause: Seq<char> },
    Download(Seq<char>),
    Permission(Seq<char>),
    List(Seq<char>),
    MissingHomeEnv,
    UnexpectedEvent,
}

impl View for ResolveError {
    type V = ResolveErrorView;

    open spec fn view(&self) -> ResolveErrorView {
        match *self {
            ResolveError::UnsupportedPlatform => ResolveErrorView::UnsupportedPlatform,
            ResolveError::UnsupportedArchitecture => ResolveErrorView::UnsupportedArchitecture,
            ResolveError::Lookup(cause) => ResolveErrorView::Lookup(cause@),
            ResolveError::AssetNotFound(name) => ResolveErrorView::AssetNotFound(name@),
            ResolveError::Directory { path, cause } => ResolveErrorView::Directory {
                path: path@,
                cause: cause@,
            },
            ResolveError::Download(cause) => ResolveErrorView::Download(cause@),
            ResolveError::Permission(cause) => ResolveErrorView::Permission(cause@),
            ResolveError::List(cause) => ResolveErrorView::List(cause@),
            ResolveError::MissingHomeEnv => ResolveErrorView::MissingHomeEnv,
            ResolveError::UnexpectedEvent => ResolveErrorView::UnexpectedEvent,
        }
    }
}

/// The mathematical value of a path-or-error result.
pub open spec fn outcome_view(r: Result<String, ResolveError>) -> Result<Seq<char>, ResolveErrorView> {
    match r {
        Ok(path) => Ok(path@),
        Err(e) => Err(e@),
    }
}

/// What the standard library's `Debug` formatting writes for a string: the
/// text between double quotes, with its escapes.
pub uninterp spec fn debug_quoted(text: Seq<char>) -> Seq<char>;

/// Formats a string with `{:?}`, which is `<str as core::fmt::Debug>::fmt`.
/// Trusted: that the result depends on the text alone, so that it can be
/// called `debug_quoted` of the text. Nothing is claimed of what it holds.
#[verifier::external_body]
fn quote(text: &str) -> (r: String)
    ensures
        r@ == debug_quoted(text@),
{
    format!("{:?}", text)
}

/// The message for a missing asset, given the asset's name as quoted.
pub open spec fn asset_not_found_text(quoted_name: Seq<char>) -> Seq<char> {
    "no asset found matching "@ + quoted_name
}

/// The text that the host shows for an error.
pub open spec fn message_of(e: ResolveErrorView) -> Seq<char> {
    match e {
        ResolveErrorView::UnsupportedPlatform => {
            "unsupported os: ledger-language-server is not released for windows"@
        },
        ResolveErrorView::UnsupportedArchitecture => {
            "unsupported arch: ledger-language-server is not released for x86"@
        },
        ResolveErrorView::Lookup(cause) => cause,
        ResolveErrorView::AssetNotFound(name) => asset_not_found_text(debug_quoted(name)),
        ResolveErrorView::Directory { path, cause } => "failed to create directory '"@ + path
            + "': "@ + cause,
        ResolveErrorView::Download(cause) => "failed to download file: "@ + cause,
        ResolveErrorView::Permission(cause) => cause,
        ResolveErrorView::List(cause) => "failed to list working directory "@ + cause,
        ResolveErrorView::MissingHomeEnv => "couldn't find $HOME in env"@,
        ResolveErrorView::UnexpectedEvent => "unexpected event: no pending action expects it"@,
    }
}

/// Writes the message for a missing asset around the asset's quoted name.
pub fn asset_not_found_message(quoted_name: &str) -> (r: String)
    ensures
        r@ == asset_not_found_text(quoted_name@),
{
    let mut out = String::from_str("no asset found matching ");
    out.append(quoted_name);
    out
}

impl ResolveError {
    /// The text that the host shows for this error. Causes reported by the
    /// release source and by the permission change are shown as they came.
    pub fn message(&self) -> (r: String)
        ensures
            r@ == message_of(self@),
    {
        match self {
            ResolveError::UnsupportedPlatform => String::from_str(
                "unsupported os: ledger-language-server is not released for windows",
            ),
            ResolveError::UnsupportedArchitecture => String::from_str(
                "unsupported arch: ledger-language-server is not released for x86",
            ),
            ResolveError::Lookup(cause) => cause.clone(),
            ResolveError::AssetNotFound(name) => {
                let quoted = quote(name.as_str());
                asset_not_found_message(quoted.as_str())
            },
            ResolveError::Directory { path, cause } => {
                let mut out = String::from_str("failed to create directory '");
                out.append(path.as_str());
                out.append("': ");
                out.append(cause.as_str());
                out
            },
            ResolveError::Download(cause) => {
                let mut out = String::from_str("failed to download file: ");
                out.append(cause.as_str());
                out
            },
            ResolveError::Permission(cause) => cause.clone(),
            ResolveError::List(cause) => {
                let mut out = String::from_str("failed to list working directory ");
                out.append(cause.as_str());
                out
            },
            ResolveError::MissingHomeEnv => String::from_str("couldn't find $HOME in env"),
            ResolveError::UnexpectedEvent => String::from_str(
                "unexpected event: no pending action expects it",
            ),
        }
    }
}

} // verus!
