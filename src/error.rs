//! Errors of argument validation.
use vstd::prelude::*;

verus! {

/// A rejected `--url` argument.
pub enum ArgError {
    /// The URL is malformed; `reason` and `example` are styled for the terminal.
    InvalidUrl { url: String, reason: String, example: String },
    /// The URL names no supported site.
    WebsiteNotSupported(String),
}

/// The characters an `ArgError` holds.
pub enum ArgErrorView {
    InvalidUrl { url: Seq<char>, reason: Seq<char>, example: Seq<char> },
    WebsiteNotSupported(Seq<char>),
}

impl View for ArgError {
    type V = ArgErrorView;

    open spec fn view(&self) -> ArgErrorView {
        match self {
            ArgError::InvalidUrl { url, reason, example } => ArgErrorView::InvalidUrl {
                url: url@,
                reason: reason@,
                example: example@,
            },
            ArgError::WebsiteNotSupported(url) => ArgErrorView::WebsiteNotSupported(url@),
        }
    }
}

/// The text shown for an `ArgError`.
pub open spec fn arg_error_message(e: ArgErrorView) -> Seq<char> {
    match e {
        ArgErrorView::InvalidUrl { url, reason, example } => "--url argument: "@ + url
            + " is not a valid url\nReason: "@ + reason + "\nExample: "@ + example,
        ArgErrorView::WebsiteNotSupported(url) => "--url argument: "@ + url
            + " is not a supported site.\nrun with --help for a list of supported sites."@,
    }
}

impl ArgError {
    /// The text shown for this error.
    pub fn message(&self) -> (r: String)
        ensures
            r@ == arg_error_message(self@),
    {
        match self {
            ArgError::InvalidUrl { url, reason, example } => {
                let mut m = String::from_str("--url argument: ");
                m.append(url.as_str());
                m.append(" is not a valid url\nReason: ");
                m.append(reason.as_str());
                m.append("\nExample: ");
                m.append(example.as_str());
                m
            },
            ArgError::WebsiteNotSupported(url) => {
                let mut m = String::from_str("--url argument: ");
                m.append(url.as_str());
                m.append(
                    " is not a supported site.\nrun with --help for a list of supported sites.",
                );
                m
            },
        }
    }
}

} // verus!
