//! What can go wrong, and how each failure reads to the user.
use crate::text::{join2, join3};
use vstd::prelude::*;

verus! {

/// What an I/O failure was about, as far as the rules care.
#[derive(Debug, Clone, Copy, PartialEq, Eq, Structural)]
pub enum IoKind {
    /// The file or directory is not there.
    NotFound,
    /// Anything else.
    Other,
}

/// A failed operation of the operating system.
#[derive(Debug, Clone, PartialEq, Eq)]
pub struct IoFailure {
    pub kind: IoKind,
    /// The system's own words.
    pub message: String,
}

pub struct IoFailureView {
    pub kind: IoKind,
    pub message: Seq<char>,
}

impl DeepView for IoFailure {
    type V = IoFailureView;

    open spec fn deep_view(&self) -> IoFailureView {
        IoFailureView { kind: self.kind, message: self.message@ }
    }
}

/// Why a transfer failed: what the rules read off the transport's error.
#[derive(Debug, Clone, PartialEq, Eq)]
pub struct DownloadCause {
    /// The request ran out of time.
    pub timeout: bool,
    /// No connection could be made.
    pub connect: bool,
    /// The status that the server answered with, if it answered.
    pub status: Option<u16>,
    /// The transport's own words.
    pub detail: String,
}

pub struct DownloadCauseView {
    pub timeout: bool,
    pub connect: bool,
    pub status: Option<u16>,
    pub detail: Seq<char>,
}

impl DeepView for DownloadCause {
    type V = DownloadCauseView;

    open spec fn deep_view(&self) -> DownloadCauseView {
        DownloadCauseView {
            timeout: self.timeout,
            connect: self.connect,
            status: self.status,
            detail: self.detail@,
        }
    }
}

/// Every failure that an operation can end in.
#[derive(Debug, Clone, PartialEq, Eq)]
pub enum Error {
    /// A path cannot be written as text.
    InvalidPath,
    /// The index holds no record under this name.
    NotFound(String),
    /// The bundle could not be fetched from `url`.
    Download { url: String, source: DownloadCause },
    /// What the server offers does not look like a bundle.
    InvalidAppImage,
    /// The text is no `owner/repo` pair.
    InvalidSlug(String),
    /// The record has no source that could name a newer bundle.
    CantUpdatePkg,
    /// No release of the repository offers a bundle.
    NoReleasesFound,
    /// The host answered a step with an event that the step does not wait for.
    Unexpected,
    /// The operating system refused.
    Io(IoFailure),
    /// A record could not be read or written as JSON.
    Json(String),
    /// The transport failed outside a transfer.
    Http(String),
    /// The environment lacks a variable.
    EnvVar(String),
    /// The progress bar's template was refused.
    IndicatifTemplate(String),
    /// The release API failed.
    Octocrab(String),
    /// A prompt failed.
    Dialoguer(String),
}

pub enum ErrorView {
    InvalidPath,
    NotFound(Seq<char>),
    Download { url: Seq<char>, source: DownloadCauseView },
    InvalidAppImage,
    InvalidSlug(Seq<char>),
    CantUpdatePkg,
    NoReleasesFound,
    Unexpected,
    Io(IoFailureView),
    Json(Seq<char>),
    Http(Seq<char>),
    EnvVar(Seq<char>),
    IndicatifTemplate(Seq<char>),
    Octocrab(Seq<char>),
    Dialoguer(Seq<char>),
}

impl DeepView for Error {
    type V = ErrorView;

    open spec fn deep_view(&self) -> ErrorView {
        match self {
            Error::InvalidPath => ErrorView::InvalidPath,
            Error::NotFound(name) => ErrorView::NotFound(name@),
            Error::Download { url, source } => ErrorView::Download {
                url: url@,
                source: source.deep_view(),
            },
            Error::InvalidAppImage => ErrorView::InvalidAppImage,
            Error::InvalidSlug(slug) => ErrorView::InvalidSlug(slug@),
            Error::CantUpdatePkg => ErrorView::CantUpdatePkg,
            Error::NoReleasesFound => ErrorView::NoReleasesFound,
            Error::Unexpected => ErrorView::Unexpected,
            Error::Io(failure) => ErrorView::Io(failure.deep_view()),
            Error::Json(text) => ErrorView::Json(text@),
            Error::Http(text) => ErrorView::Http(text@),
            Error::EnvVar(text) => ErrorView::EnvVar(text@),
            Error::IndicatifTemplate(text) => ErrorView::IndicatifTemplate(text@),
            Error::Octocrab(text) => ErrorView::Octocrab(text@),
            Error::Dialoguer(text) => ErrorView::Dialoguer(text@),
        }
    }
}

/// How `reqwest` writes the status `code`: the number, a space and the reason
/// phrase that HTTP gives the number, or a note that it gives none.
pub uninterp spec fn status_text(code: u16) -> Seq<char>;

/// Calls `reqwest::StatusCode::from_u16` and, where that accepts the number,
/// the status's `Display`. Trusted: the number is accepted exactly from 100 to
/// 999, and the text is a function of the number alone.
#[verifier::external_body]
fn status_line(code: u16) -> (line: Option<String>)
    ensures
        line is Some <==> 100 <= code <= 999,
        line matches Some(text) ==> text@ == status_text(code),
{
    match reqwest::StatusCode::from_u16(code) {
        Ok(status) => Some(status.to_string()),
        Err(_) => None,
    }
}

/// The status of a failed transfer that the message names by number and reason:
/// one that has no wording of its own.
pub open spec fn unnamed_status(cause: DownloadCauseView) -> Option<u16> {
    match cause.status {
        Some(code) => if !cause.timeout && !cause.connect && code != 404 && code != 403 && !(500
            <= code <= 599) {
            Some(code)
        } else {
            None
        },
        None => None,
    }
}

/// What the user reads when the transfer from `url` failed for `cause`;
/// `status` is the server's status as `reqwest` writes it, where it could.
pub open spec fn download_message(
    url: Seq<char>,
    cause: DownloadCauseView,
    status: Option<Seq<char>>,
) -> Seq<char> {
    if cause.timeout {
        "Download timed out from: "@ + url
    } else if cause.connect {
        "Failed to connect to: "@ + url
    } else {
        match cause.status {
            Some(code) => {
                if code == 404 {
                    "AppImage not found at: "@ + url
                } else if code == 403 {
                    "Access denied at: "@ + url
                } else if 500 <= code <= 599 {
                    "Server error when downloading from: "@ + url
                } else {
                    match status {
                        Some(text) => "HTTP "@ + text + " error downloading from: "@ + url,
                        None => "Failed to download from "@ + url + ": "@ + cause.detail,
                    }
                }
            },
            None => "Failed to download from "@ + url + ": "@ + cause.detail,
        }
    }
}

/// The status text that `message` hands to `download_message`.
pub open spec fn status_of(cause: DownloadCauseView) -> Option<Seq<char>> {
    match unnamed_status(cause) {
        Some(code) => if 100 <= code <= 999 {
            Some(status_text(code))
        } else {
            None
        },
        None => None,
    }
}

/// What the user reads for `e`.
pub open spec fn message_of(e: ErrorView) -> Seq<char> {
    match e {
        ErrorView::InvalidPath => "Invalid path provided"@,
        ErrorView::NotFound(name) => "Application '"@ + name + "' not found"@,
        ErrorView::Download { url, source } => download_message(url, source, status_of(source)),
        ErrorView::InvalidAppImage => "Invalid AppImage"@,
        ErrorView::InvalidSlug(slug) => "Invalid repository slug "@ + slug,
        ErrorView::CantUpdatePkg => "Can't update package"@,
        ErrorView::NoReleasesFound => "No release offers an AppImage"@,
        ErrorView::Unexpected => "Unexpected answer from the host"@,
        ErrorView::Io(failure) => failure.message,
        ErrorView::Json(text) => "JSON error: "@ + text,
        ErrorView::Http(text) => "HTTP error: "@ + text,
        ErrorView::EnvVar(text) => "Environment variable error: "@ + text,
        ErrorView::IndicatifTemplate(text) => "Progress bar template error: "@ + text,
        ErrorView::Octocrab(text) => "Octocrab error: "@ + text,
        ErrorView::Dialoguer(text) => "Dialoguer error: "@ + text,
    }
}

impl DownloadCause {
    /// The message for a transfer from `url` that failed for this cause, given
    /// the server's status as text.
    pub fn describe(&self, url: &str, status: Option<String>) -> (r: String)
        ensures
            r@ == download_message(
                url@,
                self.deep_view(),
                match status {
                    Some(text) => Some(text@),
                    None => None,
                },
            ),
    {
        if self.timeout {
            join2("Download timed out from: ", url)
        } else if self.connect {
            join2("Failed to connect to: ", url)
        } else {
            match self.status {
                Some(code) => {
                    if code == 404 {
                        join2("AppImage not found at: ", url)
                    } else if code == 403 {
                        join2("Access denied at: ", url)
                    } else if 500 <= code && code <= 599 {
                        join2("Server error when downloading from: ", url)
                    } else {
                        match status {
                            Some(text) => {
                                let mut r = join3("HTTP ", text.as_str(), " error downloading from: ");
                                r.append(url);
                                r
                            },
                            None => {
                                let mut r = join3("Failed to download from ", url, ": ");
                                r.append(self.detail.as_str());
                                r
                            },
                        }
                    }
                },
                None => {
                    let mut r = join3("Failed to download from ", url, ": ");
                    r.append(self.detail.as_str());
                    r
                },
            }
        }
    }

    /// The server's status as text, where the message needs it.
    fn status(&self) -> (r: Option<String>)
        ensures
            status_of(self.deep_view()) == match r {
                Some(text) => Some(text@),
                None => None,
            },
    {
        if self.timeout || self.connect {
            return None;
        }
        match self.status {
            Some(code) => {
                if code == 404 || code == 403 || (500 <= code && code <= 599) {
                    None
                } else {
                    status_line(code)
                }
            },
            None => None,
        }
    }
}

impl Error {
    /// What the user reads for this failure.
    pub fn message(&self) -> (r: String)
        ensures
            r@ == message_of(self.deep_view()),
    {
        match self {
            Error::InvalidPath => String::from_str("Invalid path provided"),
            Error::NotFound(name) => join3("Application '", name.as_str(), "' not found"),
            Error::Download { url, source } => source.describe(url.as_str(), source.status()),
            Error::InvalidAppImage => String::from_str("Invalid AppImage"),
            Error::InvalidSlug(slug) => join2("Invalid repository slug ", slug.as_str()),
            Error::CantUpdatePkg => String::from_str("Can't update package"),
            Error::NoReleasesFound => String::from_str("No release offers an AppImage"),
            Error::Unexpected => String::from_str("Unexpected answer from the host"),
            Error::Io(failure) => failure.message.clone(),
            Error::Json(text) => join2("JSON error: ", text.as_str()),
            Error::Http(text) => join2("HTTP error: ", text.as_str()),
            Error::EnvVar(text) => join2("Environment variable error: ", text.as_str()),
            Error::IndicatifTemplate(text) => join2(
                "Progress bar template error: ",
                text.as_str(),
            ),
            Error::Octocrab(text) => join2("Octocrab error: ", text.as_str()),
            Error::Dialoguer(text) => join2("Dialoguer error: ", text.as_str()),
        }
    }
}

} // verus!
