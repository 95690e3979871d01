//! The checks made before measuring starts, and the choice of display.
use vstd::prelude::*;

use crate::cli::Args;

verus! {

/// Why a run does not start.
#[derive(Debug)]
pub enum StartupError {
    /// `--concurrency 0`.
    ZeroConcurrency,
    /// The address of `--url` is not a URL; the text names the parse error
    /// (its `Debug` form, such as `RelativeUrlWithoutBase`).
    InvalidUrl(String),
    /// The address of `--url` is a URL but not an `http` or `https` one with a host.
    NotHttpUrl,
    /// The dashboard was asked for where there is no interactive terminal.
    TuiNeedsTerminal,
}

/// The parts of a parsed URL that the checks read: the scheme (lower case)
/// and the host, if any.
pub struct UrlParts {
    pub scheme: String,
    pub host: Option<String>,
}

/// What `reqwest::Url::parse` makes of a string: the scheme and the host of
/// the URL, or the `Debug` text of the parse error.
pub uninterp spec fn parsed_url(input: Seq<char>) -> Result<(Seq<char>, Option<Seq<char>>), Seq<char>>;

pub open spec fn url_parts_view(r: Result<UrlParts, String>) -> Result<(Seq<char>, Option<Seq<char>>), Seq<char>> {
    match r {
        Ok(p) => Ok(
            (
                p.scheme@,
                match p.host {
                    Some(h) => Some(h@),
                    None => None,
                },
            ),
        ),
        Err(e) => Err(e@),
    }
}

/// Parses `input` as an absolute URL with `reqwest::Url::parse` (the `url`
/// crate's WHATWG parser) and keeps its scheme and host, or the error's
/// `Debug` text.
///
/// Trusted: the contract only names the result, [`parsed_url`] of the
/// input; what the parser accepts is not stated.
#[verifier::external_body]
fn parse_url(input: &str) -> (r: Result<UrlParts, String>)
    ensures
        url_parts_view(r) == parsed_url(input@),
{
    match reqwest::Url::parse(input) {
        Ok(url) => Ok(UrlParts { scheme: url.scheme().to_string(), host: url.host_str().map(String::from) }),
        Err(error) => Err(format!("{error:?}")),
    }
}

/// Whether a parsed URL is fit to download from: its scheme is `http` or
/// `https` and it has a host.
pub open spec fn is_http_url(parsed: (Seq<char>, Option<Seq<char>>)) -> bool {
    (parsed.0 == "http"@ || parsed.0 == "https"@) && parsed.1 is Some
}

/// The verdict on a parsed `--url`: `r` is what the checks give for `parsed`.
pub open spec fn url_verdict(parsed: Result<(Seq<char>, Option<Seq<char>>), Seq<char>>, r: Result<(), StartupError>) -> bool {
    match parsed {
        Err(msg) => r matches Err(StartupError::InvalidUrl(m)) && m@ == msg,
        Ok(p) => if is_http_url(p) {
            r is Ok
        } else {
            r matches Err(StartupError::NotHttpUrl)
        },
    }
}

/// Judges a parsed `--url`: a parse error is reported as such, and the URL
/// must be an `http` or `https` one with a host.
pub fn check_url(parsed: Result<UrlParts, String>) -> (r: Result<(), StartupError>)
    ensures
        url_verdict(url_parts_view(parsed), r),
{
    match parsed {
        Err(msg) => Err(StartupError::InvalidUrl(msg)),
        Ok(parts) => {
            let http = "http".to_owned();
            let https = "https".to_owned();
            if (parts.scheme == http || parts.scheme == https) && parts.host.is_some() {
                Ok(())
            } else {
                Err(StartupError::NotHttpUrl)
            }
        },
    }
}

/// Checks the settings before anything is measured: the concurrency must be
/// positive, and an address of the user's own must be an `http` or `https`
/// URL with a host.
pub fn check_args(args: &Args) -> (r: Result<(), StartupError>)
    ensures
        args.concurrency == 0 ==> r matches Err(StartupError::ZeroConcurrency),
        args.concurrency > 0 && args@.url.len() == 0 ==> r is Ok,
        args.concurrency > 0 && args@.url.len() > 0 ==> url_verdict(parsed_url(args@.url), r),
{
    if args.concurrency == 0 {
        return Err(StartupError::ZeroConcurrency);
    }
    if args.url.as_str().is_empty() {
        return Ok(());
    }
    check_url(parse_url(args.url.as_str()))
}

/// Whether the dashboard is shown, given whether both standard input and
/// output are terminals: it is unless `--cli` was given or there is no
/// terminal, and asking for it with `--tui` where there is none fails.
pub fn choose_display(args: &Args, interactive: bool) -> (r: Result<bool, StartupError>)
    ensures
        args.tui && !interactive ==> r matches Err(StartupError::TuiNeedsTerminal),
        !(args.tui && !interactive) ==> r == Ok::<bool, StartupError>(!args.cli && interactive),
{
    if args.tui && !interactive {
        return Err(StartupError::TuiNeedsTerminal);
    }
    Ok(!args.cli && interactive)
}

impl StartupError {
    /// The text reported for the error.
    pub fn message(&self) -> (text: String)
        ensures
            text@ == (match self {
                StartupError::ZeroConcurrency => "并发数必须大于 0"@,
                StartupError::InvalidUrl(m) => m@,
                StartupError::NotHttpUrl => "下载地址必须是有效的 HTTP 或 HTTPS URL"@,
                StartupError::TuiNeedsTerminal => "TUI 需要交互终端，请使用 --cli"@,
            }),
    {
        match self {
            StartupError::ZeroConcurrency => "并发数必须大于 0".to_owned(),
            StartupError::InvalidUrl(m) => m.clone(),
            StartupError::NotHttpUrl => "下载地址必须是有效的 HTTP 或 HTTPS URL".to_owned(),
            StartupError::TuiNeedsTerminal => "TUI 需要交互终端，请使用 --cli".to_owned(),
        }
    }
}

} // verus!
