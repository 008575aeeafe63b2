//! What one ping came to, and the log line that records it.

use vstd::prelude::*;
use vstd::string::*;

verus! {

/// How one ping ended.
#[derive(Clone, Debug, PartialEq, Eq)]
pub enum PingOutcome {
    /// A response arrived and its body was read as text. The status code is
    /// kept for the record only: any response counts as a delivered ping.
    Posted { status: u16, body: String },
    /// A response arrived, but its body could not be read as text.
    BodyUnreadable { cause: String },
    /// The request could not be sent: no connection, no name, no TLS session.
    SendFailed { cause: String },
}

/// A [`PingOutcome`] with its texts as sequences of characters.
pub enum PingOutcomeView {
    Posted { status: u16, body: Seq<char> },
    BodyUnreadable { cause: Seq<char> },
    SendFailed { cause: Seq<char> },
}

impl View for PingOutcome {
    type V = PingOutcomeView;

    open spec fn view(&self) -> PingOutcomeView {
        match *self {
            PingOutcome::Posted { status, body } => PingOutcomeView::Posted { status, body: body@ },
            PingOutcome::BodyUnreadable { cause } => PingOutcomeView::BodyUnreadable {
                cause: cause@,
            },
            PingOutcome::SendFailed { cause } => PingOutcomeView::SendFailed { cause: cause@ },
        }
    }
}

/// Where a log line is written.
#[derive(Clone, Copy, Debug, PartialEq, Eq, Structural)]
pub enum LogStream {
    /// Standard output: delivered pings.
    Stdout,
    /// Standard error: pings that failed.
    Stderr,
}

/// One line for the log, without the line break that ends it.
#[derive(Clone, Debug, PartialEq, Eq)]
pub struct LogLine {
    pub stream: LogStream,
    pub text: String,
}

/// A [`LogLine`] with its text as a sequence of characters.
pub struct LogLineView {
    pub stream: LogStream,
    pub text: Seq<char>,
}

impl View for LogLine {
    type V = LogLineView;

    open spec fn view(&self) -> LogLineView {
        LogLineView { stream: self.stream, text: self.text@ }
    }
}

/// Text that opens the line for a delivered ping.
pub open spec fn posted_prefix() -> Seq<char> {
    "Posted to "@
}

/// Text that opens the line for a response whose body could not be read.
pub open spec fn unreadable_prefix() -> Seq<char> {
    "Failed to read body from "@
}

/// Text that opens the line for a request that could not be sent.
pub open spec fn send_failed_prefix() -> Seq<char> {
    "Failed to post to "@
}

/// Text between the address and the detail that follows it.
pub open spec fn detail_separator() -> Seq<char> {
    ": "@
}

/// A line's text: the prefix, the address, a colon and a space, the detail.
pub open spec fn line_text(prefix: Seq<char>, url: Seq<char>, detail: Seq<char>) -> Seq<char> {
    prefix + url + detail_separator() + detail
}

/// The log line for a ping to `url` that ended in `outcome`.
pub open spec fn log_line(url: Seq<char>, outcome: PingOutcomeView) -> LogLineView {
    match outcome {
        PingOutcomeView::Posted { status, body } => LogLineView {
            stream: LogStream::Stdout,
            text: line_text(posted_prefix(), url, body),
        },
        PingOutcomeView::BodyUnreadable { cause } => LogLineView {
            stream: LogStream::Stderr,
            text: line_text(unreadable_prefix(), url, cause),
        },
        PingOutcomeView::SendFailed { cause } => LogLineView {
            stream: LogStream::Stderr,
            text: line_text(send_failed_prefix(), url, cause),
        },
    }
}

/// Puts a line's text together.
fn compose(prefix: &str, url: &str, detail: &str) -> (text: String)
    ensures
        text@ == line_text(prefix@, url@, detail@),
{
    let mut text = String::from_str(prefix);
    text.append(url);
    text.append(": ");
    text.append(detail);
    text
}

/// Writes the log line for a ping to `url` that ended in `outcome`: on
/// standard output the address and the body for a delivered ping, whatever
/// its status code; on standard error the address and the cause for a body
/// that could not be read and, worded differently, for a request that could
/// not be sent.
pub fn report(url: &str, outcome: &PingOutcome) -> (line: LogLine)
    ensures
        line@ == log_line(url@, outcome@),
{
    match outcome {
        PingOutcome::Posted { status: _, body } => LogLine {
            stream: LogStream::Stdout,
            text: compose("Posted to ", url, body.as_str()),
        },
        PingOutcome::BodyUnreadable { cause } => LogLine {
            stream: LogStream::Stderr,
            text: compose("Failed to read body from ", url, cause.as_str()),
        },
        PingOutcome::SendFailed { cause } => LogLine {
            stream: LogStream::Stderr,
            text: compose("Failed to post to ", url, cause.as_str()),
        },
    }
}

/// Any response counts as a delivered ping: the status code changes nothing
/// in the line, which goes to standard output.
pub proof fn lemma_status_is_ignored(url: Seq<char>, body: Seq<char>, s1: u16, s2: u16)
    ensures
        log_line(url, PingOutcomeView::Posted { status: s1, body }) == log_line(
            url,
            PingOutcomeView::Posted { status: s2, body },
        ),
        log_line(url, PingOutcomeView::Posted { status: s1, body }).stream == LogStream::Stdout,
{
}

/// A line goes to standard output exactly when the ping was delivered; both
/// kinds of failure go to standard error.
pub proof fn lemma_failures_go_to_stderr(url: Seq<char>, outcome: PingOutcomeView)
    ensures
        log_line(url, outcome).stream == LogStream::Stdout <==> outcome is Posted,
        log_line(url, outcome).stream == LogStream::Stderr <==> !(outcome is Posted),
{
}

/// A line shows the address right after its prefix and ends with the detail.
pub proof fn lemma_line_holds_url_and_detail(
    prefix: Seq<char>,
    url: Seq<char>,
    detail: Seq<char>,
)
    ensures
        line_text(prefix, url, detail).len() == prefix.len() + url.len() + 2 + detail.len(),
        line_text(prefix, url, detail).take(prefix.len() as int) == prefix,
        line_text(prefix, url, detail).subrange(
            prefix.len() as int,
            prefix.len() as int + url.len() as int,
        ) == url,
        line_text(prefix, url, detail).skip(prefix.len() as int + url.len() as int + 2) == detail,
{
    reveal_strlit(": ");
    let text = line_text(prefix, url, detail);
    let p = prefix.len() as int;
    let u = url.len() as int;
    assert(text.take(p) =~= prefix);
    assert(text.subrange(p, p + u) =~= url);
    assert(text.skip(p + u + 2) =~= detail);
}

/// A body that could not be read is never logged as a request that could not
/// be sent: the two lines differ, whatever the addresses and the causes.
pub proof fn lemma_unreadable_differs_from_send_failed(
    url_a: Seq<char>,
    cause_a: Seq<char>,
    url_b: Seq<char>,
    cause_b: Seq<char>,
)
    ensures
        log_line(url_a, PingOutcomeView::BodyUnreadable { cause: cause_a }).text != log_line(
            url_b,
            PingOutcomeView::SendFailed { cause: cause_b },
        ).text,
{
    reveal_strlit("Failed to read body from ");
    reveal_strlit("Failed to post to ");
    let a = log_line(url_a, PingOutcomeView::BodyUnreadable { cause: cause_a }).text;
    let b = log_line(url_b, PingOutcomeView::SendFailed { cause: cause_b }).text;
    assert(a[10] == 'r');
    assert(b[10] == 'p');
}

} // verus!
