//! What the download and upload workers decide about each response.
use vstd::prelude::*;

use crate::status::{is_success_status, spec_is_success};

verus! {

/// A response is read unless its status is a client error (`4xx`) or a
/// server error (`5xx`).
pub open spec fn spec_accepts_response(code: u16) -> bool {
    !(400 <= code && code < 600)
}

/// Whether a download response is read (its status is not `4xx` or `5xx`);
/// a response that is not read ends the worker.
pub fn accepts_response(code: u16) -> (ok: bool)
    ensures
        ok == spec_accepts_response(code),
{
    !(400 <= code && code < 600)
}

/// HTTP error answers are never read, so their bytes never count as
/// downloaded: every client error (`400..=499`) and server error
/// (`500..=599`) is refused, every success (`200..=299`) is read, and so
/// are informational answers and redirects (`100..=399`).
pub proof fn lemma_error_answers_are_refused(code: u16)
    ensures
        400 <= code <= 499 ==> !spec_accepts_response(code),
        500 <= code <= 599 ==> !spec_accepts_response(code),
        100 <= code <= 399 ==> spec_accepts_response(code),
        spec_is_success(code) ==> spec_accepts_response(code),
{
}

/// What happened while reading a download body.
#[derive(Debug, Clone, Copy, PartialEq, Eq, Structural)]
pub enum BodyEvent {
    /// A chunk of this many bytes arrived.
    Chunk(u64),
    /// The body ended.
    End,
    /// Reading failed.
    Failed,
}

/// What a download worker does next.
#[derive(Debug, Clone, Copy, PartialEq, Eq, Structural)]
pub enum BodyStep {
    /// Count this many downloaded bytes and keep reading.
    Count(u64),
    /// The body was read through: request the file again.
    NextRequest,
    /// Stop the worker; it is replaced, and its end is a retry
    /// ([`Failure::DownloadEnded`]).
    Stop,
}

/// A download body being read: whether any byte has arrived yet.
pub struct DownloadBody {
    received: bool,
}

impl View for DownloadBody {
    type V = bool;

    closed spec fn view(&self) -> bool {
        self.received
    }
}

impl DownloadBody {
    /// A body of which nothing has arrived.
    pub fn new() -> (b: DownloadBody)
        ensures
            !b@,
    {
        DownloadBody { received: false }
    }

    /// Every chunk is counted; a body that ends after some bytes arrived is
    /// requested again, while an empty body or a failure stops the worker.
    pub fn on_event(&mut self, event: BodyEvent) -> (step: BodyStep)
        ensures
            match event {
                BodyEvent::Chunk(n) => step == BodyStep::Count(n) && final(self)@ == (old(self)@ || n > 0),
                BodyEvent::End => step == (if old(self)@ {
                    BodyStep::NextRequest
                } else {
                    BodyStep::Stop
                }) && final(self)@ == old(self)@,
                BodyEvent::Failed => step == BodyStep::Stop && final(self)@ == old(self)@,
            },
    {
        match event {
            BodyEvent::Chunk(n) => {
                self.received = self.received || n > 0;
                BodyStep::Count(n)
            },
            BodyEvent::End => if self.received {
                BodyStep::NextRequest
            } else {
                BodyStep::Stop
            },
            BodyEvent::Failed => BodyStep::Stop,
        }
    }
}

/// Whether any byte has arrived after `events`, starting from `received`.
pub open spec fn received_after(received: bool, events: Seq<BodyEvent>) -> bool
    decreases events.len(),
{
    if events.len() == 0 {
        received
    } else {
        let before = received_after(received, events.drop_last());
        match events.last() {
            BodyEvent::Chunk(n) => before || n > 0,
            _ => before,
        }
    }
}

/// A body is requested again only after data arrived: after any run of
/// events on a fresh body, bytes count as received exactly when one of the
/// events was a non-empty chunk.
pub proof fn lemma_received_iff_data(events: Seq<BodyEvent>)
    ensures
        received_after(false, events) <==> exists|i: int|
            0 <= i < events.len() && (#[trigger] events[i] matches BodyEvent::Chunk(n) && n > 0),
    decreases events.len(),
{
    if events.len() > 0 {
        let prefix = events.drop_last();
        lemma_received_iff_data(prefix);
        if received_after(false, prefix) {
            let i = choose|i: int| 0 <= i < prefix.len() && (#[trigger] prefix[i] matches BodyEvent::Chunk(n) && n > 0);
            assert(events[i] == prefix[i]);
        }
        if exists|i: int| 0 <= i < events.len() && (#[trigger] events[i] matches BodyEvent::Chunk(n) && n > 0) {
            let i = choose|i: int| 0 <= i < events.len() && (#[trigger] events[i] matches BodyEvent::Chunk(n) && n > 0);
            if i < events.len() - 1 {
                assert(prefix[i] == events[i]);
            }
        }
    }
}

/// What an upload worker does after a request.
#[derive(Debug, Clone, Copy, PartialEq, Eq, Structural)]
pub enum UploadStep {
    /// The server took the upload: read its answer and send again.
    SendAgain,
    /// Wait, and send again. A failed upload is not a retry in the count
    /// the dashboard shows (see [`counts_as_retry`]).
    RetryAfterDelay,
}

/// A transfer that went wrong.
#[derive(Debug, Clone, Copy, PartialEq, Eq, Structural)]
pub enum Failure {
    /// A download worker ended (it failed or got an empty body); it is
    /// replaced by a new one.
    DownloadEnded,
    /// An upload request failed or was not answered with a success.
    UploadFailed,
}

/// Whether a failure adds one to the retry count: the count is of failed
/// download tasks handled, so an ended download worker counts and a failed
/// upload does not.
pub fn counts_as_retry(failure: Failure) -> (counts: bool)
    ensures
        counts == (failure == Failure::DownloadEnded),
{
    match failure {
        Failure::DownloadEnded => true,
        Failure::UploadFailed => false,
    }
}

/// An upload succeeded when the server answered with a `2xx` status;
/// `status` is `None` when the request failed without an answer.
pub fn upload_step(status: Option<u16>) -> (step: UploadStep)
    ensures
        step == (match status {
            Some(code) => if spec_is_success(code) {
                UploadStep::SendAgain
            } else {
                UploadStep::RetryAfterDelay
            },
            None => UploadStep::RetryAfterDelay,
        }),
{
    match status {
        Some(code) => if is_success_status(code) {
            UploadStep::SendAgain
        } else {
            UploadStep::RetryAfterDelay
        },
        None => UploadStep::RetryAfterDelay,
    }
}

} // verus!
