//! The per-task reconciliation logic: classify what the network and the local
//! filesystem report, compare content by digest, and decide the conditional
//! write, producing one `Outcome` per task.
//!
//! The fallible outside steps (the fetch, the local open and read, the write)
//! are performed by the caller, which feeds each step's report back in as an
//! event; every decision between two such steps is made here.

use vstd::prelude::*;

use crate::digest::hash_eq;
use crate::digest::sha256_of;

verus! {

/// Why one task failed. The three kinds are mutually exclusive per task.
#[derive(Clone, Copy, Debug, PartialEq, Eq, Structural)]
pub enum ErrorKind {
    /// The request never completed at the transport level (DNS, connection,
    /// TLS, timeout).
    Transport,
    /// The request completed but with a status outside the 2xx success range;
    /// carries the numeric code for reporting.
    HttpStatus(u16),
    /// A local filesystem operation failed for a reason other than "file does
    /// not exist" (absence is not an error: it triggers the new-file path).
    LocalIo,
}

/// The classification of one reconciled task.
#[derive(Clone, Copy, Debug, PartialEq, Eq, Structural)]
pub enum Outcome {
    /// The destination did not previously exist; the remote content was written.
    Created,
    /// The destination existed with different content; it was overwritten.
    Updated,
    /// The destination already held content identical to the remote; no write.
    Unchanged,
    /// The task failed; no classification of the content was reached.
    Failed(ErrorKind),
}

/// What the network reported for one fetch.
#[derive(Debug, PartialEq, Eq)]
pub enum FetchEvent {
    /// The request could not be completed at the transport level.
    Transport,
    /// The request completed with this status code and response body.
    Response { status: u16, body: Vec<u8> },
}

/// What the local filesystem reported for one destination.
#[derive(Debug, PartialEq, Eq)]
pub enum LocalEvent {
    /// The destination existed; `content` is what it held.
    Existing { content: Vec<u8> },
    /// The destination was absent and has been created empty; `content` is
    /// what was read back from it (normally empty).
    New { content: Vec<u8> },
    /// Opening or reading the destination failed for a reason other than
    /// absence.
    Failed,
}

/// What the local filesystem reported for the conditional write.
#[derive(Clone, Copy, Debug, PartialEq, Eq, Structural)]
pub enum WriteEvent {
    /// The write completed in full.
    Done,
    /// The write failed.
    Failed,
}

/// What the caller must do after the comparison stage.
#[derive(Debug, PartialEq, Eq)]
pub enum Step {
    /// Overwrite the destination with `body`, then report through `on_write`.
    Write { body: Vec<u8>, is_new: bool },
    /// The task is finished with this outcome; no write is performed.
    Finish(Outcome),
}

/// A status code indicates success exactly when it lies in the conventional
/// 2xx range.
pub open spec fn is_success(status: u16) -> bool {
    200 <= status && status < 300
}

/// What classifying the fetch yields: a transport failure or a non-success
/// status is an error (the status error carries its code); a successful
/// response yields its body.
pub open spec fn fetch_spec(e: FetchEvent) -> Result<Seq<u8>, ErrorKind> {
    match e {
        FetchEvent::Transport => Err(ErrorKind::Transport),
        FetchEvent::Response { status, body } => {
            if is_success(status) {
                Ok(body@)
            } else {
                Err(ErrorKind::HttpStatus(status))
            }
        },
    }
}

/// The outcome of the comparison stage when the write (if one is needed)
/// succeeds: digest equality means the content already matches; otherwise the
/// write classifies as freshly created or as updated.
pub open spec fn compare_outcome(local: Seq<u8>, remote: Seq<u8>, is_new: bool) -> Outcome {
    if sha256_of(local) == sha256_of(remote) {
        Outcome::Unchanged
    } else if is_new {
        Outcome::Created
    } else {
        Outcome::Updated
    }
}

/// The step owed after the comparison stage, for local content `local`,
/// remote content `remote`, and freshness `is_new`: finish with `Unchanged`
/// when the digests match (even for a freshly created destination), else
/// write the remote bytes and classify by freshness.
pub open spec fn step_decided(r: Step, local: Seq<u8>, remote: Seq<u8>, is_new: bool) -> bool {
    if sha256_of(local) == sha256_of(remote) {
        r == Step::Finish(Outcome::Unchanged)
    } else {
        r matches Step::Write { body, is_new: n } && body@ == remote && n == is_new
    }
}

/// Classifies the fetch. A transport failure maps to `Transport`; a completed
/// response with a status outside the 2xx range maps to `HttpStatus` with
/// that code; a successful response yields its body unchanged.
pub fn on_fetch(e: FetchEvent) -> (r: Result<Vec<u8>, ErrorKind>)
    ensures
        r matches Ok(body) ==> fetch_spec(e) == Ok::<Seq<u8>, ErrorKind>(body@),
        r matches Err(kind) ==> fetch_spec(e) == Err::<Seq<u8>, ErrorKind>(kind),
{
    match e {
        FetchEvent::Transport => Err(ErrorKind::Transport),
        FetchEvent::Response { status, body } => {
            if 200 <= status && status < 300 {
                Ok(body)
            } else {
                Err(ErrorKind::HttpStatus(status))
            }
        },
    }
}

/// The comparison stage. A local failure finishes the task as `LocalIo`.
/// Otherwise the local content is compared to the remote body by digest:
/// identical content finishes as `Unchanged` (also on the new-file path, when
/// the remote body is itself empty); differing content asks the caller to
/// write the remote bytes, to be classified by whether the destination was
/// freshly created.
pub fn on_local(remote: Vec<u8>, e: LocalEvent) -> (r: Step)
    ensures
        e is Failed ==> r == Step::Finish(Outcome::Failed(ErrorKind::LocalIo)),
        e matches LocalEvent::Existing { content } ==> step_decided(r, content@, remote@, false),
        e matches LocalEvent::New { content } ==> step_decided(r, content@, remote@, true),
{
    match e {
        LocalEvent::Failed => Step::Finish(Outcome::Failed(ErrorKind::LocalIo)),
        LocalEvent::Existing { content } => {
            if hash_eq(content.as_slice(), remote.as_slice()) {
                Step::Finish(Outcome::Unchanged)
            } else {
                Step::Write { body: remote, is_new: false }
            }
        },
        LocalEvent::New { content } => {
            if hash_eq(content.as_slice(), remote.as_slice()) {
                Step::Finish(Outcome::Unchanged)
            } else {
                Step::Write { body: remote, is_new: true }
            }
        },
    }
}

/// The end of the write stage. A failed write is a local I/O failure; a
/// completed write is `Created` for a freshly created destination and
/// `Updated` otherwise.
pub fn on_write(is_new: bool, e: WriteEvent) -> (r: Outcome)
    ensures
        e is Failed ==> r == Outcome::Failed(ErrorKind::LocalIo),
        e is Done && is_new ==> r == Outcome::Created,
        e is Done && !is_new ==> r == Outcome::Updated,
{
    match e {
        WriteEvent::Failed => Outcome::Failed(ErrorKind::LocalIo),
        WriteEvent::Done => {
            if is_new {
                Outcome::Created
            } else {
                Outcome::Updated
            }
        },
    }
}

/// The outcome of one whole task, as a function of what the environment
/// reported: `fetch` is `None` on a transport failure, else the status code
/// and response body; `local` is `None` on a local I/O failure, else the
/// local content and whether the destination was freshly created; `write_ok`
/// says whether the conditional write, where one is needed, completed.
pub open spec fn task_outcome(
    fetch: Option<(u16, Seq<u8>)>,
    local: Option<(Seq<u8>, bool)>,
    write_ok: bool,
) -> Outcome {
    match fetch {
        None => Outcome::Failed(ErrorKind::Transport),
        Some((status, body)) => {
            if !is_success(status) {
                Outcome::Failed(ErrorKind::HttpStatus(status))
            } else {
                match local {
                    None => Outcome::Failed(ErrorKind::LocalIo),
                    Some((content, is_new)) => {
                        if sha256_of(content) == sha256_of(body) {
                            Outcome::Unchanged
                        } else if !write_ok {
                            Outcome::Failed(ErrorKind::LocalIo)
                        } else {
                            compare_outcome(content, body, is_new)
                        }
                    },
                }
            }
        },
    }
}

/// The content a non-failed run leaves at the destination: the prior content
/// where the digests already matched, the remote body where it was written.
pub open spec fn content_after(content: Seq<u8>, body: Seq<u8>) -> Seq<u8> {
    if sha256_of(content) == sha256_of(body) {
        content
    } else {
        body
    }
}

/// Idempotence: a first reconciliation whose fetch succeeds, whose local
/// lookup succeeds with `content` (fresh or not), and whose write completes
/// never fails — it reports `Created`, `Updated` or `Unchanged` — and leaves
/// the destination holding `content_after(content, body)`; a second
/// reconciliation of that destination against the unchanged remote resource
/// reports `Unchanged`.
pub proof fn lemma_second_run_unchanged(status: u16, body: Seq<u8>, content: Seq<u8>, is_new: bool)
    requires
        is_success(status),
    ensures
        !(task_outcome(Some((status, body)), Some((content, is_new)), true) is Failed),
        task_outcome(
            Some((status, body)),
            Some((content_after(content, body), false)),
            true,
        ) == Outcome::Unchanged,
{
}

} // verus!
