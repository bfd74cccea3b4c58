//! The channel bridge and the other capabilities the session borrows from
//! outside the crate: the two one-directional queues between host and worker,
//! endpoint parsing, and the worker's single-threaded runtime.
//!
//! Everything here that carries a contract without a proof is a thin shim
//! over one outside function; the doc comment of each names it.

use vstd::prelude::*;

verus! {

/// Declares `std::sync::mpsc::Sender`, the producer end of a queue.
#[verifier::external_type_specification]
#[verifier::external_body]
#[verifier::reject_recursive_types(T)]
pub struct ExSender<T>(std::sync::mpsc::Sender<T>);

/// Declares `std::sync::mpsc::Receiver`, the consumer end of a queue.
#[verifier::external_type_specification]
#[verifier::external_body]
#[verifier::reject_recursive_types(T)]
pub struct ExReceiver<T>(std::sync::mpsc::Receiver<T>);

/// Declares `url::Url`, a parsed endpoint carried through to the transport.
#[verifier::external_type_specification]
#[verifier::external_body]
pub struct ExUrl(url::Url);

/// Declares `url::ParseError`, the reason an endpoint was rejected.
#[verifier::external_type_specification]
#[verifier::external_body]
pub struct ExUrlParseError(url::ParseError);

/// Declares `tokio::runtime::Runtime`, the worker's private scheduler.
#[verifier::external_type_specification]
#[verifier::external_body]
pub struct ExRuntime(tokio::runtime::Runtime);

/// Declares `std::io::Error`, the reason a runtime could not be built.
#[verifier::external_type_specification]
#[verifier::external_body]
pub struct ExIoError(std::io::Error);

/// What one non-blocking look at the consumer end of a queue yielded.
pub enum RecvPoll<T> {
    /// A queued value, removed from the queue.
    Item(T),
    /// Nothing queued right now; the producer end still exists.
    Empty,
    /// The producer end is gone and the queue is drained.
    Disconnected,
}

/// Relies on `std::sync::mpsc::channel`: builds one queue and returns its two
/// ends. Which values later cross it depends on both threads, so nothing more
/// is stated here.
#[verifier::external_body]
pub(crate) fn queue_pair<T>() -> (std::sync::mpsc::Sender<T>, std::sync::mpsc::Receiver<T>) {
    std::sync::mpsc::channel()
}

/// Relies on `std::sync::mpsc::Sender::send`: the value is queued, or handed
/// back untouched when the consumer end no longer exists. Which of the two
/// happens depends on the other thread.
#[verifier::external_body]
pub(crate) fn queue_send<T>(tx: &std::sync::mpsc::Sender<T>, value: T) -> (r: Result<(), T>)
    ensures
        r matches Err(v) ==> v == value,
{
    tx.send(value).map_err(|e| e.0)
}

/// Relies on `std::sync::mpsc::Receiver::try_recv`: returns one queued value
/// without blocking, or reports the queue empty or its producer gone. What
/// comes back depends on the other thread, so nothing more is stated here.
#[verifier::external_body]
pub(crate) fn queue_try_recv<T>(rx: &std::sync::mpsc::Receiver<T>) -> RecvPoll<T> {
    match rx.try_recv() {
        Ok(v) => RecvPoll::Item(v),
        Err(std::sync::mpsc::TryRecvError::Empty) => RecvPoll::Empty,
        Err(std::sync::mpsc::TryRecvError::Disconnected) => RecvPoll::Disconnected,
    }
}

/// Whether `url::Url::parse` accepts this text as an absolute URL. The
/// outcome depends on the characters alone.
pub uninterp spec fn parses_as_url(s: Seq<char>) -> bool;

/// Relies on `url::Url::parse`: deterministic over the input text, so success
/// is exactly `parses_as_url`.
#[verifier::external_body]
pub(crate) fn parse_endpoint(s: &str) -> (r: Result<url::Url, url::ParseError>)
    ensures
        r is Ok == parses_as_url(s@),
{
    url::Url::parse(s)
}

/// Relies on `tokio::runtime::Builder::build` on a `new_current_thread`
/// builder with all drivers enabled. Whether the runtime can be built depends
/// on the process's resources, so only the shape of the outcome is stated.
#[verifier::external_body]
pub(crate) fn build_worker_runtime() -> Result<tokio::runtime::Runtime, std::io::Error> {
    tokio::runtime::Builder::new_current_thread().enable_all().build()
}

} // verus!
