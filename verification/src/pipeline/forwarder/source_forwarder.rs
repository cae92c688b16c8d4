use vstd::prelude::*;

use crate::error::{result_model, Error, ErrorModel};

verus! {

/// The orchestrator that runs a streaming source and an ISB writer and
/// manages their lifecycle.
pub struct SourceForwarder<S, W> {
    source: S,
    writer: W,
}

impl<S, W> SourceForwarder<S, W> {
    /// The source this forwarder reads from.
    pub closed spec fn source(&self) -> S {
        self.source
    }

    /// The writer this forwarder writes to.
    pub closed spec fn writer(&self) -> W {
        self.writer
    }

    /// A forwarder from `source` to `writer`.
    pub fn new(source: S, writer: W) -> (f: Self)
        ensures
            f.source() == source,
            f.writer() == writer,
    {
        Self { source, writer }
    }

    /// The source and the writer, handed back to be started.
    pub fn into_parts(self) -> (parts: (S, W))
        ensures
            parts == (self.source(), self.writer()),
    {
        (self.source, self.writer)
    }
}

/// How a forwarding run ends: whether the shared cancellation token is to
/// be cancelled, and what the run returns.
#[derive(Debug)]
pub struct Settlement {
    pub cancel: bool,
    pub result: Result<(), Error>,
}

/// The message of the error returned when the reader and the writer tasks
/// could not be joined.
pub open spec fn join_failure_message(reason: Seq<char>) -> Seq<char> {
    "Error while joining reader and sink writer: "@ + reason
}

/// The settlement of a run whose tasks ended with `joined`: the reader's
/// and the writer's results, or the reason the tasks could not be joined.
pub open spec fn settlement_of(joined: Result<(Result<(), ErrorModel>, Result<(), ErrorModel>), Seq<char>>) -> (bool, Result<(), ErrorModel>) {
    match joined {
        Err(reason) => (false, Err(ErrorModel::Forwarder(join_failure_message(reason)))),
        Ok((reader, writer)) => match (writer, reader) {
            (Err(e), _) => (true, Err(e)),
            (Ok(()), Err(e)) => (true, Err(e)),
            (Ok(()), Ok(())) => (false, Ok(())),
        },
    }
}

/// The settlement of a run that failed with `e` before its reader and
/// writer tasks were both started: the error is returned and the pipeline
/// is not cancelled.
pub fn settle_startup_failure(e: Error) -> (s: Settlement)
    ensures
        !s.cancel,
        result_model(s.result) == Err::<(), ErrorModel>(e@),
{
    Settlement { cancel: false, result: Err(e) }
}

/// The pipeline is cancelled exactly when both tasks were joined and one
/// of them failed, and a run succeeds exactly when both tasks were joined
/// and both succeeded.
pub proof fn lemma_settlement_cancels_on_task_failure(
    joined: Result<(Result<(), ErrorModel>, Result<(), ErrorModel>), Seq<char>>,
)
    ensures
        settlement_of(joined).0 <==> (joined matches Ok((r, w)) && (r is Err || w is Err)),
        settlement_of(joined).1 is Ok <==> (joined matches Ok((r, w)) && r is Ok && w is Ok),
{
}

/// Once both tasks were joined, a failed writer's own error is the run's
/// result, else a failed reader's own error, and either cancels the
/// pipeline; when both succeeded the run succeeds without cancelling. A
/// failure to join is reported with its reason behind the fixed text and
/// cancels nothing.
pub proof fn lemma_settlement_returns_task_errors(
    reader: Result<(), ErrorModel>,
    writer: Result<(), ErrorModel>,
    reason: Seq<char>,
)
    ensures
        writer matches Err(e) ==> settlement_of(Ok((reader, writer))) == (true, Err::<(), ErrorModel>(e)),
        reader matches Err(e) ==> (writer is Ok ==> settlement_of(Ok((reader, writer))) == (true, Err::<(), ErrorModel>(e))),
        (writer is Ok && reader is Ok) ==> settlement_of(Ok((reader, writer))) == (false, Ok::<(), ErrorModel>(())),
        settlement_of(Err(reason)) == (false, Err::<(), ErrorModel>(ErrorModel::Forwarder("Error while joining reader and sink writer: "@ + reason))),
{
}

/// The joined outcome of a run, with its errors taken by their models.
pub open spec fn joined_model(joined: Result<(Result<(), Error>, Result<(), Error>), String>) -> Result<(Result<(), ErrorModel>, Result<(), ErrorModel>), Seq<char>> {
    match joined {
        Err(reason) => Err(reason@),
        Ok((reader, writer)) => Ok((result_model(reader), result_model(writer))),
    }
}

/// Decides how a run ends once the reader and the writer tasks have been
/// awaited together: a failure to join them becomes a forwarder error; else
/// the writer's error, then the reader's, is returned and cancels the
/// pipeline; else the run succeeds.
pub fn settle(joined: Result<(Result<(), Error>, Result<(), Error>), String>) -> (s: Settlement)
    ensures
        (s.cancel, result_model(s.result)) == settlement_of(joined_model(joined)),
{
    match joined {
        Err(reason) => {
            let mut message = String::from_str("Error while joining reader and sink writer: ");
            message.append(reason.as_str());
            Settlement { cancel: false, result: Err(Error::Forwarder(message)) }
        },
        Ok((reader_result, writer_result)) => {
            if let Err(e) = writer_result {
                return Settlement { cancel: true, result: Err(e) };
            }
            if let Err(e) = reader_result {
                return Settlement { cancel: true, result: Err(e) };
            }
            Settlement { cancel: false, result: Ok(()) }
        },
    }
}

} // verus!
