//! How the files of an import or an upload are gone through.

use vstd::prelude::*;

use crate::event::AppEvent;
use crate::importer::ImportOutcome;
use crate::run::{ImportRun, RunStep, UploadRun, UploadStep};
use crate::upload::{clearing, queueing};

verus! {

/// What became of a file is told where it failed, in the words of the failure, and only there.
pub proof fn only_failures_are_told(event: Option<AppEvent>, outcome: ImportOutcome)
    requires
        ImportRun::tells_failure(event, outcome),
    ensures
        event is Some <==> outcome is Failed,
        outcome matches ImportOutcome::Failed(e) ==> (event matches Some(AppEvent::Error(m)) && m@
            == e.text()),
{
}

/// The files of an import are dealt with in their order, each once; after the last one comes the
/// end, and before it none.
pub proof fn files_come_in_their_order(run: ImportRun, step: RunStep)
    requires
        run.goes_on(step),
    ensures
        step is Complete <==> run.progress().done() == run.files().len(),
        step matches RunStep::File { path, .. } ==> path@ == run.files()[run.progress().done() as int]@,
        step matches RunStep::Complete { event } ==> (event matches AppEvent::ImportComplete {
            summary,
        } && summary == run.progress().summary()),
{
}

/// An upload queues all its files, in their order and with the time at which it began, before the
/// first of them is sent. Then it sends them in their order, clears the queue once, and tells its
/// end last.
pub proof fn uploads_queue_send_and_clear(run: UploadRun, step: UploadStep)
    requires
        run.goes_on(step),
    ensures
        run.queued < run.run.files().len() ==> (step matches UploadStep::Queue(q) && q@ == queueing(
            run.run.files()[run.queued as int]@,
            run.started,
        )),
        step is Queue ==> run.queued < run.run.files().len(),
        step matches UploadStep::File { path, .. } ==> run.queued >= run.run.files().len()
            && !run.run.is_over() && path@
            == run.run.files()[run.run.progress().done() as int]@,
        step matches UploadStep::Clear(q) ==> run.run.is_over() && !run.cleared && q@ == clearing(),
        step matches UploadStep::Complete { event } ==> run.run.is_over() && run.cleared && (event
            matches AppEvent::ImportComplete { summary } && summary
            == run.run.progress().summary()),
        run.queued >= run.run.files().len() && run.run.is_over() ==> (step is Clear <==> !run.cleared)
            && (step is Complete <==> run.cleared),
{
}

} // verus!
