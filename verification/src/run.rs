//! A run over the files of an import or an upload: what comes next, and what is told.

use vstd::prelude::*;

use crate::event::AppEvent;
use crate::immich_importer::{counted_upload, settle_upload, UploadResult};
use crate::import::{counting, FileResult, ImportProgress};
use crate::importer::{
    announces, complete_event, counted_as, progress_event, settle, ImportOutcome,
};
use crate::sql::Statement;
use crate::upload::{clearing, queueing, UploadQueue};

verus! {

// ── Imports ──────────────────────────────────────────────────────────────────

/// An import of some files, the first of which have been dealt with.
#[derive(Debug)]
pub struct ImportRun {
    candidates: Vec<String>,
    progress: ImportProgress,
}

/// What is to be done next.
#[derive(Debug)]
pub enum RunStep {
    /// Tell the progress, then deal with the file at `path`.
    File { path: String, event: AppEvent },
    /// Tell that the run is over.
    Complete { event: AppEvent },
}

impl ImportRun {
    /// The files of the run.
    pub closed spec fn files(self) -> Seq<String> {
        self.candidates@
    }

    /// How far the run has come.
    pub closed spec fn progress(self) -> ImportProgress {
        self.progress
    }

    /// Whether every file has been dealt with.
    pub open spec fn is_over(self) -> bool {
        self.progress().done() == self.files().len()
    }

    /// The run counts its own files.
    #[verifier::type_invariant]
    closed spec fn wf(self) -> bool {
        self.progress.total() == self.candidates@.len()
    }

    /// Whether nothing has been done yet.
    pub open spec fn is_new(self) -> bool {
        &&& self.progress().done() == 0
        &&& self.progress().summary().counted() == 0
    }

    /// Begins a run.
    pub fn begin(candidates: Vec<String>) -> (r: Self)
        ensures
            r.files() == candidates@,
            r.progress().total() == candidates@.len(),
            r.is_new(),
    {
        let progress = ImportProgress::new(candidates.len());
        ImportRun { candidates, progress }
    }

    /// Whether `step` is what comes next: the file after those that have been dealt with, or,
    /// after all of them, the end with every file counted.
    pub open spec fn goes_on(self, step: RunStep) -> bool {
        if self.is_over() {
            step matches RunStep::Complete { event } && event == (AppEvent::ImportComplete {
                summary: self.progress().summary(),
            }) && self.progress().summary().counted() == self.files().len()
        } else {
            &&& self.progress().done() < self.files().len()
            &&& step matches RunStep::File { path, event }
            &&& path@ == self.files()[self.progress().done() as int]@
            &&& announces(event, self.progress())
        }
    }

    /// What is to be done next.
    pub fn step(&self) -> (r: RunStep)
        ensures
            self.goes_on(r),
    {
        proof {
            use_type_invariant(self);
        }
        let next = self.progress.next_index();
        if self.progress.is_complete() {
            RunStep::Complete { event: complete_event(&self.progress) }
        } else {
            RunStep::File {
                path: self.candidates[next].clone(),
                event: progress_event(&self.progress),
            }
        }
    }

    /// The number of files.
    pub fn len(&self) -> (r: usize)
        ensures
            r == self.files().len(),
    {
        self.candidates.len()
    }

    /// The file with a number, where there is one.
    pub fn file(&self, i: usize) -> (r: Option<&String>)
        ensures
            match r {
                Some(path) => i < self.files().len() && *path == self.files()[i as int],
                None => i >= self.files().len(),
            },
    {
        if i < self.candidates.len() {
            Some(&self.candidates[i])
        } else {
            None
        }
    }

    /// Whether `next` is the run with one more file counted.
    pub open spec fn counts(self, result: FileResult, next: ImportRun) -> bool {
        &&& next.files() == self.files()
        &&& next.progress().total() == self.progress().total()
        &&& next.progress().done() == self.progress().done() + 1
        &&& next.progress().summary() == counting(self.progress().summary(), result)
    }

    /// Whether `event` is what is told of a file: its failure, and nothing else.
    pub open spec fn tells_failure(event: Option<AppEvent>, outcome: ImportOutcome) -> bool {
        match outcome {
            ImportOutcome::Failed(e) => event matches Some(AppEvent::Error(m)) && m@ == e.text(),
            _ => event is None,
        }
    }

    /// Takes what became of the next file; a failure is told as an error.
    pub fn settle(self, outcome: &ImportOutcome) -> (r: (Self, Option<AppEvent>))
        requires
            self.progress().done() < self.files().len(),
        ensures
            self.counts(counted_as(*outcome), r.0),
            Self::tells_failure(r.1, *outcome),
            match *outcome {
                ImportOutcome::Failed(e) => r.1 matches Some(AppEvent::Error(m)) && m@ == e.text(),
                _ => r.1 is None,
            },
    {
        proof {
            use_type_invariant(&self);
        }
        let (progress, error) = settle(self.progress, outcome);
        (ImportRun { candidates: self.candidates, progress }, error)
    }

    /// Counts the next file.
    pub fn count(self, result: FileResult) -> (r: Self)
        requires
            self.progress().done() < self.files().len(),
        ensures
            self.counts(result, r),
    {
        proof {
            use_type_invariant(&self);
        }
        let progress = self.progress.record(result);
        ImportRun { candidates: self.candidates, progress }
    }
}

/// The states of a whole run, with what became of each file.
pub open spec fn is_run(runs: Seq<ImportRun>, results: Seq<FileResult>) -> bool {
    &&& runs.len() == results.len() + 1
    &&& runs.first().is_new()
    &&& forall|i: int|
        0 <= i < results.len() ==> !runs[i].is_over() && runs[i].counts(
            #[trigger] results[i],
            runs[i + 1],
        )
}

proof fn files_are_taken_in_turn(runs: Seq<ImportRun>, results: Seq<FileResult>, i: int)
    requires
        is_run(runs, results),
        0 <= i < runs.len(),
    ensures
        runs[i].files() == runs.first().files(),
        runs[i].progress().done() == i,
    decreases i,
{
    if i > 0 {
        files_are_taken_in_turn(runs, results, i - 1);
        assert(runs[i - 1].counts(results[i - 1], runs[i - 1 + 1]));
    }
}

/// A whole run tells its progress before every file, in turn, and its end once, after all of
/// them; the end counts every file.
pub proof fn runs_end_once(
    runs: Seq<ImportRun>,
    results: Seq<FileResult>,
    steps: Seq<RunStep>,
    i: int,
)
    requires
        is_run(runs, results),
        runs.last().is_over(),
        steps.len() == runs.len(),
        forall|k: int| 0 <= k < runs.len() ==> (#[trigger] runs[k]).goes_on(steps[k]),
        0 <= i < steps.len(),
    ensures
        steps.len() == runs.first().files().len() + 1,
        steps[i] is Complete <==> i == steps.len() - 1,
        steps[i] matches RunStep::File { path, event } ==> path@ == runs.first().files()[i]@ && (
        event matches AppEvent::ImportProgress { current, .. } && current == i + 1),
        steps.last() matches RunStep::Complete {
            event: AppEvent::ImportComplete { summary },
        } && summary.counted() == runs.first().files().len(),
{
    files_are_taken_in_turn(runs, results, i);
    files_are_taken_in_turn(runs, results, runs.len() - 1);
    assert(runs[i].goes_on(steps[i]));
    assert(runs[runs.len() - 1].goes_on(steps[runs.len() - 1]));
}

// ── Uploads ──────────────────────────────────────────────────────────────────

/// An upload of some files: all are queued first, then they are uploaded one by one, and last
/// the queue is cleared.
#[derive(Debug)]
pub struct UploadRun {
    pub run: ImportRun,
    /// When the files were queued, in seconds since 1970.
    pub started: i64,
    /// How many files have been queued.
    pub queued: usize,
    /// Whether the queue has been cleared.
    pub cleared: bool,
}

/// What is to be done next. That the queue cannot be written does not matter.
#[derive(Debug)]
pub enum UploadStep {
    /// Write a file into the queue.
    Queue(Statement),
    /// Tell the progress, then upload the file at `path`.
    File { path: String, event: AppEvent },
    /// Take the files that need nothing more out of the queue.
    Clear(Statement),
    /// Tell that the run is over.
    Complete { event: AppEvent },
}

impl UploadRun {
    /// Begins the upload of some files.
    pub fn begin(candidates: Vec<String>, started: i64) -> (r: Self)
        ensures
            r.run.files() == candidates@,
            r.run.is_new(),
            r.started == started,
            r.queued == 0,
            !r.cleared,
    {
        UploadRun { run: ImportRun::begin(candidates), started, queued: 0, cleared: false }
    }

    /// Whether `step` is what comes next.
    pub open spec fn goes_on(self, step: UploadStep) -> bool {
        if self.queued < self.run.files().len() {
            step matches UploadStep::Queue(q) && q@ == queueing(
                self.run.files()[self.queued as int]@,
                self.started,
            )
        } else if !self.run.is_over() {
            step matches UploadStep::File { path, event } && self.run.goes_on(
                RunStep::File { path, event },
            )
        } else if !self.cleared {
            step matches UploadStep::Clear(q) && q@ == clearing()
        } else {
            step matches UploadStep::Complete { event } && self.run.goes_on(
                RunStep::Complete { event },
            )
        }
    }

    /// What is to be done next.
    pub fn step(&self) -> (r: UploadStep)
        ensures
            self.goes_on(r),
    {
        if let Some(path) = self.run.file(self.queued) {
            return UploadStep::Queue(
                UploadQueue::insert_upload_pending(path.as_str(), self.started),
            );
        }
        match self.run.step() {
            RunStep::File { path, event } => UploadStep::File { path, event },
            RunStep::Complete { event } => if self.cleared {
                UploadStep::Complete { event }
            } else {
                UploadStep::Clear(UploadQueue::clear_completed_uploads())
            },
        }
    }

    /// Goes on after a file was written into the queue.
    pub fn after_queueing(self) -> (r: Self)
        requires
            self.queued < self.run.files().len(),
        ensures
            r == (UploadRun { queued: (self.queued + 1) as usize, ..self }),
    {
        let count: usize = self.run.len();
        assert(self.queued < count);
        UploadRun { queued: self.queued + 1, ..self }
    }

    /// Takes what became of the next file.
    pub fn settle(self, result: &UploadResult) -> (r: Self)
        requires
            self.run.progress().done() < self.run.files().len(),
        ensures
            self.run.counts(counted_upload(*result), r.run),
            r.started == self.started,
            r.queued == self.queued,
            r.cleared == self.cleared,
    {
        let (counted, _) = settle_upload(result);
        UploadRun {
            run: self.run.count(counted),
            started: self.started,
            queued: self.queued,
            cleared: self.cleared,
        }
    }

    /// Goes on after the queue was cleared.
    pub fn after_clearing(self) -> (r: Self)
        ensures
            r == (UploadRun { cleared: true, ..self }),
    {
        UploadRun { cleared: true, ..self }
    }
}

} // verus!
