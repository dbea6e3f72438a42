//! What an import reports.

use vstd::prelude::*;

verus! {

/// Why a source file was left out.
#[derive(Debug, Clone, Copy, PartialEq, Eq, Structural)]
pub enum SkipReason {
    /// The library already holds the content.
    Duplicate,
    /// The format is not supported.
    UnsupportedFormat,
}

/// What became of the files of an import.
#[derive(Debug, Clone, Copy, PartialEq, Eq, Structural)]
pub struct ImportSummary {
    /// Files taken into the library.
    pub imported: usize,
    /// Files left out because the library already holds their content.
    pub skipped_duplicates: usize,
    /// Files left out because their format is not supported.
    pub skipped_unsupported: usize,
    /// Files that failed.
    pub failed: usize,
}

impl Default for ImportSummary {
    fn default() -> (r: Self)
        ensures
            r.imported == 0,
            r.skipped_duplicates == 0,
            r.skipped_unsupported == 0,
            r.failed == 0,
    {
        ImportSummary { imported: 0, skipped_duplicates: 0, skipped_unsupported: 0, failed: 0 }
    }
}

impl ImportSummary {
    /// The number of files that the summary counts.
    pub open spec fn counted(self) -> int {
        self.imported + self.skipped_duplicates + self.skipped_unsupported + self.failed
    }
}

/// What became of one file.
#[derive(Debug, Clone, Copy, PartialEq, Eq, Structural)]
pub enum FileResult {
    Imported,
    Skipped(SkipReason),
    Failed,
}

/// A summary with one more file counted.
pub open spec fn counting(s: ImportSummary, r: FileResult) -> ImportSummary {
    match r {
        FileResult::Imported => ImportSummary { imported: (s.imported + 1) as usize, ..s },
        FileResult::Skipped(SkipReason::Duplicate) => ImportSummary {
            skipped_duplicates: (s.skipped_duplicates + 1) as usize,
            ..s
        },
        FileResult::Skipped(SkipReason::UnsupportedFormat) => ImportSummary {
            skipped_unsupported: (s.skipped_unsupported + 1) as usize,
            ..s
        },
        FileResult::Failed => ImportSummary { failed: (s.failed + 1) as usize, ..s },
    }
}

/// The progress of an import of `total` files: how many have been dealt with, and
/// what became of them.
#[derive(Debug, Clone, Copy)]
pub struct ImportProgress {
    total: usize,
    done: usize,
    summary: ImportSummary,
}

impl ImportProgress {
    /// The number of files of the import.
    pub closed spec fn total(self) -> usize {
        self.total
    }

    /// The number of files that have been dealt with.
    pub closed spec fn done(self) -> usize {
        self.done
    }

    /// What became of them.
    pub closed spec fn summary(self) -> ImportSummary {
        self.summary
    }

    /// Every file that has been dealt with is counted once.
    #[verifier::type_invariant]
    pub closed spec fn wf(self) -> bool {
        &&& self.done <= self.total
        &&& self.summary.counted() == self.done
    }

    /// An import of `total` files that has not begun.
    pub fn new(total: usize) -> (r: Self)
        ensures
            r.total() == total,
            r.done() == 0,
            r.summary().counted() == 0,
    {
        ImportProgress { total, done: 0, summary: ImportSummary::default() }
    }

    /// Whether every file has been dealt with.
    pub fn is_complete(&self) -> (r: bool)
        ensures
            r == (self.done() == self.total()),
    {
        self.done == self.total
    }

    /// The place of the file that comes next.
    pub fn next_index(&self) -> (r: usize)
        ensures
            r == self.done(),
            r <= self.total(),
    {
        proof {
            use_type_invariant(self);
        }
        self.done
    }

    /// What became of the files so far.
    pub fn to_summary(&self) -> (r: ImportSummary)
        ensures
            r == self.summary(),
            r.counted() == self.done(),
    {
        proof {
            use_type_invariant(self);
        }
        self.summary
    }

    /// The counts to show while the next file is being dealt with: its number,
    /// the number of files, and those imported, skipped and failed before it.
    pub fn counts(&self) -> (r: (usize, usize, usize, usize, usize))
        requires
            self.done() < self.total(),
        ensures
            r.0 == self.done() + 1,
            r.1 == self.total(),
            r.2 == self.summary().imported,
            r.3 == self.summary().skipped_duplicates + self.summary().skipped_unsupported,
            r.4 == self.summary().failed,
            r.2 + r.3 + r.4 == r.0 - 1,
    {
        proof {
            use_type_invariant(self);
        }
        (
            self.done + 1,
            self.total,
            self.summary.imported,
            self.summary.skipped_duplicates + self.summary.skipped_unsupported,
            self.summary.failed,
        )
    }

    /// Counts the next file.
    pub fn record(self, result: FileResult) -> (r: Self)
        requires
            self.done() < self.total(),
        ensures
            r.total() == self.total(),
            r.done() == self.done() + 1,
            r.summary() == counting(self.summary(), result),
    {
        proof {
            use_type_invariant(&self);
        }
        let s = self.summary;
        let summary = match result {
            FileResult::Imported => ImportSummary { imported: s.imported + 1, ..s },
            FileResult::Skipped(SkipReason::Duplicate) => ImportSummary {
                skipped_duplicates: s.skipped_duplicates + 1,
                ..s
            },
            FileResult::Skipped(SkipReason::UnsupportedFormat) => ImportSummary {
                skipped_unsupported: s.skipped_unsupported + 1,
                ..s
            },
            FileResult::Failed => ImportSummary { failed: s.failed + 1, ..s },
        };
        ImportProgress { total: self.total, done: self.done + 1, summary }
    }
}

} // verus!
