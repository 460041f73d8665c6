//! Per-project aggregation: fold the outcomes of one project's files into a
//! report of how many files were scanned and which of them held parse errors.

use crate::model::{FileOutcome, SourceRange};
use vstd::prelude::*;

verus! {

/// One scanned file: its path and the outcome of scanning it.
pub struct ScannedFile {
    pub path: String,
    pub outcome: FileOutcome,
}

/// One errored file in a report: its path and the ranges of its error nodes.
pub struct ErroredFile {
    pub path: String,
    pub ranges: Vec<SourceRange>,
}

/// The report for one project: how many candidate files were scanned in all
/// (unreadable ones included), and the errored files with their ranges, in
/// outcome order.
pub struct ProjectReport {
    pub total: usize,
    pub errored: Vec<ErroredFile>,
}

/// The subsequence of errored entries of `s`, in order, each paired with its
/// ranges.
pub open spec fn errored_entries(s: Seq<ScannedFile>) -> Seq<ErroredFile>
    decreases s.len(),
{
    if s.len() == 0 {
        Seq::empty()
    } else {
        let rest = errored_entries(s.drop_last());
        match s.last().outcome {
            FileOutcome::Errored(v) => rest.push(
                (ErroredFile { path: s.last().path, ranges: v }),
            ),
            _ => rest,
        }
    }
}

/// A report is the pure fold of one project's outcomes: the total is the
/// number of outcomes (one per discovered candidate file, unreadable files
/// included), and the errored list is exactly the subsequence of `Errored`
/// outcomes, in order, with their ranges.
pub open spec fn is_report_of(s: Seq<ScannedFile>, r: ProjectReport) -> bool {
    &&& r.total == s.len()
    &&& r.errored@ == errored_entries(s)
}

proof fn lemma_errored_entries_take_step(s: Seq<ScannedFile>, i: int)
    requires
        0 <= i < s.len(),
    ensures
        errored_entries(s.take(i + 1)) == match s[i].outcome {
            FileOutcome::Errored(v) => errored_entries(s.take(i)).push(
                (ErroredFile { path: s[i].path, ranges: v }),
            ),
            _ => errored_entries(s.take(i)),
        },
{
    let t = s.take(i + 1);
    assert(t.drop_last() =~= s.take(i));
    assert(t.last() == s[i]);
}

/// Folds one project's outcomes into its report.
pub fn aggregate(outcomes: Vec<ScannedFile>) -> (r: ProjectReport)
    ensures
        is_report_of(outcomes@, r),
{
    let ghost orig: Seq<ScannedFile> = outcomes@;
    let total = outcomes.len();
    let mut work = outcomes;
    // Reverse into a stack so entries can be taken in original order by `pop`.
    let mut stack: Vec<ScannedFile> = Vec::new();
    while work.len() > 0
        invariant
            work@ == orig.take(work@.len() as int),
            stack@.len() + work@.len() == orig.len(),
            forall|k: int|
                0 <= k < stack@.len() ==> stack@[k] == orig[orig.len() - 1 - k],
        decreases work@.len(),
    {
        proof {
            assert(work@.drop_last() =~= orig.take(work@.len() - 1));
        }
        let f = work.pop().unwrap();
        stack.push(f);
    }
    let mut errored: Vec<ErroredFile> = Vec::new();
    let ghost mut done: int = 0;
    while stack.len() > 0
        invariant
            0 <= done <= orig.len(),
            stack@.len() + done == orig.len(),
            forall|k: int|
                0 <= k < stack@.len() ==> stack@[k] == orig[orig.len() - 1 - k],
            errored@ == errored_entries(orig.take(done)),
        decreases stack@.len(),
    {
        let f = stack.pop().unwrap();
        proof {
            assert(f == orig[done]);
            lemma_errored_entries_take_step(orig, done);
        }
        match f.outcome {
            FileOutcome::Errored(v) => {
                errored.push(ErroredFile { path: f.path, ranges: v });
            },
            FileOutcome::Clean => {},
            FileOutcome::Unreadable => {},
        }
        proof {
            done = done + 1;
        }
    }
    proof {
        assert(orig.take(done) =~= orig);
    }
    ProjectReport { total, errored }
}

/// Whether a report's per-file listing is shown: only when fewer than 10
/// files errored. Above that threshold the report keeps its summary counts
/// but omits the listing.
pub fn lists_errored_files(report: &ProjectReport) -> (r: bool)
    ensures
        r == (report.errored@.len() < 10),
{
    report.errored.len() < 10
}

} // verus!
