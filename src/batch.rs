use vstd::prelude::*;

use crate::error::ClientError;
use crate::response::is_success;
use crate::text::{digits, render_digits};

verus! {

/// How many downloads run at once when the caller names no limit.
pub const DEFAULT_MAX_CONCURRENCY: usize = 4;

/// One unit of batch work: fetch `url` into the file at `path`.
#[derive(Debug, PartialEq)]
pub struct DownloadTask {
    pub url: String,
    pub path: String,
}

/// How one download ended.
#[derive(Debug, PartialEq)]
pub enum TaskOutcome {
    Succeeded,
    Failed { cause: String },
}

/// The tally of a batch: how many tasks there were, how many succeeded, and
/// one message per failed task, in task order.
#[derive(Debug, PartialEq)]
pub struct DownloadReport {
    pub total: usize,
    pub succeeded: usize,
    pub failures: Vec<String>,
}

/// The pairs of sources and destinations, by position.
pub open spec fn tasks_of(urls: Seq<String>, paths: Seq<String>, tasks: Seq<DownloadTask>) -> bool {
    &&& tasks.len() == urls.len()
    &&& forall|i: int|
        0 <= i < tasks.len() ==> (#[trigger] tasks[i]).url@ == urls[i]@ && tasks[i].path@
            == paths[i]@
}

/// Pairs each source with the destination at the same position. Fails with
/// `LengthMismatch` exactly when the two lists differ in length.
pub fn plan_downloads(urls: Vec<String>, paths: Vec<String>) -> (r: Result<
    Vec<DownloadTask>,
    ClientError,
>)
    ensures
        urls@.len() != paths@.len() ==> (r matches Err(
            ClientError::LengthMismatch { urls: u, paths: p },
        ) && u == urls@.len() && p == paths@.len()),
        urls@.len() == paths@.len() ==> (r matches Ok(tasks) && tasks_of(urls@, paths@, tasks@)),
{
    let n = urls.len();
    if n != paths.len() {
        return Err(ClientError::LengthMismatch { urls: n, paths: paths.len() });
    }
    let mut tasks: Vec<DownloadTask> = Vec::new();
    let mut i: usize = 0;
    while i < n
        invariant
            n == urls@.len(),
            n == paths@.len(),
            i <= n,
            tasks@.len() == i,
            forall|k: int|
                0 <= k < i ==> (#[trigger] tasks@[k]).url@ == urls@[k]@ && tasks@[k].path@
                    == paths@[k]@,
        decreases n - i,
    {
        tasks.push(DownloadTask { url: urls[i].clone(), path: paths[i].clone() });
        i = i + 1;
    }
    Ok(tasks)
}

/// The number of workers for a caller's limit: the limit when it is positive,
/// one for a limit of zero, and the default when none is given.
pub open spec fn workers_for(max_concurrency: Option<usize>) -> usize {
    match max_concurrency {
        Some(m) => if m == 0 {
            1
        } else {
            m
        },
        None => DEFAULT_MAX_CONCURRENCY,
    }
}

/// The number of workers for a caller's limit, never zero.
pub fn worker_count(max_concurrency: Option<usize>) -> (r: usize)
    ensures
        r == workers_for(max_concurrency),
        r >= 1,
{
    match max_concurrency {
        Some(m) => if m == 0 {
            1
        } else {
            m
        },
        None => DEFAULT_MAX_CONCURRENCY,
    }
}

/// The cause of a failed transfer for an HTTP status outside the success
/// range: `HTTP` and the status.
pub open spec fn status_cause(status: u16) -> Seq<char> {
    "HTTP "@ + digits(status as nat)
}

/// Checks the status of a download's response: no failure in the success
/// range, else the cause naming the status.
pub fn download_status_failure(status: u16) -> (r: Option<String>)
    ensures
        is_success(status) <==> r is None,
        r matches Some(c) ==> c@ == status_cause(status),
{
    if status >= 200 && status < 300 {
        None
    } else {
        let mut c = String::from_str("HTTP ");
        let d = render_digits(status as u64);
        c.append(d.as_str());
        Some(c)
    }
}

/// The message for a failed task.
pub open spec fn failure_message(url: Seq<char>, cause: Seq<char>) -> Seq<char> {
    "Failed to download "@ + url + ": "@ + cause
}

/// How many of `outcomes` succeeded.
pub open spec fn succeeded_count(outcomes: Seq<TaskOutcome>) -> nat
    decreases outcomes.len(),
{
    if outcomes.len() == 0 {
        0
    } else {
        succeeded_count(outcomes.drop_last()) + if outcomes.last() is Succeeded {
            1nat
        } else {
            0nat
        }
    }
}

/// The messages of the failed tasks, in task order.
pub open spec fn failure_messages(tasks: Seq<DownloadTask>, outcomes: Seq<TaskOutcome>) -> Seq<
    Seq<char>,
>
    decreases outcomes.len(),
{
    if outcomes.len() == 0 || tasks.len() < outcomes.len() {
        Seq::empty()
    } else {
        let n = outcomes.len() - 1;
        let rest = failure_messages(tasks.subrange(0, n), outcomes.drop_last());
        match outcomes.last() {
            TaskOutcome::Succeeded => rest,
            TaskOutcome::Failed { cause } => rest.push(failure_message(tasks[n].url@, cause@)),
        }
    }
}

/// Tallies the outcomes of a batch, one outcome per task in task order.
pub fn tally(tasks: &Vec<DownloadTask>, outcomes: &Vec<TaskOutcome>) -> (r: DownloadReport)
    requires
        outcomes@.len() == tasks@.len(),
    ensures
        r.total == tasks@.len(),
        r.succeeded == succeeded_count(outcomes@),
        r.failures.deep_view() == failure_messages(tasks@, outcomes@),
        r.succeeded + r.failures@.len() == r.total,
{
    let n = tasks.len();
    let mut succeeded: usize = 0;
    let mut failures: Vec<String> = Vec::new();
    let mut i: usize = 0;
    while i < n
        invariant
            n == tasks@.len(),
            n == outcomes@.len(),
            i <= n,
            succeeded == succeeded_count(outcomes@.subrange(0, i as int)),
            succeeded <= i,
            failures.deep_view() == failure_messages(
                tasks@.subrange(0, i as int),
                outcomes@.subrange(0, i as int),
            ),
        decreases n - i,
    {
        let ghost before = failures.deep_view();
        assert(outcomes@.subrange(0, i + 1).drop_last() =~= outcomes@.subrange(0, i as int));
        assert(tasks@.subrange(0, i + 1).subrange(0, i as int) =~= tasks@.subrange(0, i as int));
        match &outcomes[i] {
            TaskOutcome::Succeeded => {
                succeeded = succeeded + 1;
            },
            TaskOutcome::Failed { cause } => {
                let mut m = String::from_str("Failed to download ");
                m.append(tasks[i].url.as_str());
                m.append(": ");
                m.append(cause.as_str());
                failures.push(m);
                assert(failures.deep_view() =~= before.push(
                    failure_message(tasks@[i as int].url@, cause@),
                ));
            },
        }
        i = i + 1;
    }
    assert(outcomes@.subrange(0, n as int) =~= outcomes@);
    assert(tasks@.subrange(0, n as int) =~= tasks@);
    proof {
        lemma_tally_counts_every_task(tasks@, outcomes@);
    }
    DownloadReport { total: n, succeeded, failures }
}

/// Every task is counted once: as a success or by one failure message.
pub proof fn lemma_tally_counts_every_task(tasks: Seq<DownloadTask>, outcomes: Seq<TaskOutcome>)
    requires
        outcomes.len() == tasks.len(),
    ensures
        succeeded_count(outcomes) + failure_messages(tasks, outcomes).len() == tasks.len(),
    decreases outcomes.len(),
{
    if outcomes.len() > 0 {
        let n = outcomes.len() - 1;
        lemma_tally_counts_every_task(tasks.subrange(0, n), outcomes.drop_last());
    }
}

/// The lines of `lines` joined by newlines.
pub open spec fn joined_lines(lines: Seq<Seq<char>>) -> Seq<char>
    decreases lines.len(),
{
    if lines.len() == 0 {
        Seq::empty()
    } else if lines.len() == 1 {
        lines[0]
    } else {
        joined_lines(lines.drop_last()) + "\n"@ + lines.last()
    }
}

/// The human-readable summary of a report.
pub open spec fn report_text(total: nat, succeeded: nat, failures: Seq<Seq<char>>) -> Seq<char> {
    "Downloaded "@ + digits(succeeded) + " of "@ + digits(total) + " files successfully.\n"@
        + joined_lines(failures)
}

impl DownloadReport {
    /// The number of failed tasks.
    pub fn failed(&self) -> (r: usize)
        ensures
            r == self.failures@.len(),
    {
        self.failures.len()
    }

    /// A summary: how many of how many files were downloaded, then one line
    /// per failure.
    pub fn summary(&self) -> (r: String)
        ensures
            r@ == report_text(self.total as nat, self.succeeded as nat, self.failures.deep_view()),
    {
        let mut s = String::from_str("Downloaded ");
        let a = render_digits(self.succeeded as u64);
        s.append(a.as_str());
        s.append(" of ");
        let b = render_digits(self.total as u64);
        s.append(b.as_str());
        s.append(" files successfully.\n");
        let ghost head = s@;
        let mut body = String::new();
        let n = self.failures.len();
        let mut i: usize = 0;
        while i < n
            invariant
                n == self.failures@.len(),
                i <= n,
                body@ == joined_lines(self.failures.deep_view().subrange(0, i as int)),
            decreases n - i,
        {
            let ghost lines = self.failures.deep_view();
            assert(lines.subrange(0, i + 1).drop_last() =~= lines.subrange(0, i as int));
            if i > 0 {
                body.append("\n");
            }
            body.append(self.failures[i].as_str());
            i = i + 1;
        }
        assert(self.failures.deep_view().subrange(0, n as int) =~= self.failures.deep_view());
        s.append(body.as_str());
        s
    }
}

} // verus!
