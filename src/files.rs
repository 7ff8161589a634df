use vstd::prelude::*;

use crate::batch::{plan_downloads, tasks_of, worker_count, workers_for, DownloadTask};
use crate::error::ClientError;
use crate::routes::{file_listing, file_listing_of, opt_view, Route};
use crate::text::str_eq;

verus! {

/// A file operation, ready to run.
#[derive(Debug, PartialEq)]
pub enum FileOperation {
    /// List the files that `route` names.
    List { route: Route },
    /// Download each task, with at most `workers` at once.
    Download { tasks: Vec<DownloadTask>, workers: usize },
}

/// Whether `r` is the file operation that the arguments ask for: `list` routes
/// as `file_listing` does; `download` needs both lists, of equal length, and
/// pairs them by position; any other operation is `UnsupportedOperation`.
pub open spec fn file_operation_of(
    operation: Seq<char>,
    kind: Seq<char>,
    id: Seq<char>,
    secondary: Option<Seq<char>>,
    urls: Option<Vec<String>>,
    paths: Option<Vec<String>>,
    max_concurrency: Option<usize>,
    r: Result<FileOperation, ClientError>,
) -> bool {
    if operation == "list"@ {
        match r {
            Ok(FileOperation::List { route }) => file_listing_of(kind, id, secondary, Ok(route)),
            Ok(_) => false,
            Err(e) => file_listing_of(kind, id, secondary, Err(e)),
        }
    } else if operation == "download"@ {
        match (urls, paths) {
            (Some(u), Some(p)) => if u@.len() == p@.len() {
                r matches Ok(FileOperation::Download { tasks, workers }) && tasks_of(
                    u@,
                    p@,
                    tasks@,
                ) && workers == workers_for(max_concurrency)
            } else {
                r matches Err(ClientError::LengthMismatch { urls: a, paths: b }) && a == u@.len()
                    && b == p@.len()
            },
            _ => r matches Err(ClientError::MissingDownloadLists),
        }
    } else {
        r matches Err(ClientError::UnsupportedOperation { operation: o }) && o@ == operation
    }
}

/// Decides what a file operation does, before any of it runs.
pub fn file_operation(
    operation: &str,
    kind: &str,
    id: &str,
    secondary: Option<&str>,
    urls: Option<Vec<String>>,
    paths: Option<Vec<String>>,
    max_concurrency: Option<usize>,
) -> (r: Result<FileOperation, ClientError>)
    ensures
        file_operation_of(
            operation@,
            kind@,
            id@,
            opt_view(secondary),
            urls,
            paths,
            max_concurrency,
            r,
        ),
{
    if str_eq(operation, "list") {
        match file_listing(kind, id, secondary) {
            Ok(route) => Ok(FileOperation::List { route }),
            Err(e) => Err(e),
        }
    } else if str_eq(operation, "download") {
        match (urls, paths) {
            (Some(u), Some(p)) => match plan_downloads(u, p) {
                Ok(tasks) => Ok(FileOperation::Download { tasks, workers: worker_count(max_concurrency) }),
                Err(e) => Err(e),
            },
            _ => Err(ClientError::MissingDownloadLists),
        }
    } else {
        Err(ClientError::UnsupportedOperation { operation: String::from_str(operation) })
    }
}

} // verus!
