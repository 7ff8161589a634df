use vstd::prelude::*;

verus! {

/// Why a request could not be built, sent, checked or decoded, or why a call
/// was routed nowhere.
#[derive(Debug, PartialEq)]
pub enum ClientError {
    /// The base address, or the address composed from it, is not an absolute URL.
    MalformedUrl { url: String },
    /// The service answered with a status outside the success range.
    Http { status: u16, body: String },
    /// The service declared a content type that is not JSON.
    UnexpectedContentType { content_type: String },
    /// The body is not JSON of the expected shape; `field` names where it failed.
    Decode { field: String },
    /// An entity lookup named a kind other than chromosomes, studies or traits.
    UnsupportedEntityKind { kind: String },
    /// A scope kind without an id, an id without a kind, or an unknown kind.
    InvalidScope,
    /// A file listing scope other than a study, a trait, or a trait and a study.
    InvalidFileScope,
    /// The source and destination lists of a batch differ in length.
    LengthMismatch { urls: usize, paths: usize },
    /// A download was asked for without its sources or destinations.
    MissingDownloadLists,
    /// A file operation other than `list` or `download`.
    UnsupportedOperation { operation: String },
}

} // verus!
