//! The failures that resolution reports.

use vstd::prelude::*;

verus! {

/// What is wrong with one record of an index file.
#[derive(Clone, Copy, Debug, PartialEq, Eq, Structural)]
pub enum RecordFault {
    /// The record could not be read as delimited text: it is not UTF-8, or
    /// its length differs from that of the first record.
    Unreadable,
    /// The record has fewer columns than the index requires.
    Columns,
    /// The first column is not a URL.
    Url,
}

/// Every way in which resolution fails.
#[derive(Clone, Copy, Debug, PartialEq, Eq, Structural)]
pub enum ResolveError {
    /// The manifest could not be addressed or fetched, is not JSON, or names
    /// no build.
    Manifest,
    /// An index file could not be addressed or fetched.
    IndexFetch,
    /// A record of an index file is malformed. `record` counts the records
    /// before the first malformed one.
    IndexParse { record: usize, fault: RecordFault },
    /// The binaries index has no entry for the resources index.
    MissingResourceIndex,
    /// An asset's address could not be formed, or its request failed.
    Fetch,
    /// The virtual URL's scheme is neither `app` nor `res`.
    UnsupportedScheme,
}

} // verus!
