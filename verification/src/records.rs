//! Reading delimited text into records.

use vstd::prelude::*;

verus! {

/// `csv::Error`, which the CSV reader gives in place of a record that it
/// cannot hand out. Nothing is said of what it holds.
#[verifier::external_type_specification]
#[verifier::external_body]
pub struct ExCsvError(csv::Error);

/// The records that the CSV reader finds in `data`, read without a header
/// row and in their order: the fields of each, or `None` for a record that
/// the reader gives an error for.
pub uninterp spec fn csv_records(data: Seq<u8>) -> Seq<Option<Seq<Seq<char>>>>;

/// One record as the reader handed it out, as plain text.
pub open spec fn row_of<E>(read: Result<Vec<String>, E>) -> Option<Seq<Seq<char>>> {
    match read {
        Ok(fields) => Some(fields@.map_values(|f: String| f@)),
        Err(_) => None,
    }
}

/// All records as the reader handed them out, as plain text.
pub open spec fn rows_of<E>(read: Seq<Result<Vec<String>, E>>) -> Seq<Option<Seq<Seq<char>>>> {
    read.map_values(|r: Result<Vec<String>, E>| row_of(r))
}

/// Runs the CSV reader over `data`, with headers switched off and every
/// other setting left at its default, and hands back each item of its
/// `records()` iterator, the fields copied into strings. Trusted, not
/// verified: these are taken to be the records that [`csv_records`] names
/// for this text.
#[verifier::external_body]
pub(crate) fn read_records(data: &[u8]) -> (read: Vec<Result<Vec<String>, csv::Error>>)
    ensures
        rows_of(read@) == csv_records(data@),
{
    let mut reader = csv::ReaderBuilder::new().has_headers(false).from_reader(data);
    reader.records().map(|r| r.map(|record| record.iter().map(String::from).collect())).collect()
}

} // verus!
