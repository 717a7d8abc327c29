//! What every generator has in common.

use vstd::prelude::*;
use crate::format::{EncodeError, Format};
use crate::record::{Record, RecordView};

verus! {

/// Why a generation produced no text.
#[derive(Clone, Debug, PartialEq, Eq)]
pub enum GenerateError {
    /// The encoder failed on the record.
    Encoding(EncodeError),
    /// The counter stands at the largest value it can hold.
    CounterExhausted,
}

/// Something that produces one encoded record per call.
pub trait Generator: Sized {
    /// Whether one generation can lead from `self` to `after` with result `r`.
    spec fn produces(&self, after: &Self, r: &Result<String, GenerateError>) -> bool;

    /// Produces the next record, encoded.
    fn gen(&mut self) -> (r: Result<String, GenerateError>)
        ensures
            old(self).produces(final(self), &r),
    ;
}

/// Calls `chrono::offset::Utc::now`, `format` with `"%+"` on the result, and
/// `to_string`. Trusted without a contract: the text is the clock's.
#[verifier::external_body]
pub(crate) fn get_current_time_iso8601() -> String {
    let time = chrono::offset::Utc::now();
    time.format("%+").to_string()
}

/// How the result of a generation relates to the encoder's outcome on the
/// record: the text where there is one, else the encoder's error.
pub open spec fn generated_as(
    format: Format,
    record: RecordView,
    r: Result<String, GenerateError>,
) -> bool {
    match r {
        Ok(text) => format.encoding(record) == Some(text@),
        Err(GenerateError::Encoding(EncodeError::Csv(_))) => format == Format::CSV
            && format.encoding(record) is None,
        Err(GenerateError::Encoding(EncodeError::Json(_))) => format == Format::JSON
            && format.encoding(record) is None,
        Err(GenerateError::CounterExhausted) => false,
    }
}

/// Encodes a record for a generator.
pub(crate) fn encode(format: Format, record: &Record) -> (r: Result<String, GenerateError>)
    ensures
        generated_as(format, record@, r),
{
    match format.serialize(record) {
        Ok(text) => Ok(text),
        Err(e) => Err(GenerateError::Encoding(e)),
    }
}

} // verus!
