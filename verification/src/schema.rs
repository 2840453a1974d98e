//! Schema inference: the ordered column list of a dataset is derived from the
//! first line of the decompressed file, split on the tab character, the field
//! names taken verbatim. A file without a first line yields an error rather
//! than an empty column list, so a table is never declared with no columns.

use vstd::prelude::*;
use crate::text::split_on;
use crate::text::split_str;

verus! {

/// Why a column list could not be derived.
#[derive(Debug, PartialEq, Eq, Structural)]
pub enum SchemaError {
    /// The file had no first line to read a header from.
    MissingHeader,
}

/// Derives the ordered column list from the header line of a tabular file,
/// `None` standing for a file with no first line. The fields are taken
/// verbatim: no normalization, no uniqueness check, no trimming.
pub fn infer_columns(header_line: Option<&str>) -> (r: Result<Vec<String>, SchemaError>)
    ensures
        match header_line {
            Option::None => r == Result::<Vec<String>, SchemaError>::Err(
                SchemaError::MissingHeader,
            ),
            Option::Some(l) => (r matches Ok(cols) && cols@.map_values(|c: String| c@)
                == split_on(l@, '\t') && cols@.len() >= 1),
        },
{
    match header_line {
        Option::None => Result::Err(SchemaError::MissingHeader),
        Option::Some(l) => Result::Ok(split_str(l, '\t')),
    }
}

} // verus!
