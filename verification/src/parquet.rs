//! The boundary to the parquet2 format decoder. parquet2's statistics
//! record for a fixed-length-byte-array column carries its physical type
//! tag; the byte width inside that tag is read behind a trusted item, and a
//! verified function assembles the library's physical record from the tag
//! and the stored counts and bounds.

use crate::statistics::PhysicalFixedLenStatistics;
use vstd::prelude::*;

verus! {

/// parquet2's physical type tag of a column, declared so that it can stand
/// in this library's signatures; the library reads it only through the
/// trusted item below.
#[verifier::external_type_specification]
#[verifier::external_body]
pub struct ExPhysicalType(parquet2::schema::types::PhysicalType);

/// Relies on parquet2's `PhysicalType`: hands out the byte width held by
/// its `FixedLenByteArray` variant, and `None` for every other variant.
#[verifier::external_body]
fn fixed_len_byte_width(physical_type: &parquet2::schema::types::PhysicalType) -> (r: Option<
    usize,
>) {
    match physical_type {
        parquet2::schema::types::PhysicalType::FixedLenByteArray(size) => Some(*size),
        _ => None,
    }
}

/// Assembles the library's physical statistics record from the parts of a
/// parquet2 fixed-length statistics record: the column's physical type tag
/// and the stored counts and bounds, all copied verbatim. Absent exactly
/// when the tag is not a fixed-length byte array, whose width otherwise
/// becomes the record's byte width.
pub fn physical_from_parquet(
    physical_type: &parquet2::schema::types::PhysicalType,
    null_count: Option<i64>,
    distinct_count: Option<i64>,
    min_value: Option<Vec<u8>>,
    max_value: Option<Vec<u8>>,
) -> (r: Option<PhysicalFixedLenStatistics>)
    ensures
        r matches Some(p) ==> (p.null_count == null_count && p.distinct_count == distinct_count
            && p.min_value == min_value && p.max_value == max_value),
{
    match fixed_len_byte_width(physical_type) {
        Some(byte_width) => Some(
            PhysicalFixedLenStatistics {
                null_count,
                distinct_count,
                min_value,
                max_value,
                byte_width,
            },
        ),
        None => None,
    }
}

} // verus!
