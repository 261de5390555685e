//! Reconstruction of typed column-chunk statistics from their physical
//! fixed-length-byte-array representation.
//!
//! The single entry point is [`statistics_from_fix_len`]: given the raw
//! physical record and the column's resolved logical type it returns a
//! fixed-size-binary record with the bytes kept verbatim, a 128-bit decimal
//! record with the bytes reinterpreted, or a typed failure.

use crate::bytes_be::{
    be_i128, i128_from_be_bytes, i128_to_be16, lemma_be_i128_in_range,
    lemma_decimal_bound_roundtrip, zero_pad16,
};
use crate::datatypes::{dt_name, DataType};
use crate::error::ArrowError;
use crate::text::{dec_str, usize_to_dec_string};
use vstd::prelude::*;
use vstd::string::StringExecFns;

verus! {

/// The raw statistics of one fixed-length-byte-array column chunk, exactly
/// as the format decoder stores them: optional counts, optional min and max
/// bounds as byte strings, and the column's physical byte width.
#[derive(Debug, Clone, PartialEq)]
pub struct PhysicalFixedLenStatistics {
    /// Number of null values, absent if the file omitted it.
    pub null_count: Option<i64>,
    /// Number of distinct values, absent if the file omitted it.
    pub distinct_count: Option<i64>,
    /// Minimum value, as stored bytes.
    pub min_value: Option<Vec<u8>>,
    /// Maximum value, as stored bytes.
    pub max_value: Option<Vec<u8>>,
    /// The fixed byte width of the column's values.
    pub byte_width: usize,
}

impl PhysicalFixedLenStatistics {
    /// What a valid file guarantees of the record: a positive width, and
    /// bounds whose length is exactly that width. The reconstruction does
    /// not require this; a bound of the wrong length is dropped defensively.
    pub open spec fn wf(&self) -> bool {
        &&& self.byte_width >= 1
        &&& (self.min_value matches Some(v) ==> v@.len() == self.byte_width)
        &&& (self.max_value matches Some(v) ==> v@.len() == self.byte_width)
    }
}

/// Statistics of a column chunk whose bytes are kept verbatim as
/// fixed-size-binary values; constructing it never fails and never changes
/// a byte.
#[derive(Debug, Clone, PartialEq)]
pub struct FixedLenStatistics {
    /// Number of null values, absent if the file omitted it.
    pub null_count: Option<i64>,
    /// Number of distinct values, absent if the file omitted it.
    pub distinct_count: Option<i64>,
    /// Minimum value, byte-identical to the stored bound.
    pub min_value: Option<Vec<u8>>,
    /// Maximum value, byte-identical to the stored bound.
    pub max_value: Option<Vec<u8>>,
    /// The logical type, always `FixedSizeBinary` of the physical width.
    pub data_type: DataType,
}

/// Statistics of a column chunk reinterpreted as fixed-precision decimals:
/// each stored bound is zero-padded to 16 bytes and read as a big-endian
/// 128-bit signed integer.
#[derive(Debug, Clone, Copy, PartialEq)]
pub struct PrimitiveStatistics {
    /// Number of null values, absent if the file omitted it.
    pub null_count: Option<i64>,
    /// Number of distinct values, absent if the file omitted it.
    pub distinct_count: Option<i64>,
    /// Minimum value, absent if the stored bound was absent or malformed.
    pub min_value: Option<i128>,
    /// Maximum value, absent if the stored bound was absent or malformed.
    pub max_value: Option<i128>,
    /// The caller-resolved logical type, a `Decimal` with its precision and
    /// scale.
    pub data_type: DataType,
}

/// The decimal decoding of one optional stored bound of declared width `w`:
/// an absent bound stays absent; a present bound whose length is not `w` is
/// treated as absent (defensive, not a hard failure); a present bound of
/// length `w` is zero-padded on the left to 16 bytes and read as a
/// big-endian two's-complement 128-bit integer.
///
/// The pad is always zero bytes, never a copy of the sign bit, so only a
/// full 16-byte bound can decode to a negative value; a stored negative
/// value narrower than 16 bytes is a documented limitation of this
/// convention.
pub open spec fn spec_decode_bound(v: Option<Seq<u8>>, w: nat) -> Option<i128>
    recommends
        w <= 16,
{
    match v {
        None => None,
        Some(b) => if b.len() == w {
            Some(be_i128(zero_pad16(b)) as i128)
        } else {
            None
        },
    }
}

/// What the fixed-size-binary construction guarantees: counts and bounds
/// copied verbatim, the logical type derived from the physical byte width.
pub open spec fn spec_fixed_from(stats: PhysicalFixedLenStatistics, r: FixedLenStatistics) -> bool {
    &&& r.null_count == stats.null_count
    &&& r.distinct_count == stats.distinct_count
    &&& r.min_value.deep_view() == stats.min_value.deep_view()
    &&& r.max_value.deep_view() == stats.max_value.deep_view()
    &&& r.data_type == DataType::FixedSizeBinary(stats.byte_width)
}

/// What the decimal reinterpretation guarantees when the byte width is at
/// most 16: counts copied verbatim, both bounds decoded by
/// [`spec_decode_bound`], the record tagged with the caller's logical type.
pub open spec fn spec_decimal_from(
    stats: PhysicalFixedLenStatistics,
    data_type: DataType,
    r: PrimitiveStatistics,
) -> bool {
    &&& r.data_type == data_type
    &&& r.null_count == stats.null_count
    &&& r.distinct_count == stats.distinct_count
    &&& r.min_value == spec_decode_bound(stats.min_value.deep_view(), stats.byte_width as nat)
    &&& r.max_value == spec_decode_bound(stats.max_value.deep_view(), stats.byte_width as nat)
}

/// Logical types that have no reconstruction from the
/// fixed-length-byte-array physical type.
pub open spec fn spec_unsupported(dt: DataType) -> bool {
    &&& !(dt matches DataType::Decimal(_, _))
    &&& !(dt matches DataType::FixedSizeBinary(_))
}

/// The message of the failure raised when the byte width exceeds what a
/// 128-bit decimal can hold.
pub open spec fn overflow_msg(w: nat) -> Seq<char> {
    "Can't deserialize i128 from Fixed Len Byte array with length "@ + dec_str(w)
}

/// The message of the failure raised for a logical type with no
/// reconstruction from fixed-length bytes; it names the rejected type.
pub open spec fn not_impl_msg(dt: DataType) -> Seq<char> {
    "Can't read "@ + dt_name(dt) + " from parquet"@
}

/// Builds the representation-overflow error for a byte width above 16.
fn overflow_error(w: usize) -> (r: ArrowError)
    ensures
        r matches ArrowError::ExternalFormat(m) && m@ == overflow_msg(w as nat),
{
    let mut m = "Can't deserialize i128 from Fixed Len Byte array with length ".to_owned();
    let digits = usize_to_dec_string(w);
    m.append(digits.as_str());
    ArrowError::ExternalFormat(m)
}

/// Builds the unsupported-mapping error, naming the rejected logical type.
fn not_implemented_error(data_type: &DataType) -> (r: ArrowError)
    ensures
        r matches ArrowError::NotYetImplemented(m) && m@ == not_impl_msg(*data_type),
{
    let mut m = "Can't read ".to_owned();
    let name = data_type.name();
    m.append(name.as_str());
    m.append(" from parquet");
    proof {
        assert(m@ =~= not_impl_msg(*data_type));
    }
    ArrowError::NotYetImplemented(m)
}

/// Copies a byte string.
fn clone_bytes(v: &Vec<u8>) -> (r: Vec<u8>)
    ensures
        r@ == v@,
{
    let mut r: Vec<u8> = Vec::new();
    let mut i: usize = 0;
    while i < v.len()
        invariant
            i <= v@.len(),
            r@ == v@.take(i as int),
        decreases v@.len() - i,
    {
        r.push(v[i]);
        proof {
            assert(v@.take(i + 1) =~= v@.take(i as int).push(v@[i as int]));
        }
        i += 1;
    }
    proof {
        assert(v@.take(v@.len() as int) =~= v@);
    }
    r
}

/// Copies an optional stored bound verbatim.
fn clone_bound(v: &Option<Vec<u8>>) -> (r: Option<Vec<u8>>)
    ensures
        r.deep_view() == v.deep_view(),
{
    match v {
        None => None,
        Some(b) => Some(clone_bytes(b)),
    }
}

/// Extends a byte string on the left with zero bytes to a length of 16.
fn zero_pad_to_16(v: &Vec<u8>) -> (r: Vec<u8>)
    requires
        v@.len() <= 16,
    ensures
        r@ == zero_pad16(v@),
        r@.len() == 16,
{
    let pad: usize = 16 - v.len();
    let mut r: Vec<u8> = Vec::new();
    let mut i: usize = 0;
    while i < pad
        invariant
            i <= pad,
            r@.len() == i,
            forall|j: int| 0 <= j < i ==> r@[j] == 0u8,
        decreases pad - i,
    {
        r.push(0u8);
        i += 1;
    }
    i = 0;
    while i < v.len()
        invariant
            i <= v@.len(),
            pad == 16 - v@.len(),
            r@.len() == pad + i,
            forall|j: int| 0 <= j < pad ==> r@[j] == 0u8,
            forall|j: int| 0 <= j < i ==> r@[pad + j] == v@[j],
        decreases v@.len() - i,
    {
        r.push(v[i]);
        i += 1;
    }
    proof {
        assert(r@ =~= zero_pad16(v@));
    }
    r
}

/// Decodes one optional stored bound as a 128-bit decimal value, by the
/// zero-padding convention of [`spec_decode_bound`].
fn decode_bound(value: &Option<Vec<u8>>, byte_width: usize) -> (r: Option<i128>)
    requires
        byte_width <= 16,
    ensures
        r == spec_decode_bound(value.deep_view(), byte_width as nat),
{
    match value {
        None => None,
        Some(v) => {
            proof {
                assert(v.deep_view() =~= v@);
            }
            if v.len() == byte_width {
                let padded = zero_pad_to_16(v);
                Some(i128_from_be_bytes(&padded))
            } else {
                None
            }
        },
    }
}

impl FixedLenStatistics {
    /// Relabels a physical record as fixed-size-binary statistics. This
    /// never fails: counts and bounds are copied bit-identically, with no
    /// truncation and no byte-order change, and the logical type is derived
    /// as `FixedSizeBinary` of the physical byte width.
    pub fn from(stats: &PhysicalFixedLenStatistics) -> (r: Self)
        ensures
            spec_fixed_from(*stats, r),
    {
        FixedLenStatistics {
            null_count: stats.null_count,
            distinct_count: stats.distinct_count,
            min_value: clone_bound(&stats.min_value),
            max_value: clone_bound(&stats.max_value),
            data_type: DataType::FixedSizeBinary(stats.byte_width),
        }
    }

    /// Returns the logical type the statistics describe, always
    /// `FixedSizeBinary` of the physical byte width.
    pub fn data_type(&self) -> (r: &DataType)
        ensures
            *r == self.data_type,
    {
        &self.data_type
    }

    /// Returns the stored null count, absent if the format omitted it.
    pub fn null_count(&self) -> (r: Option<i64>)
        ensures
            r == self.null_count,
    {
        self.null_count
    }
}

impl PrimitiveStatistics {
    /// Reinterprets a physical record as 128-bit decimal statistics, tagged
    /// with the caller-resolved decimal logical type.
    ///
    /// A byte width above 16 cannot be represented and fails with a
    /// representation-overflow error naming the width; otherwise each
    /// present bound is zero-padded to 16 bytes and read as a big-endian
    /// signed integer, exactly and without truncation.
    pub fn try_from(stats: &PhysicalFixedLenStatistics, data_type: DataType) -> (r: Result<
        Self,
        ArrowError,
    >)
        ensures
            stats.byte_width > 16 ==> (r matches Err(e) && e matches ArrowError::ExternalFormat(m)
                && m@ == overflow_msg(stats.byte_width as nat)),
            stats.byte_width <= 16 ==> (r matches Ok(p) && spec_decimal_from(
                *stats,
                data_type,
                p,
            )),
    {
        let byte_width: usize = stats.byte_width;
        if byte_width > 16 {
            Err(overflow_error(byte_width))
        } else {
            let max_value = decode_bound(&stats.max_value, byte_width);
            let min_value = decode_bound(&stats.min_value, byte_width);
            Ok(
                PrimitiveStatistics {
                    null_count: stats.null_count,
                    distinct_count: stats.distinct_count,
                    min_value,
                    max_value,
                    data_type,
                },
            )
        }
    }

    /// Returns the logical type the statistics describe, the decimal type
    /// the caller resolved.
    pub fn data_type(&self) -> (r: &DataType)
        ensures
            *r == self.data_type,
    {
        &self.data_type
    }

    /// Returns the stored null count, absent if the format omitted it.
    pub fn null_count(&self) -> (r: Option<i64>)
        ensures
            r == self.null_count,
    {
        self.null_count
    }
}

/// A reconstructed, logically typed statistics record. The variant set is
/// closed; a caller inspects a record as its concrete variant by matching
/// the tag or through the checked accessors, never by an unchecked cast.
#[derive(Debug, Clone, PartialEq)]
pub enum Statistics {
    /// Bounds kept verbatim as fixed-size binary values.
    FixedLen(FixedLenStatistics),
    /// Bounds reinterpreted as 128-bit decimals.
    Primitive(PrimitiveStatistics),
}

impl Statistics {
    /// The logical type the record describes.
    pub open spec fn spec_data_type(&self) -> DataType {
        match self {
            Statistics::FixedLen(f) => f.data_type,
            Statistics::Primitive(p) => p.data_type,
        }
    }

    /// The stored null count of the record.
    pub open spec fn spec_null_count(&self) -> Option<i64> {
        match self {
            Statistics::FixedLen(f) => f.null_count,
            Statistics::Primitive(p) => p.null_count,
        }
    }

    /// Returns the logical type the statistics describe.
    pub fn data_type(&self) -> (r: &DataType)
        ensures
            *r == self.spec_data_type(),
    {
        match self {
            Statistics::FixedLen(f) => &f.data_type,
            Statistics::Primitive(p) => &p.data_type,
        }
    }

    /// Returns the stored null count, absent if the format omitted it.
    pub fn null_count(&self) -> (r: Option<i64>)
        ensures
            r == self.spec_null_count(),
    {
        match self {
            Statistics::FixedLen(f) => f.null_count,
            Statistics::Primitive(p) => p.null_count,
        }
    }

    /// The checked view of the record as fixed-size-binary statistics;
    /// absent when the record holds another variant, which the caller must
    /// handle rather than assume a layout.
    pub fn as_fixed_len(&self) -> (r: Option<&FixedLenStatistics>)
        ensures
            *self matches Statistics::FixedLen(f) ==> (r matches Some(g) && *g == f),
            !(*self matches Statistics::FixedLen(_)) ==> r is None,
    {
        match self {
            Statistics::FixedLen(f) => Some(f),
            _ => None,
        }
    }

    /// The checked view of the record as decimal statistics; absent when
    /// the record holds another variant.
    pub fn as_primitive(&self) -> (r: Option<&PrimitiveStatistics>)
        ensures
            *self matches Statistics::Primitive(p) ==> (r matches Some(g) && *g == p),
            !(*self matches Statistics::Primitive(_)) ==> r is None,
    {
        match self {
            Statistics::Primitive(p) => Some(p),
            _ => None,
        }
    }
}

/// Builds the typed statistics record for one fixed-length-byte-array
/// column chunk: a total mapping from the column's logical type to an
/// outcome.
///
/// - `Decimal`: delegate to the decimal reinterpretation; a byte width
///   above 16 fails with a representation-overflow error.
/// - `FixedSizeBinary`: relabel the record verbatim; this always succeeds.
/// - any other logical type: fail with an unsupported-mapping error naming
///   the rejected type.
pub fn statistics_from_fix_len(stats: &PhysicalFixedLenStatistics, data_type: DataType) -> (r:
    Result<Statistics, ArrowError>)
    ensures
        (data_type matches DataType::Decimal(_, _) && stats.byte_width > 16) ==> (r matches Err(e)
            && e matches ArrowError::ExternalFormat(m) && m@ == overflow_msg(
            stats.byte_width as nat,
        )),
        (data_type matches DataType::Decimal(_, _) && stats.byte_width <= 16) ==> (r matches Ok(s)
            && s matches Statistics::Primitive(p) && spec_decimal_from(*stats, data_type, p)),
        data_type matches DataType::FixedSizeBinary(_) ==> (r matches Ok(s)
            && s matches Statistics::FixedLen(f) && spec_fixed_from(*stats, f)),
        spec_unsupported(data_type) ==> (r matches Err(e) && e matches ArrowError::NotYetImplemented(
            m,
        ) && m@ == not_impl_msg(data_type)),
{
    match data_type {
        DataType::Decimal(_, _) => match PrimitiveStatistics::try_from(stats, data_type) {
            Ok(p) => Ok(Statistics::Primitive(p)),
            Err(e) => Err(e),
        },
        DataType::FixedSizeBinary(_) => Ok(Statistics::FixedLen(FixedLenStatistics::from(stats))),
        _ => Err(not_implemented_error(&data_type)),
    }
}

/// Law: an absent bound stays absent. If the minimum is absent in the
/// physical record, the decimal and the fixed-size-binary outputs both have
/// an absent minimum, independent of whether the maximum is present; and
/// symmetrically for the maximum.
pub proof fn lemma_absent_bound_stays_absent(
    stats: PhysicalFixedLenStatistics,
    data_type: DataType,
    p: PrimitiveStatistics,
    f: FixedLenStatistics,
)
    requires
        spec_decimal_from(stats, data_type, p),
        spec_fixed_from(stats, f),
    ensures
        stats.min_value is None ==> (p.min_value is None && f.min_value is None),
        stats.max_value is None ==> (p.max_value is None && f.max_value is None),
{
}

/// Law: decoding round-trips. A stored bound of the declared width `w <= 16`
/// always decodes, and re-encoding the decoded value as 16 big-endian bytes
/// returns exactly the zero-padded original bytes.
pub proof fn lemma_decoded_bound_roundtrip(v: Seq<u8>, w: nat)
    requires
        w <= 16,
        v.len() == w,
    ensures
        spec_decode_bound(Some(v), w) matches Some(x) && i128_to_be16(x as int) == zero_pad16(v),
{
    lemma_decimal_bound_roundtrip(v);
    lemma_be_i128_in_range(zero_pad16(v));
}

/// Law: success is owed to well-formed input. For a well-formed physical
/// record whose byte width is at most 16, a present bound always decodes to
/// a present decimal value and an absent bound to an absent one: the
/// defensive length check drops a bound only when the record is malformed.
pub proof fn lemma_present_bound_decodes(
    stats: PhysicalFixedLenStatistics,
    data_type: DataType,
    p: PrimitiveStatistics,
)
    requires
        stats.wf(),
        stats.byte_width <= 16,
        spec_decimal_from(stats, data_type, p),
    ensures
        p.min_value is Some <==> stats.min_value is Some,
        p.max_value is Some <==> stats.max_value is Some,
{
}

} // verus!
