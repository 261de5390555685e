//! The logical types that the statistics reconstruction can be asked to
//! target. The catalog is a closed sum type: the dispatcher reads the
//! `Decimal` and `FixedSizeBinary` variants and fails closed on every other
//! variant.

use crate::text::{dec_str, usize_to_dec_string};
use vstd::prelude::*;
use vstd::string::StringExecFns;

verus! {

/// A column's declared logical type, which determines how the physical
/// fixed-length bytes of its statistics are to be reinterpreted.
#[derive(Debug, Clone, Copy, PartialEq, Eq, Structural)]
pub enum DataType {
    /// Truth values.
    Boolean,
    /// 32-bit signed integers.
    Int32,
    /// 64-bit signed integers.
    Int64,
    /// Variable-length UTF-8 strings.
    Utf8,
    /// Variable-length opaque byte strings.
    Binary,
    /// Fixed-precision decimal numbers with a precision and a scale.
    Decimal(usize, usize),
    /// Opaque byte strings of one fixed byte width.
    FixedSizeBinary(usize),
}

/// The name of a logical type as it appears in error messages, with the
/// parameters of a parameterized type in parentheses.
pub open spec fn dt_name(dt: DataType) -> Seq<char> {
    match dt {
        DataType::Boolean => "Boolean"@,
        DataType::Int32 => "Int32"@,
        DataType::Int64 => "Int64"@,
        DataType::Utf8 => "Utf8"@,
        DataType::Binary => "Binary"@,
        DataType::Decimal(p, s) => "Decimal("@ + dec_str(p as nat) + ", "@ + dec_str(s as nat)
            + ")"@,
        DataType::FixedSizeBinary(w) => "FixedSizeBinary("@ + dec_str(w as nat) + ")"@,
    }
}

impl DataType {
    /// Renders the logical type as text, exactly as error messages name it.
    pub fn name(&self) -> (r: String)
        ensures
            r@ == dt_name(*self),
    {
        match self {
            DataType::Boolean => "Boolean".to_owned(),
            DataType::Int32 => "Int32".to_owned(),
            DataType::Int64 => "Int64".to_owned(),
            DataType::Utf8 => "Utf8".to_owned(),
            DataType::Binary => "Binary".to_owned(),
            DataType::Decimal(p, s) => {
                let mut r = "Decimal(".to_owned();
                r.append(usize_to_dec_string(*p).as_str());
                r.append(", ");
                r.append(usize_to_dec_string(*s).as_str());
                r.append(")");
                proof {
                    assert(r@ =~= dt_name(*self));
                }
                r
            },
            DataType::FixedSizeBinary(w) => {
                let mut r = "FixedSizeBinary(".to_owned();
                r.append(usize_to_dec_string(*w).as_str());
                r.append(")");
                proof {
                    assert(r@ =~= dt_name(*self));
                }
                r
            },
        }
    }
}

} // verus!
