use fixlen_stats::datatypes::DataType;
use fixlen_stats::error::ArrowError;
use fixlen_stats::statistics::{
    statistics_from_fix_len, FixedLenStatistics, PhysicalFixedLenStatistics, PrimitiveStatistics,
    Statistics,
};

fn physical(
    byte_width: usize,
    min_value: Option<Vec<u8>>,
    max_value: Option<Vec<u8>>,
) -> PhysicalFixedLenStatistics {
    PhysicalFixedLenStatistics {
        null_count: Some(7),
        distinct_count: Some(3),
        min_value,
        max_value,
        byte_width,
    }
}

#[test]
fn decimal_scenario_width_4() {
    let stats = physical(
        4,
        Some(vec![0x00, 0x00, 0x00, 0x01]),
        Some(vec![0x00, 0x00, 0x00, 0x0A]),
    );
    let r = statistics_from_fix_len(&stats, DataType::Decimal(9, 0)).unwrap();
    assert_eq!(*r.data_type(), DataType::Decimal(9, 0));
    assert_eq!(r.null_count(), Some(7));
    let p = r.as_primitive().unwrap();
    assert_eq!(p.min_value, Some(1));
    assert_eq!(p.max_value, Some(10));
    assert_eq!(p.null_count, Some(7));
    assert_eq!(p.distinct_count, Some(3));
}

#[test]
fn decimal_overflow_width_20() {
    let stats = physical(20, Some(vec![0u8; 20]), Some(vec![0u8; 20]));
    let e = statistics_from_fix_len(&stats, DataType::Decimal(38, 0)).unwrap_err();
    match &e {
        ArrowError::ExternalFormat(m) => {
            assert_eq!(
                m,
                "Can't deserialize i128 from Fixed Len Byte array with length 20"
            );
            assert!(m.contains("20"));
        }
        other => panic!("expected a representation-overflow error, got {:?}", other),
    }
    assert_eq!(
        e.message(),
        "Can't deserialize i128 from Fixed Len Byte array with length 20"
    );
}

#[test]
fn decimal_overflow_ignores_counts() {
    let stats = PhysicalFixedLenStatistics {
        null_count: None,
        distinct_count: None,
        min_value: None,
        max_value: None,
        byte_width: 17,
    };
    let e = statistics_from_fix_len(&stats, DataType::Decimal(38, 0)).unwrap_err();
    assert!(matches!(e, ArrowError::ExternalFormat(_)));
    assert_eq!(
        e.message(),
        "Can't deserialize i128 from Fixed Len Byte array with length 17"
    );
}

#[test]
fn fixed_size_binary_width_8() {
    let min = vec![0x01, 0x02, 0x03, 0x04, 0x05, 0x06, 0x07, 0x08];
    let max = vec![0xF1, 0xF2, 0xF3, 0xF4, 0xF5, 0xF6, 0xF7, 0xF8];
    let stats = physical(8, Some(min.clone()), Some(max.clone()));
    let r = statistics_from_fix_len(&stats, DataType::FixedSizeBinary(8)).unwrap();
    assert_eq!(*r.data_type(), DataType::FixedSizeBinary(8));
    let f = r.as_fixed_len().unwrap();
    assert_eq!(f.min_value, Some(min));
    assert_eq!(f.max_value, Some(max));
    assert_eq!(f.null_count, Some(7));
    assert_eq!(f.distinct_count, Some(3));
    assert_eq!(f.data_type, DataType::FixedSizeBinary(8));
    assert_eq!(*f.data_type(), DataType::FixedSizeBinary(8));
    assert_eq!(f.null_count(), Some(7));
}

#[test]
fn fixed_size_binary_keeps_width_even_on_overflowing_decimal_width() {
    let stats = physical(20, Some(vec![9u8; 20]), None);
    let r = statistics_from_fix_len(&stats, DataType::FixedSizeBinary(20)).unwrap();
    let f = r.as_fixed_len().unwrap();
    assert_eq!(f.data_type, DataType::FixedSizeBinary(20));
    assert_eq!(f.min_value, Some(vec![9u8; 20]));
    assert_eq!(f.max_value, None);
}

#[test]
fn unsupported_type_is_named() {
    let stats = physical(4, None, None);
    let e = statistics_from_fix_len(&stats, DataType::Utf8).unwrap_err();
    match &e {
        ArrowError::NotYetImplemented(m) => {
            assert_eq!(m, "Can't read Utf8 from parquet");
            assert!(m.contains("Utf8"));
        }
        other => panic!("expected an unsupported-mapping error, got {:?}", other),
    }
    let e = statistics_from_fix_len(&stats, DataType::Boolean).unwrap_err();
    assert_eq!(e.message(), "Can't read Boolean from parquet");
    let e = statistics_from_fix_len(&stats, DataType::Int64).unwrap_err();
    assert_eq!(e.message(), "Can't read Int64 from parquet");
}

#[test]
fn absent_min_stays_absent_with_present_max() {
    let stats = physical(4, None, Some(vec![0x00, 0x00, 0x01, 0x00]));
    let r = statistics_from_fix_len(&stats, DataType::Decimal(9, 0)).unwrap();
    let p = r.as_primitive().unwrap();
    assert_eq!(p.min_value, None);
    assert_eq!(p.max_value, Some(256));

    let r = statistics_from_fix_len(&stats, DataType::FixedSizeBinary(4)).unwrap();
    let f = r.as_fixed_len().unwrap();
    assert_eq!(f.min_value, None);
    assert_eq!(f.max_value, Some(vec![0x00, 0x00, 0x01, 0x00]));
}

#[test]
fn absent_max_stays_absent_with_present_min() {
    let stats = physical(2, Some(vec![0x00, 0x2A]), None);
    let r = statistics_from_fix_len(&stats, DataType::Decimal(5, 2)).unwrap();
    let p = r.as_primitive().unwrap();
    assert_eq!(p.min_value, Some(42));
    assert_eq!(p.max_value, None);
    assert_eq!(p.data_type, DataType::Decimal(5, 2));
}

#[test]
fn zero_padding_is_not_sign_extension() {
    // A narrow bound with its top bit set decodes as a positive number:
    // the pad is zero bytes, never a copy of the sign bit.
    let stats = physical(4, Some(vec![0x80, 0x00, 0x00, 0x00]), None);
    let r = statistics_from_fix_len(&stats, DataType::Decimal(10, 0)).unwrap();
    let p = r.as_primitive().unwrap();
    assert_eq!(p.min_value, Some(2147483648));
}

#[test]
fn full_width_bound_can_be_negative() {
    let stats = physical(16, Some(vec![0xFF; 16]), Some(vec![0u8; 16]));
    let r = statistics_from_fix_len(&stats, DataType::Decimal(38, 0)).unwrap();
    let p = r.as_primitive().unwrap();
    assert_eq!(p.min_value, Some(-1));
    assert_eq!(p.max_value, Some(0));
}

#[test]
fn malformed_bound_is_dropped_not_fatal() {
    // The stored minimum is shorter than the declared width: the decimal
    // reconstruction keeps going and only that bound comes back absent.
    let stats = physical(4, Some(vec![0x01, 0x02]), Some(vec![0x00, 0x00, 0x00, 0x05]));
    let r = statistics_from_fix_len(&stats, DataType::Decimal(9, 0)).unwrap();
    let p = r.as_primitive().unwrap();
    assert_eq!(p.min_value, None);
    assert_eq!(p.max_value, Some(5));
}

#[test]
fn construction_helpers_match_dispatcher() {
    let stats = physical(4, Some(vec![0, 0, 0, 2]), Some(vec![0, 0, 0, 9]));

    let p = PrimitiveStatistics::try_from(&stats, DataType::Decimal(9, 0)).unwrap();
    let via_dispatch = statistics_from_fix_len(&stats, DataType::Decimal(9, 0)).unwrap();
    assert_eq!(via_dispatch, Statistics::Primitive(p));

    let f = FixedLenStatistics::from(&stats);
    let via_dispatch = statistics_from_fix_len(&stats, DataType::FixedSizeBinary(4)).unwrap();
    assert_eq!(via_dispatch, Statistics::FixedLen(f));
}

#[test]
fn checked_variant_accessors_refuse_the_other_variant() {
    let stats = physical(4, None, None);
    let dec = statistics_from_fix_len(&stats, DataType::Decimal(9, 0)).unwrap();
    assert!(dec.as_primitive().is_some());
    assert!(dec.as_fixed_len().is_none());

    let bin = statistics_from_fix_len(&stats, DataType::FixedSizeBinary(4)).unwrap();
    assert!(bin.as_fixed_len().is_some());
    assert!(bin.as_primitive().is_none());

    assert_eq!(dec.null_count(), Some(7));
    assert_eq!(bin.null_count(), Some(7));
}
