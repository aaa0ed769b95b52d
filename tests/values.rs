use bmi_rs::bmi::{item_count, values_at_indices, var_nbytes, RefValues, ValueType, Values};
use bmi_rs::errors::BmiError;

fn case(vs: &[u16], idx: &[u32]) -> Result<Values, BmiError> {
    values_at_indices(&RefValues::U16(vs), idx)
}

#[test]
fn test_empty() {
    let vs: [u16; 0] = [];
    let inds: [u32; 0] = [];
    assert!(case(&vs, &inds).is_ok());

    let vs: [u16; 1] = [42];
    let inds: [u32; 0] = [];
    assert!(case(&vs, &inds).is_ok());
}

#[test]
fn test_one() {
    let vs: [u16; 1] = [42];
    let inds: [u32; 1] = [0];
    match case(&vs, &inds) {
        Ok(values) => match values {
            Values::U16(values) => {
                let i = inds[0] as usize;
                assert_eq!(values[i], vs[i]);
            }
            _ => assert!(false),
        },
        _ => assert!(false),
    }
}

#[test]
fn test_many() {
    let vs: [u16; 2] = [0, 1];
    let inds: [u32; 2] = [0, 1];
    match case(&vs, &inds) {
        Ok(values) => match values {
            Values::U16(values) => {
                for i in &inds {
                    let i = *i as usize;
                    assert_eq!(values[i], vs[i]);
                }
            }
            _ => assert!(false),
        },
        _ => assert!(false),
    }
}

#[test]
fn test_out_of_bounds() {
    let vs: [u16; 0] = [];
    let inds: [u32; 1] = [1];
    match case(&vs, &inds) {
        Err(err) => {
            assert_eq!(err, BmiError::IndexOutOfBounds);
        }
        _ => assert!(false),
    }
}

#[test]
fn item_sizes_follow_the_width_table() {
    let kinds = [
        ValueType::I16,
        ValueType::U16,
        ValueType::I32,
        ValueType::U32,
        ValueType::I64,
        ValueType::U64,
        ValueType::F32,
        ValueType::F64,
    ];
    let widths: Vec<usize> = kinds.iter().map(|k| k.bytes()).collect();
    assert_eq!(widths, vec![2, 2, 4, 4, 8, 8, 4, 8]);
}

#[test]
fn empty_source_and_empty_indices_give_an_empty_result() {
    let vs: [u16; 0] = [];
    let inds: [u32; 0] = [];
    match case(&vs, &inds) {
        Ok(Values::U16(v)) => assert!(v.is_empty()),
        _ => panic!("expected an empty U16 array"),
    }
}

#[test]
fn single_index_reads_the_single_item() {
    match case(&[42], &[0]) {
        Ok(Values::U16(v)) => assert_eq!(v, vec![42]),
        _ => panic!("expected [42]"),
    }
}

#[test]
fn index_past_the_end_of_an_empty_source_fails() {
    assert_eq!(case(&[], &[1]).unwrap_err(), BmiError::IndexOutOfBounds);
}

#[test]
fn indexed_read_keeps_order_and_repeats() {
    let src: [i64; 4] = [10, -20, 30, -40];
    let r = values_at_indices(&RefValues::I64(&src), &[3, 0, 3, 1]).unwrap();
    assert_eq!(r.value_type(), ValueType::I64);
    assert_eq!(r.len(), 4);
    match r {
        Values::I64(v) => assert_eq!(v, vec![-40, 10, -40, -20]),
        _ => panic!("expected an I64 array"),
    }
}

#[test]
fn indexed_read_keeps_float_bit_patterns() {
    let src: [u64; 3] = [1.5f64.to_bits(), (-0.0f64).to_bits(), f64::NAN.to_bits()];
    match values_at_indices(&RefValues::F64(&src), &[2, 1]).unwrap() {
        Values::F64(v) => {
            assert_eq!(v, vec![f64::NAN.to_bits(), (-0.0f64).to_bits()]);
            assert!(f64::from_bits(v[0]).is_nan());
        }
        _ => panic!("expected an F64 array"),
    }
}

#[test]
fn one_bad_index_among_good_ones_fails_the_read() {
    let src: [i32; 3] = [1, 2, 3];
    let r = values_at_indices(&RefValues::I32(&src), &[0, 2, 3, 1]);
    assert_eq!(r.unwrap_err(), BmiError::IndexOutOfBounds);
}

#[test]
fn views_report_kind_and_length() {
    let owned = Values::F32(vec![1.0f32.to_bits(), 2.0f32.to_bits()]);
    let view = RefValues::from(&owned);
    assert_eq!(view.value_type(), ValueType::F32);
    assert_eq!(view.len(), 2);
    match view {
        RefValues::F32(s) => assert_eq!(f32::from_bits(s[1]), 2.0),
        _ => panic!("expected an F32 view"),
    }
}

#[test]
fn item_count_is_the_number_of_names() {
    let names = ["a", "b", "c"];
    assert_eq!(item_count(&names), 3);
    let none: [&str; 0] = [];
    assert_eq!(item_count(&none), 0);
}

#[test]
fn nbytes_is_count_times_item_size() {
    assert_eq!(var_nbytes(3, ValueType::F64), Ok(24));
    assert_eq!(var_nbytes(0, ValueType::I16), Ok(0));
    assert_eq!(var_nbytes(7, ValueType::U16), Ok(14));
    assert_eq!(var_nbytes(1 << 30, ValueType::U32), Err(BmiError::InvalidArgument));
    assert_eq!(var_nbytes((1 << 30) - 1, ValueType::I32), Ok(4_294_967_292));
}
