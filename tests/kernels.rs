use fuse_query::data_array_logic::{boolean_and, boolean_not, boolean_or, data_array_logic_op};
use fuse_query::datavalues::{ArrayValues, DataArray, DataColumnarValue, DataValue, DataValueLogicOperator};
use fuse_query::error::FuseQueryError;

fn boolean_array(rows: &[Option<bool>]) -> DataArray {
    let values: Vec<bool> = rows.iter().map(|r| r.unwrap_or(false)).collect();
    let mask: Vec<bool> = rows.iter().map(|r| r.is_some()).collect();
    DataArray::try_new(ArrayValues::Boolean(values), Some(mask)).unwrap()
}

fn plain_boolean_array(values: Vec<bool>) -> DataArray {
    DataArray::try_new(ArrayValues::Boolean(values), None).unwrap()
}

fn rows_of(a: &DataArray) -> Vec<Option<bool>> {
    let values = match &a.values {
        ArrayValues::Boolean(v) => v.clone(),
        other => panic!("not a boolean array: {:?}", other),
    };
    (0..a.len()).map(|i| if a.is_null(i) { None } else { Some(values[i]) }).collect()
}

fn internal_message(e: &FuseQueryError) -> String {
    match e {
        FuseQueryError::Internal(m) => m.clone(),
        other => panic!("expected an internal error, got {:?}", other),
    }
}

#[test]
fn and_of_two_boolean_arrays() {
    let l = plain_boolean_array(vec![true, true, false, false]);
    let r = plain_boolean_array(vec![true, false, true, false]);
    let out = boolean_and(&l, &r);
    assert_eq!(rows_of(&out), vec![Some(true), Some(false), Some(false), Some(false)]);
    for i in 0..out.len() {
        assert!(!out.is_null(i));
    }
}

#[test]
fn or_with_nulls_is_three_valued() {
    let l = boolean_array(&[Some(true), Some(false), None]);
    let r = boolean_array(&[None, None, None]);
    let out = boolean_or(&l, &r);
    assert_eq!(rows_of(&out), vec![Some(true), None, None]);
    assert!(!out.is_null(0));
    assert!(out.is_null(1));
    assert!(out.is_null(2));
}

#[test]
fn and_short_circuits_on_false_over_nulls() {
    let l = boolean_array(&[None, Some(false), None, Some(true), None]);
    let r = boolean_array(&[Some(false), None, Some(true), None, None]);
    let out = boolean_and(&l, &r);
    assert_eq!(rows_of(&out), vec![Some(false), Some(false), None, None, None]);
}

#[test]
fn or_short_circuits_on_true_over_nulls() {
    let l = boolean_array(&[None, Some(true), Some(false), None]);
    let r = boolean_array(&[Some(true), None, None, Some(false)]);
    let out = boolean_or(&l, &r);
    assert_eq!(rows_of(&out), vec![Some(true), Some(true), None, None]);
}

#[test]
fn kernels_on_empty_arrays() {
    let l = boolean_array(&[]);
    let r = boolean_array(&[]);
    assert_eq!(boolean_and(&l, &r).len(), 0);
    assert_eq!(boolean_or(&l, &r).len(), 0);
}

#[test]
fn kernel_is_deterministic_and_leaves_inputs_alone() {
    let l = boolean_array(&[Some(true), None, Some(false), Some(true)]);
    let r = boolean_array(&[None, None, Some(true), Some(true)]);
    let before_l = rows_of(&l);
    let before_r = rows_of(&r);
    let first = boolean_and(&l, &r);
    let second = boolean_and(&l, &r);
    assert_eq!(rows_of(&first), rows_of(&second));
    assert_eq!(rows_of(&l), before_l);
    assert_eq!(rows_of(&r), before_r);
}

#[test]
fn kernels_are_commutative() {
    let all = [Some(true), Some(false), None];
    let mut lv = Vec::new();
    let mut rv = Vec::new();
    for a in all {
        for b in all {
            lv.push(a);
            rv.push(b);
        }
    }
    let l = boolean_array(&lv);
    let r = boolean_array(&rv);
    assert_eq!(rows_of(&boolean_and(&l, &r)), rows_of(&boolean_and(&r, &l)));
    assert_eq!(rows_of(&boolean_or(&l, &r)), rows_of(&boolean_or(&r, &l)));
}

#[test]
fn de_morgan_holds_row_by_row() {
    let all = [Some(true), Some(false), None];
    let mut lv = Vec::new();
    let mut rv = Vec::new();
    for a in all {
        for b in all {
            lv.push(a);
            rv.push(b);
        }
    }
    let l = boolean_array(&lv);
    let r = boolean_array(&rv);
    let lhs = boolean_not(&boolean_and(&l, &r));
    let rhs = boolean_or(&boolean_not(&l), &boolean_not(&r));
    assert_eq!(rows_of(&lhs), rows_of(&rhs));
}

#[test]
fn not_keeps_nulls() {
    let a = boolean_array(&[Some(true), None, Some(false)]);
    assert_eq!(rows_of(&boolean_not(&a)), vec![Some(false), None, Some(true)]);
}

#[test]
fn dispatcher_applies_the_operator() {
    let l = DataColumnarValue::Array(boolean_array(&[Some(true), Some(false), None]));
    let r = DataColumnarValue::Array(boolean_array(&[Some(true), Some(true), Some(false)]));
    let and = data_array_logic_op(DataValueLogicOperator::And, &l, &r).unwrap();
    assert_eq!(rows_of(&and), vec![Some(true), Some(false), Some(false)]);
    let or = data_array_logic_op(DataValueLogicOperator::Or, &l, &r).unwrap();
    assert_eq!(rows_of(&or), vec![Some(true), Some(true), None]);
}

#[test]
fn dispatcher_rejects_boolean_and_uint64() {
    let l = DataColumnarValue::Array(plain_boolean_array(vec![true, false]));
    let r = DataColumnarValue::Array(DataArray::try_new(ArrayValues::UInt64(vec![1, 2]), None).unwrap());
    let e = data_array_logic_op(DataValueLogicOperator::And, &l, &r).unwrap_err();
    assert_eq!(internal_message(&e), "Cannot do data_array AND, left:Boolean, right:UInt64");
}

#[test]
fn dispatcher_rejects_any_non_boolean_operand() {
    let b = DataColumnarValue::Array(plain_boolean_array(vec![true]));
    let others = vec![
        (DataColumnarValue::Array(DataArray::try_new(ArrayValues::Int8(vec![1]), None).unwrap()), "Int8"),
        (DataColumnarValue::Array(DataArray::try_new(ArrayValues::Null(1), None).unwrap()), "Null"),
        (
            DataColumnarValue::Array(DataArray::try_new(ArrayValues::Utf8(vec!["x".to_string()]), None).unwrap()),
            "Utf8",
        ),
    ];
    for (other, name) in others {
        let e = data_array_logic_op(DataValueLogicOperator::Or, &other, &b).unwrap_err();
        let m = internal_message(&e);
        assert!(m.starts_with("Cannot do data_array"));
        assert_eq!(m, format!("Cannot do data_array OR, left:{}, right:Boolean", name));
    }
}

#[test]
fn dispatcher_repeats_a_scalar_beside_an_array() {
    let arr = DataColumnarValue::Array(boolean_array(&[Some(true), Some(false), None]));
    let t = DataColumnarValue::Scalar(DataValue::Boolean(Some(true)));
    let out = data_array_logic_op(DataValueLogicOperator::And, &t, &arr).unwrap();
    assert_eq!(rows_of(&out), vec![Some(true), Some(false), None]);
    let f = DataColumnarValue::Scalar(DataValue::Boolean(Some(false)));
    let out = data_array_logic_op(DataValueLogicOperator::Or, &arr, &f).unwrap();
    assert_eq!(rows_of(&out), vec![Some(true), Some(false), None]);
}

#[test]
fn dispatcher_applies_three_valued_logic_to_a_typed_null_scalar() {
    let arr = DataColumnarValue::Array(boolean_array(&[Some(true), Some(false), None]));
    let null = DataColumnarValue::Scalar(DataValue::Boolean(None));
    let and = data_array_logic_op(DataValueLogicOperator::And, &arr, &null).unwrap();
    assert_eq!(rows_of(&and), vec![None, Some(false), None]);
    let or = data_array_logic_op(DataValueLogicOperator::Or, &null, &arr).unwrap();
    assert_eq!(rows_of(&or), vec![Some(true), None, None]);
}

#[test]
fn dispatcher_rejects_two_scalars() {
    let l = DataColumnarValue::Scalar(DataValue::Boolean(Some(true)));
    let r = DataColumnarValue::Scalar(DataValue::Boolean(None));
    let e = data_array_logic_op(DataValueLogicOperator::And, &l, &r).unwrap_err();
    assert_eq!(internal_message(&e), "Cannot do data_array AND over two scalars");
    let n = DataColumnarValue::Scalar(DataValue::UInt64(Some(1)));
    let e = data_array_logic_op(DataValueLogicOperator::Or, &l, &n).unwrap_err();
    assert_eq!(internal_message(&e), "Cannot do data_array OR, left:Boolean, right:UInt64");
}

#[test]
fn dispatcher_rejects_a_non_boolean_scalar_beside_an_array() {
    let arr = DataColumnarValue::Array(boolean_array(&[Some(true)]));
    let n = DataColumnarValue::Scalar(DataValue::Int32(Some(4)));
    let e = data_array_logic_op(DataValueLogicOperator::And, &arr, &n).unwrap_err();
    assert_eq!(internal_message(&e), "Cannot do data_array AND, left:Boolean, right:Int32");
}

#[test]
fn dispatcher_rejects_different_lengths() {
    let l = DataColumnarValue::Array(plain_boolean_array(vec![true, false]));
    let r = DataColumnarValue::Array(plain_boolean_array(vec![true]));
    let e = data_array_logic_op(DataValueLogicOperator::And, &l, &r).unwrap_err();
    assert_eq!(internal_message(&e), "Cannot do data_array AND, left and right have different lengths");
}

#[test]
fn array_with_a_mask_of_the_wrong_length_is_refused() {
    let e = DataArray::try_new(ArrayValues::Boolean(vec![true, false]), Some(vec![true])).unwrap_err();
    assert_eq!(internal_message(&e), "Null mask length differs from the array length");
}

#[test]
fn scalar_is_repeated_to_the_block_length() {
    let v = DataColumnarValue::Scalar(DataValue::Boolean(Some(true)));
    assert_eq!(v.len(5), 5);
    let a = v.as_array(5);
    assert_eq!(rows_of(&a), vec![Some(true); 5]);
    let n = DataColumnarValue::Scalar(DataValue::Null).as_array(3);
    assert_eq!(n.len(), 3);
    assert!(n.is_null(0) && n.is_null(2));
    let typed = DataColumnarValue::Scalar(DataValue::Boolean(None)).as_array(2);
    assert_eq!(rows_of(&typed), vec![None, None]);
}

#[test]
fn value_text_forms() {
    assert_eq!(DataValue::Null.to_text(), "NULL");
    assert_eq!(DataValue::Boolean(Some(false)).to_text(), "false");
    assert_eq!(DataValue::Int64(Some(i64::MIN)).to_text(), "-9223372036854775808");
    assert_eq!(DataValue::Int8(Some(-7)).to_text(), "-7");
    assert_eq!(DataValue::UInt64(Some(u64::MAX)).to_text(), "18446744073709551615");
    assert_eq!(DataValue::UInt16(Some(0)).to_text(), "0");
    assert_eq!(DataValue::Int32(Some(1200)).to_text(), "1200");
    assert_eq!(DataValue::Utf8(Some("ab".to_string())).to_text(), "'ab'");
    assert_eq!(DataValue::Int16(None).to_text(), "NULL");
    assert_eq!(DataValue::Boolean(None).to_text(), "NULL");
}
