use fuse_query::datablocks::{DataBlock, DataField, DataSchema};
use fuse_query::datavalues::{ArrayValues, DataArray, DataColumnarValue, DataType, DataValue, DataValueLogicOperator};
use fuse_query::error::FuseQueryError;
use fuse_query::functions::{Function, LogicFunction};

fn boolean_column(rows: &[Option<bool>]) -> DataArray {
    let values: Vec<bool> = rows.iter().map(|r| r.unwrap_or(false)).collect();
    let mask: Vec<bool> = rows.iter().map(|r| r.is_some()).collect();
    DataArray::try_new(ArrayValues::Boolean(values), Some(mask)).unwrap()
}

fn block(columns: Vec<(&str, DataArray)>) -> DataBlock {
    let rows = columns.first().map(|c| c.1.len()).unwrap_or(0);
    let names = columns.iter().map(|c| c.0.to_string()).collect();
    let arrays = columns.into_iter().map(|c| c.1).collect();
    DataBlock::create(rows, names, arrays).unwrap()
}

fn rows_of(v: &DataColumnarValue) -> Vec<Option<bool>> {
    let a = match v {
        DataColumnarValue::Array(a) => a,
        other => panic!("not an array: {:?}", other),
    };
    let values = match &a.values {
        ArrayValues::Boolean(v) => v.clone(),
        other => panic!("not a boolean array: {:?}", other),
    };
    (0..a.len()).map(|i| if a.is_null(i) { None } else { Some(values[i]) }).collect()
}

fn col(name: &str) -> Function {
    Function::column(name.to_string())
}

fn logic(op: DataValueLogicOperator, l: Function, r: Function) -> Function {
    LogicFunction::try_create(op, &[l, r]).unwrap()
}

fn internal_message(e: &FuseQueryError) -> String {
    match e {
        FuseQueryError::Internal(m) => m.clone(),
        other => panic!("expected an internal error, got {:?}", other),
    }
}

#[test]
fn eval_and_over_two_columns() {
    let b = block(vec![
        ("a", boolean_column(&[Some(true), Some(true), Some(false), Some(false)])),
        ("b", boolean_column(&[Some(true), Some(false), Some(true), Some(false)])),
    ]);
    let mut f = logic(DataValueLogicOperator::And, col("a"), col("b"));
    f.eval(&b).unwrap();
    let r = f.result().unwrap();
    assert_eq!(rows_of(&r), vec![Some(true), Some(false), Some(false), Some(false)]);
    assert_eq!(r.len(b.num_rows()), 4);
}

#[test]
fn eval_type_mismatch_reports_both_types() {
    let b = block(vec![
        ("flag", boolean_column(&[Some(true), Some(false)])),
        ("number", DataArray::try_new(ArrayValues::UInt64(vec![1, 2]), None).unwrap()),
    ]);
    let mut f = logic(DataValueLogicOperator::And, col("flag"), col("number"));
    let e = f.eval(&b).unwrap_err();
    assert_eq!(internal_message(&e), "Cannot do data_array AND, left:Boolean, right:UInt64");
    let e = f.result().unwrap_err();
    assert_eq!(internal_message(&e), "Saved cannot none");
}

#[test]
fn result_before_eval_fails() {
    let f = logic(DataValueLogicOperator::And, col("a"), col("b"));
    let e = f.result().unwrap_err();
    assert_eq!(internal_message(&e), "Saved cannot none");
    match &f {
        Function::Logic(l) => assert_eq!(internal_message(&l.result().unwrap_err()), "Saved cannot none"),
        _ => panic!("not a logical node"),
    }
}

#[test]
fn reuse_across_blocks() {
    let b1 = block(vec![
        ("a", boolean_column(&[Some(true), Some(false), None, Some(true)])),
        ("b", boolean_column(&[Some(true), Some(true), Some(true), None])),
    ]);
    let b2 = block(vec![
        ("a", boolean_column(&[Some(false), Some(true), Some(true), None, None, Some(false), Some(true)])),
        ("b", boolean_column(&[Some(true), Some(true), None, Some(false), None, None, Some(false)])),
    ]);
    let mut f = logic(DataValueLogicOperator::Or, col("a"), col("b"));
    f.eval(&b1).unwrap();
    assert_eq!(f.result().unwrap().len(b1.num_rows()), 4);
    f.eval(&b2).unwrap();
    let r = f.result().unwrap();
    assert_eq!(r.len(b2.num_rows()), 7);
    assert_eq!(
        rows_of(&r),
        vec![Some(true), Some(true), Some(true), None, None, None, Some(true)]
    );
}

#[test]
fn result_length_matches_block_rows() {
    for n in [0usize, 1, 9] {
        let b = block(vec![("a", boolean_column(&vec![Some(true); n]))]);
        let mut f = logic(
            DataValueLogicOperator::And,
            col("a"),
            logic(DataValueLogicOperator::Or, Function::constant(DataValue::Boolean(Some(false))), col("a")),
        );
        f.eval(&b).unwrap();
        assert_eq!(f.result().unwrap().len(b.num_rows()), n);
    }
}

#[test]
fn repeated_eval_gives_the_same_result() {
    let b = block(vec![
        ("a", boolean_column(&[Some(true), None, Some(false)])),
        ("b", boolean_column(&[None, None, Some(true)])),
    ]);
    let mut f = logic(DataValueLogicOperator::And, col("a"), col("b"));
    f.eval(&b).unwrap();
    let first = rows_of(&f.result().unwrap());
    f.eval(&b).unwrap();
    let second = rows_of(&f.result().unwrap());
    assert_eq!(first, second);
    assert_eq!(first, vec![None, None, Some(false)]);
}

#[test]
fn clone_is_fresh() {
    let b = block(vec![("a", boolean_column(&[Some(true)])), ("b", boolean_column(&[Some(false)]))]);
    let mut f = logic(DataValueLogicOperator::Or, col("a"), col("b"));
    f.eval(&b).unwrap();
    assert!(f.result().is_ok());
    let mut g = f.clone();
    assert_eq!(internal_message(&g.result().unwrap_err()), "Saved cannot none");
    g.eval(&b).unwrap();
    assert_eq!(rows_of(&g.result().unwrap()), vec![Some(true)]);
}

#[test]
fn scalar_operands_are_broadcast() {
    let b = block(vec![("a", boolean_column(&[Some(true), None, Some(false)]))]);
    let mut f = logic(DataValueLogicOperator::And, col("a"), Function::constant(DataValue::Boolean(Some(true))));
    f.eval(&b).unwrap();
    assert_eq!(rows_of(&f.result().unwrap()), vec![Some(true), None, Some(false)]);
    let mut g = logic(DataValueLogicOperator::Or, Function::constant(DataValue::Null), col("a"));
    let e = g.eval(&b).unwrap_err();
    assert_eq!(internal_message(&e), "Cannot do data_array OR, left:Null, right:Boolean");
}

#[test]
fn typed_null_constant_follows_three_valued_logic() {
    let b = block(vec![("a", boolean_column(&[Some(true), None, Some(false)]))]);
    let mut f = logic(DataValueLogicOperator::And, col("a"), Function::constant(DataValue::Boolean(None)));
    f.eval(&b).unwrap();
    assert_eq!(rows_of(&f.result().unwrap()), vec![None, None, Some(false)]);
    assert_eq!(f.display(), "a AND NULL");
}

#[test]
fn two_constants_are_repeated_to_the_block_rows() {
    let b = block(vec![("a", boolean_column(&[Some(true), Some(true)]))]);
    let mut f = logic(
        DataValueLogicOperator::Or,
        Function::constant(DataValue::Boolean(Some(false))),
        Function::constant(DataValue::Boolean(None)),
    );
    f.eval(&b).unwrap();
    assert_eq!(rows_of(&f.result().unwrap()), vec![None, None]);
}

#[test]
fn unknown_column_fails_eval() {
    let b = block(vec![("a", boolean_column(&[Some(true)]))]);
    let mut f = logic(DataValueLogicOperator::And, col("a"), col("missing"));
    let e = f.eval(&b).unwrap_err();
    assert_eq!(internal_message(&e), "Unknown column missing");
}

#[test]
fn try_create_checks_arity() {
    let one = LogicFunction::try_create(DataValueLogicOperator::And, &[col("a")]);
    assert!(matches!(one, Err(FuseQueryError::Arity(_))));
    let three = LogicFunction::try_create(DataValueLogicOperator::Or, &[col("a"), col("b"), col("c")]);
    match three {
        Err(FuseQueryError::Arity(m)) => assert_eq!(m, "Logic function needs exactly 2 arguments"),
        other => panic!("expected an arity error, got {:?}", other),
    }
    assert!(LogicFunction::try_create(DataValueLogicOperator::Or, &[]).is_err());
}

#[test]
fn display_forms() {
    let f = logic(DataValueLogicOperator::And, col("a"), col("b"));
    assert_eq!(f.display(), "a AND b");
    let g = logic(DataValueLogicOperator::And, logic(DataValueLogicOperator::Or, col("a"), col("b")), col("c"));
    assert_eq!(g.display(), "(a OR b) AND c");
    let h = logic(DataValueLogicOperator::Or, col("a"), logic(DataValueLogicOperator::And, col("b"), col("c")));
    assert_eq!(h.display(), "a OR b AND c");
    let k = logic(DataValueLogicOperator::Or, Function::constant(DataValue::Int64(Some(-3))), Function::constant(DataValue::Null));
    assert_eq!(k.display(), "-3 OR NULL");
    match &g {
        Function::Logic(l) => assert_eq!(l.display(), "(a OR b) AND c"),
        _ => panic!("not a logical node"),
    }
}

fn schema() -> DataSchema {
    DataSchema {
        fields: vec![
            DataField { name: "a".to_string(), data_type: DataType::Boolean, nullable: false },
            DataField { name: "b".to_string(), data_type: DataType::Boolean, nullable: true },
            DataField { name: "n".to_string(), data_type: DataType::UInt64, nullable: false },
        ],
    }
}

#[test]
fn return_type_and_nullable() {
    let s = schema();
    let f = logic(DataValueLogicOperator::And, col("a"), col("n"));
    assert_eq!(f.return_type(&s).unwrap(), DataType::Boolean);
    assert_eq!(f.nullable(&s).unwrap(), false);
    let g = logic(DataValueLogicOperator::Or, col("a"), col("b"));
    assert_eq!(g.nullable(&s).unwrap(), true);
    assert_eq!(col("n").return_type(&s).unwrap(), DataType::UInt64);
    assert_eq!(Function::constant(DataValue::Int8(Some(1))).return_type(&s).unwrap(), DataType::Int8);
    assert_eq!(Function::constant(DataValue::Null).nullable(&s).unwrap(), true);
    assert_eq!(Function::constant(DataValue::Boolean(None)).nullable(&s).unwrap(), true);
    assert_eq!(Function::constant(DataValue::Boolean(Some(true))).nullable(&s).unwrap(), false);
    match &g {
        Function::Logic(l) => {
            assert_eq!(l.return_type(&s).unwrap(), DataType::Boolean);
            assert_eq!(l.nullable(&s).unwrap(), true);
        },
        _ => panic!("not a logical node"),
    }
}

#[test]
fn unknown_column_is_a_type_error() {
    let s = schema();
    match col("zz").return_type(&s) {
        Err(FuseQueryError::Type(m)) => assert_eq!(m, "Unknown column zz"),
        other => panic!("expected a type error, got {:?}", other),
    }
    let f = logic(DataValueLogicOperator::And, col("a"), col("zz"));
    assert!(matches!(f.nullable(&s), Err(FuseQueryError::Type(_))));
}

#[test]
fn block_with_uneven_columns_is_refused() {
    let r = DataBlock::create(
        2,
        vec!["a".to_string(), "b".to_string()],
        vec![boolean_column(&[Some(true), None]), boolean_column(&[Some(true)])],
    );
    assert!(matches!(r, Err(FuseQueryError::Internal(_))));
    let r = DataBlock::create(1, vec!["a".to_string()], vec![]);
    assert!(r.is_err());
}
