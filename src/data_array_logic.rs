use vstd::prelude::*;
use vstd::string::StringExecFns;

use crate::datavalues::{
    boolean_model, data_type_name, op_symbol, ArrayModel, ArrayValues, ColumnModel,
    DataArray, DataColumnarValue, DataType, DataValueLogicOperator,
};
use crate::error::{ErrorModel, FuseQueryError, FuseQueryResult};

verus! {

/// Three-valued AND: false wins over null, true needs both sides true.
pub open spec fn and3(a: Option<bool>, b: Option<bool>) -> Option<bool> {
    if a == Some(false) || b == Some(false) {
        Some(false)
    } else if a == Some(true) && b == Some(true) {
        Some(true)
    } else {
        None
    }
}

/// Three-valued OR: true wins over null, false needs both sides false.
pub open spec fn or3(a: Option<bool>, b: Option<bool>) -> Option<bool> {
    if a == Some(true) || b == Some(true) {
        Some(true)
    } else if a == Some(false) && b == Some(false) {
        Some(false)
    } else {
        None
    }
}

/// Three-valued NOT: null stays null.
pub open spec fn not3(a: Option<bool>) -> Option<bool> {
    match a {
        Some(b) => Some(!b),
        None => None,
    }
}

pub open spec fn logic3(op: DataValueLogicOperator, a: Option<bool>, b: Option<bool>) -> Option<bool> {
    match op {
        DataValueLogicOperator::And => and3(a, b),
        DataValueLogicOperator::Or => or3(a, b),
    }
}

/// `op` applied row by row.
pub open spec fn logic_rows(op: DataValueLogicOperator, l: Seq<Option<bool>>, r: Seq<Option<bool>>) -> Seq<
    Option<bool>,
> {
    Seq::new(l.len(), |i: int| logic3(op, l[i], r[i]))
}

/// NOT applied row by row.
pub open spec fn not_rows(s: Seq<Option<bool>>) -> Seq<Option<bool>> {
    s.map_values(|a: Option<bool>| not3(a))
}

/// The message of a rejected operator/type combination.
pub open spec fn unsupported_message(op: DataValueLogicOperator, left: DataType, right: DataType) -> Seq<
    char,
> {
    "Cannot do data_array "@ + op_symbol(op) + ", left:"@ + data_type_name(left) + ", right:"@
        + data_type_name(right)
}

/// The message of a length mismatch between two operands.
pub open spec fn length_mismatch_message(op: DataValueLogicOperator) -> Seq<char> {
    "Cannot do data_array "@ + op_symbol(op) + ", left and right have different lengths"@
}

/// The message of a pair of scalar operands, which have no row count to be
/// repeated to.
pub open spec fn two_scalars_message(op: DataValueLogicOperator) -> Seq<char> {
    "Cannot do data_array "@ + op_symbol(op) + " over two scalars"@
}

/// What the kernel dispatch returns for `op` over two arrays.
pub open spec fn array_dispatch_model(op: DataValueLogicOperator, l: ArrayModel, r: ArrayModel) -> Result<
    ArrayModel,
    ErrorModel,
> {
    if l.data_type == DataType::Boolean && r.data_type == DataType::Boolean {
        if l.cells.len() == r.cells.len() {
            Ok(boolean_model(logic_rows(op, l.bools(), r.bools())))
        } else {
            Err(ErrorModel::Internal(length_mismatch_message(op)))
        }
    } else {
        Err(ErrorModel::Internal(unsupported_message(op, l.data_type, r.data_type)))
    }
}

/// What the dispatcher returns for `op` over two columnar values. A scalar
/// beside an array is repeated to the array's length first. Two scalars
/// carry no row count: they are rejected, by type when either is not
/// boolean.
pub open spec fn dispatch_model(op: DataValueLogicOperator, left: ColumnModel, right: ColumnModel) -> Result<
    ArrayModel,
    ErrorModel,
> {
    match (left, right) {
        (ColumnModel::Array(l), ColumnModel::Array(r)) => array_dispatch_model(op, l, r),
        (ColumnModel::Scalar(_, _), ColumnModel::Array(r)) => array_dispatch_model(
            op,
            left.as_array(r.cells.len()),
            r,
        ),
        (ColumnModel::Array(l), ColumnModel::Scalar(_, _)) => array_dispatch_model(
            op,
            l,
            right.as_array(l.cells.len()),
        ),
        (ColumnModel::Scalar(lt, _), ColumnModel::Scalar(rt, _)) => {
            if lt == DataType::Boolean && rt == DataType::Boolean {
                Err(ErrorModel::Internal(two_scalars_message(op)))
            } else {
                Err(ErrorModel::Internal(unsupported_message(op, lt, rt)))
            }
        },
    }
}

fn logic_row(op: DataValueLogicOperator, a: Option<bool>, b: Option<bool>) -> (r: Option<bool>)
    ensures
        r == logic3(op, a, b),
{
    match op {
        DataValueLogicOperator::And => {
            if a == Some(false) || b == Some(false) {
                Some(false)
            } else if a == Some(true) && b == Some(true) {
                Some(true)
            } else {
                None
            }
        },
        DataValueLogicOperator::Or => {
            if a == Some(true) || b == Some(true) {
                Some(true)
            } else if a == Some(false) && b == Some(false) {
                Some(false)
            } else {
                None
            }
        },
    }
}

/// Row `i` of a boolean array.
fn bool_at(a: &DataArray, i: usize) -> (r: Option<bool>)
    requires
        a.wf(),
        a@.data_type == DataType::Boolean,
        i < a@.cells.len(),
    ensures
        r == a@.bools()[i as int],
{
    match &a.values {
        ArrayValues::Boolean(v) => {
            let valid = match &a.validity {
                None => true,
                Some(m) => m[i],
            };
            if valid {
                Some(v[i])
            } else {
                None
            }
        },
        _ => None,
    }
}

/// Builds a boolean array from per-row results held as values and mask.
fn boolean_array(values: Vec<bool>, mask: Vec<bool>, Ghost(rows): Ghost<Seq<Option<bool>>>) -> (r: DataArray)
    requires
        values@.len() == mask@.len(),
        rows.len() == values@.len(),
        forall|j: int|
            0 <= j < rows.len() ==> rows[j] == (if mask@[j] {
                Some(values@[j])
            } else {
                None
            }),
    ensures
        r.wf(),
        r@ == boolean_model(rows),
{
    let r = DataArray { values: ArrayValues::Boolean(values), validity: Some(mask) };
    assert(r@.cells =~= boolean_model(rows).cells);
    r
}

/// Applies `op` row by row to two boolean arrays of equal length.
fn boolean_logic(op: DataValueLogicOperator, left: &DataArray, right: &DataArray) -> (r: DataArray)
    requires
        left.wf(),
        right.wf(),
        left@.data_type == DataType::Boolean,
        right@.data_type == DataType::Boolean,
        left@.cells.len() == right@.cells.len(),
    ensures
        r.wf(),
        r@ == boolean_model(logic_rows(op, left@.bools(), right@.bools())),
{
    let n = left.len();
    let ghost rows = logic_rows(op, left@.bools(), right@.bools());
    let mut values: Vec<bool> = Vec::new();
    let mut mask: Vec<bool> = Vec::new();
    let mut i: usize = 0;
    while i < n
        invariant
            n == left@.cells.len(),
            n == right@.cells.len(),
            left.wf(),
            right.wf(),
            left@.data_type == DataType::Boolean,
            right@.data_type == DataType::Boolean,
            rows == logic_rows(op, left@.bools(), right@.bools()),
            i <= n,
            values@.len() == i,
            mask@.len() == i,
            forall|j: int|
                0 <= j < i ==> rows[j] == (if mask@[j] {
                    Some(values@[j])
                } else {
                    None
                }),
        decreases n - i,
    {
        let out = logic_row(op, bool_at(left, i), bool_at(right, i));
        match out {
            Some(b) => {
                values.push(b);
                mask.push(true);
            },
            None => {
                values.push(false);
                mask.push(false);
            },
        }
        i = i + 1;
    }
    boolean_array(values, mask, Ghost(rows))
}

/// Row-wise three-valued AND of two boolean arrays of equal length. The
/// inputs are only read; the result is a fresh array.
pub fn boolean_and(left: &DataArray, right: &DataArray) -> (r: DataArray)
    requires
        left.wf(),
        right.wf(),
        left@.data_type == DataType::Boolean,
        right@.data_type == DataType::Boolean,
        left@.cells.len() == right@.cells.len(),
    ensures
        r.wf(),
        r@ == boolean_model(logic_rows(DataValueLogicOperator::And, left@.bools(), right@.bools())),
{
    boolean_logic(DataValueLogicOperator::And, left, right)
}

/// Row-wise three-valued OR of two boolean arrays of equal length. The
/// inputs are only read; the result is a fresh array.
pub fn boolean_or(left: &DataArray, right: &DataArray) -> (r: DataArray)
    requires
        left.wf(),
        right.wf(),
        left@.data_type == DataType::Boolean,
        right@.data_type == DataType::Boolean,
        left@.cells.len() == right@.cells.len(),
    ensures
        r.wf(),
        r@ == boolean_model(logic_rows(DataValueLogicOperator::Or, left@.bools(), right@.bools())),
{
    boolean_logic(DataValueLogicOperator::Or, left, right)
}

/// Row-wise three-valued NOT of a boolean array.
pub fn boolean_not(input: &DataArray) -> (r: DataArray)
    requires
        input.wf(),
        input@.data_type == DataType::Boolean,
    ensures
        r.wf(),
        r@ == boolean_model(not_rows(input@.bools())),
{
    let n = input.len();
    let ghost rows = not_rows(input@.bools());
    let mut values: Vec<bool> = Vec::new();
    let mut mask: Vec<bool> = Vec::new();
    let mut i: usize = 0;
    while i < n
        invariant
            n == input@.cells.len(),
            input.wf(),
            input@.data_type == DataType::Boolean,
            rows == not_rows(input@.bools()),
            i <= n,
            values@.len() == i,
            mask@.len() == i,
            forall|j: int|
                0 <= j < i ==> rows[j] == (if mask@[j] {
                    Some(values@[j])
                } else {
                    None
                }),
        decreases n - i,
    {
        match bool_at(input, i) {
            Some(b) => {
                values.push(!b);
                mask.push(true);
            },
            None => {
                values.push(false);
                mask.push(false);
            },
        }
        i = i + 1;
    }
    boolean_array(values, mask, Ghost(rows))
}

fn unsupported_error(op: DataValueLogicOperator, left: DataType, right: DataType) -> (r: FuseQueryError)
    ensures
        r@ == ErrorModel::Internal(unsupported_message(op, left, right)),
{
    let mut s = String::from_str("Cannot do data_array ");
    s.append(op.symbol());
    s.append(", left:");
    s.append(left.name());
    s.append(", right:");
    s.append(right.name());
    FuseQueryError::Internal(s)
}

/// Applies the kernel of `op` to two arrays: both must be boolean, of equal
/// length.
fn array_logic_op(op: DataValueLogicOperator, l: &DataArray, r: &DataArray) -> (res: FuseQueryResult<
    DataArray,
>)
    requires
        l.wf(),
        r.wf(),
    ensures
        match res {
            Ok(a) => a.wf() && array_dispatch_model(op, l@, r@) == Ok::<ArrayModel, ErrorModel>(a@),
            Err(e) => array_dispatch_model(op, l@, r@) == Err::<ArrayModel, ErrorModel>(e@),
        },
{
    let lt = l.data_type();
    let rt = r.data_type();
    if lt == DataType::Boolean && rt == DataType::Boolean {
        if l.len() == r.len() {
            match op {
                DataValueLogicOperator::And => Ok(boolean_and(l, r)),
                DataValueLogicOperator::Or => Ok(boolean_or(l, r)),
            }
        } else {
            let mut s = String::from_str("Cannot do data_array ");
            s.append(op.symbol());
            s.append(", left and right have different lengths");
            Err(FuseQueryError::Internal(s))
        }
    } else {
        Err(unsupported_error(op, lt, rt))
    }
}

/// Applies a logical operator to two columnar values. Two boolean arrays
/// must have equal length; a scalar beside an array is repeated to the
/// array's length. Non-boolean operands are rejected with an `Internal`
/// error naming the operator and both types, and so are two scalars, which
/// have no row count.
pub fn data_array_logic_op(
    op: DataValueLogicOperator,
    left: &DataColumnarValue,
    right: &DataColumnarValue,
) -> (r: FuseQueryResult<DataArray>)
    requires
        left.wf(),
        right.wf(),
    ensures
        match r {
            Ok(a) => a.wf() && dispatch_model(op, left@, right@) == Ok::<ArrayModel, ErrorModel>(a@),
            Err(e) => dispatch_model(op, left@, right@) == Err::<ArrayModel, ErrorModel>(e@),
        },
{
    match (left, right) {
        (DataColumnarValue::Array(l), DataColumnarValue::Array(r)) => array_logic_op(op, l, r),
        (DataColumnarValue::Scalar(v), DataColumnarValue::Array(r)) => {
            let l = DataArray::repeat(v, r.len());
            array_logic_op(op, &l, r)
        },
        (DataColumnarValue::Array(l), DataColumnarValue::Scalar(v)) => {
            let r = DataArray::repeat(v, l.len());
            array_logic_op(op, l, &r)
        },
        (DataColumnarValue::Scalar(lv), DataColumnarValue::Scalar(rv)) => {
            let lt = lv.data_type();
            let rt = rv.data_type();
            if lt == DataType::Boolean && rt == DataType::Boolean {
                let mut s = String::from_str("Cannot do data_array ");
                s.append(op.symbol());
                s.append(" over two scalars");
                Err(FuseQueryError::Internal(s))
            } else {
                Err(unsupported_error(op, lt, rt))
            }
        },
    }
}

/// AND and OR are commutative row by row under three-valued logic, so the
/// kernels give the same array whichever operand comes first.
pub proof fn lemma_logic_commutative(op: DataValueLogicOperator, l: Seq<Option<bool>>, r: Seq<Option<bool>>)
    requires
        l.len() == r.len(),
    ensures
        logic_rows(op, l, r) == logic_rows(op, r, l),
        boolean_model(logic_rows(op, l, r)) == boolean_model(logic_rows(op, r, l)),
{
    assert(logic_rows(op, l, r) =~= logic_rows(op, r, l));
}

/// De Morgan under three-valued logic: NOT (L AND R) is (NOT L) OR (NOT R),
/// row by row.
pub proof fn lemma_de_morgan(l: Seq<Option<bool>>, r: Seq<Option<bool>>)
    requires
        l.len() == r.len(),
    ensures
        not_rows(logic_rows(DataValueLogicOperator::And, l, r)) == logic_rows(
            DataValueLogicOperator::Or,
            not_rows(l),
            not_rows(r),
        ),
{
    assert(not_rows(logic_rows(DataValueLogicOperator::And, l, r)) =~= logic_rows(
        DataValueLogicOperator::Or,
        not_rows(l),
        not_rows(r),
    ));
}

/// A logical operator with a non-boolean operand is rejected with an
/// `Internal` error whose message begins "Cannot do data_array".
pub proof fn lemma_dispatch_rejects_non_boolean(
    op: DataValueLogicOperator,
    left: ColumnModel,
    right: ColumnModel,
)
    requires
        left.data_type() != DataType::Boolean || right.data_type() != DataType::Boolean,
    ensures
        dispatch_model(op, left, right) matches Err(ErrorModel::Internal(m)) && "Cannot do data_array"@.is_prefix_of(m),
{
    reveal_strlit("Cannot do data_array");
    reveal_strlit("Cannot do data_array ");
    let m = unsupported_message(op, left.data_type(), right.data_type());
    assert(m.subrange(0, 20) =~= "Cannot do data_array"@);
}

} // verus!
