use vstd::prelude::*;
use vstd::string::StringExecFns;

verus! {

/// The element type of a column or scalar.
#[derive(Clone, Copy, Debug, PartialEq, Eq, Structural)]
pub enum DataType {
    Null,
    Boolean,
    Int8,
    Int16,
    Int32,
    Int64,
    UInt8,
    UInt16,
    UInt32,
    UInt64,
    Float32,
    Float64,
    Utf8,
}

/// The canonical textual form of a type, as it appears in plan output.
pub open spec fn data_type_name(t: DataType) -> Seq<char> {
    match t {
        DataType::Null => "Null"@,
        DataType::Boolean => "Boolean"@,
        DataType::Int8 => "Int8"@,
        DataType::Int16 => "Int16"@,
        DataType::Int32 => "Int32"@,
        DataType::Int64 => "Int64"@,
        DataType::UInt8 => "UInt8"@,
        DataType::UInt16 => "UInt16"@,
        DataType::UInt32 => "UInt32"@,
        DataType::UInt64 => "UInt64"@,
        DataType::Float32 => "Float32"@,
        DataType::Float64 => "Float64"@,
        DataType::Utf8 => "Utf8"@,
    }
}

impl DataType {
    pub fn name(&self) -> (r: &'static str)
        ensures
            r@ == data_type_name(*self),
    {
        match self {
            DataType::Null => "Null",
            DataType::Boolean => "Boolean",
            DataType::Int8 => "Int8",
            DataType::Int16 => "Int16",
            DataType::Int32 => "Int32",
            DataType::Int64 => "Int64",
            DataType::UInt8 => "UInt8",
            DataType::UInt16 => "UInt16",
            DataType::UInt32 => "UInt32",
            DataType::UInt64 => "UInt64",
            DataType::Float32 => "Float32",
            DataType::Float64 => "Float64",
            DataType::Utf8 => "Utf8",
        }
    }
}

/// A binary logical operator.
#[derive(Clone, Copy, Debug, PartialEq, Eq, Structural)]
pub enum DataValueLogicOperator {
    And,
    Or,
}

/// The operator's symbol in plan output.
pub open spec fn op_symbol(op: DataValueLogicOperator) -> Seq<char> {
    match op {
        DataValueLogicOperator::And => "AND"@,
        DataValueLogicOperator::Or => "OR"@,
    }
}

impl DataValueLogicOperator {
    pub fn symbol(&self) -> (r: &'static str)
        ensures
            r@ == op_symbol(*self),
    {
        match self {
            DataValueLogicOperator::And => "AND",
            DataValueLogicOperator::Or => "OR",
        }
    }
}

/// What a non-null cell holds, independent of its physical width.
pub enum Datum {
    Boolean(bool),
    Int(int),
    Utf8(Seq<char>),
}

/// A single scalar value of a type; `None` inside a typed variant is a null
/// of that type, and `Null` is the untyped null.
#[derive(Debug)]
pub enum DataValue {
    Null,
    Boolean(Option<bool>),
    Int8(Option<i8>),
    Int16(Option<i16>),
    Int32(Option<i32>),
    Int64(Option<i64>),
    UInt8(Option<u8>),
    UInt16(Option<u16>),
    UInt32(Option<u32>),
    UInt64(Option<u64>),
    Utf8(Option<String>),
}

impl DataValue {
    pub open spec fn value_type(&self) -> DataType {
        match self {
            DataValue::Null => DataType::Null,
            DataValue::Boolean(_) => DataType::Boolean,
            DataValue::Int8(_) => DataType::Int8,
            DataValue::Int16(_) => DataType::Int16,
            DataValue::Int32(_) => DataType::Int32,
            DataValue::Int64(_) => DataType::Int64,
            DataValue::UInt8(_) => DataType::UInt8,
            DataValue::UInt16(_) => DataType::UInt16,
            DataValue::UInt32(_) => DataType::UInt32,
            DataValue::UInt64(_) => DataType::UInt64,
            DataValue::Utf8(_) => DataType::Utf8,
        }
    }

    /// The value's content; `None` for null.
    pub open spec fn datum(&self) -> Option<Datum> {
        match self {
            DataValue::Null => None,
            DataValue::Boolean(b) => match b {
                Some(b) => Some(Datum::Boolean(*b)),
                None => None,
            },
            DataValue::Int8(x) => match x {
                Some(x) => Some(Datum::Int(*x as int)),
                None => None,
            },
            DataValue::Int16(x) => match x {
                Some(x) => Some(Datum::Int(*x as int)),
                None => None,
            },
            DataValue::Int32(x) => match x {
                Some(x) => Some(Datum::Int(*x as int)),
                None => None,
            },
            DataValue::Int64(x) => match x {
                Some(x) => Some(Datum::Int(*x as int)),
                None => None,
            },
            DataValue::UInt8(x) => match x {
                Some(x) => Some(Datum::Int(*x as int)),
                None => None,
            },
            DataValue::UInt16(x) => match x {
                Some(x) => Some(Datum::Int(*x as int)),
                None => None,
            },
            DataValue::UInt32(x) => match x {
                Some(x) => Some(Datum::Int(*x as int)),
                None => None,
            },
            DataValue::UInt64(x) => match x {
                Some(x) => Some(Datum::Int(*x as int)),
                None => None,
            },
            DataValue::Utf8(s) => match s {
                Some(s) => Some(Datum::Utf8(s@)),
                None => None,
            },
        }
    }

    pub fn is_null(&self) -> (r: bool)
        ensures
            r == (self.datum() is None),
    {
        match self {
            DataValue::Null => true,
            DataValue::Boolean(x) => x.is_none(),
            DataValue::Int8(x) => x.is_none(),
            DataValue::Int16(x) => x.is_none(),
            DataValue::Int32(x) => x.is_none(),
            DataValue::Int64(x) => x.is_none(),
            DataValue::UInt8(x) => x.is_none(),
            DataValue::UInt16(x) => x.is_none(),
            DataValue::UInt32(x) => x.is_none(),
            DataValue::UInt64(x) => x.is_none(),
            DataValue::Utf8(x) => x.is_none(),
        }
    }

    pub fn data_type(&self) -> (r: DataType)
        ensures
            r == self.value_type(),
    {
        match self {
            DataValue::Null => DataType::Null,
            DataValue::Boolean(_) => DataType::Boolean,
            DataValue::Int8(_) => DataType::Int8,
            DataValue::Int16(_) => DataType::Int16,
            DataValue::Int32(_) => DataType::Int32,
            DataValue::Int64(_) => DataType::Int64,
            DataValue::UInt8(_) => DataType::UInt8,
            DataValue::UInt16(_) => DataType::UInt16,
            DataValue::UInt32(_) => DataType::UInt32,
            DataValue::UInt64(_) => DataType::UInt64,
            DataValue::Utf8(_) => DataType::Utf8,
        }
    }
}

impl Clone for DataValue {
    fn clone(&self) -> (r: Self)
        ensures
            r == *self,
    {
        match self {
            DataValue::Null => DataValue::Null,
            DataValue::Boolean(b) => DataValue::Boolean(*b),
            DataValue::Int8(x) => DataValue::Int8(*x),
            DataValue::Int16(x) => DataValue::Int16(*x),
            DataValue::Int32(x) => DataValue::Int32(*x),
            DataValue::Int64(x) => DataValue::Int64(*x),
            DataValue::UInt8(x) => DataValue::UInt8(*x),
            DataValue::UInt16(x) => DataValue::UInt16(*x),
            DataValue::UInt32(x) => DataValue::UInt32(*x),
            DataValue::UInt64(x) => DataValue::UInt64(*x),
            DataValue::Utf8(s) => DataValue::Utf8(
                match s {
                    Some(t) => Some(t.clone()),
                    None => None,
                },
            ),
        }
    }
}

/// The dense values buffer of an array, one slot per row, tagged by type.
/// A `Null` buffer only records how many rows it has.
#[derive(Debug)]
pub enum ArrayValues {
    Null(usize),
    Boolean(Vec<bool>),
    Int8(Vec<i8>),
    Int16(Vec<i16>),
    Int32(Vec<i32>),
    Int64(Vec<i64>),
    UInt8(Vec<u8>),
    UInt16(Vec<u16>),
    UInt32(Vec<u32>),
    UInt64(Vec<u64>),
    Utf8(Vec<String>),
}

impl ArrayValues {
    pub open spec fn spec_len(&self) -> nat {
        match self {
            ArrayValues::Null(n) => *n as nat,
            ArrayValues::Boolean(v) => v@.len(),
            ArrayValues::Int8(v) => v@.len(),
            ArrayValues::Int16(v) => v@.len(),
            ArrayValues::Int32(v) => v@.len(),
            ArrayValues::Int64(v) => v@.len(),
            ArrayValues::UInt8(v) => v@.len(),
            ArrayValues::UInt16(v) => v@.len(),
            ArrayValues::UInt32(v) => v@.len(),
            ArrayValues::UInt64(v) => v@.len(),
            ArrayValues::Utf8(v) => v@.len(),
        }
    }

    pub open spec fn value_type(&self) -> DataType {
        match self {
            ArrayValues::Null(_) => DataType::Null,
            ArrayValues::Boolean(_) => DataType::Boolean,
            ArrayValues::Int8(_) => DataType::Int8,
            ArrayValues::Int16(_) => DataType::Int16,
            ArrayValues::Int32(_) => DataType::Int32,
            ArrayValues::Int64(_) => DataType::Int64,
            ArrayValues::UInt8(_) => DataType::UInt8,
            ArrayValues::UInt16(_) => DataType::UInt16,
            ArrayValues::UInt32(_) => DataType::UInt32,
            ArrayValues::UInt64(_) => DataType::UInt64,
            ArrayValues::Utf8(_) => DataType::Utf8,
        }
    }

    /// The content of slot `i`, ignoring the null mask.
    pub open spec fn datum_at(&self, i: int) -> Option<Datum> {
        match self {
            ArrayValues::Null(_) => None,
            ArrayValues::Boolean(v) => Some(Datum::Boolean(v@[i])),
            ArrayValues::Int8(v) => Some(Datum::Int(v@[i] as int)),
            ArrayValues::Int16(v) => Some(Datum::Int(v@[i] as int)),
            ArrayValues::Int32(v) => Some(Datum::Int(v@[i] as int)),
            ArrayValues::Int64(v) => Some(Datum::Int(v@[i] as int)),
            ArrayValues::UInt8(v) => Some(Datum::Int(v@[i] as int)),
            ArrayValues::UInt16(v) => Some(Datum::Int(v@[i] as int)),
            ArrayValues::UInt32(v) => Some(Datum::Int(v@[i] as int)),
            ArrayValues::UInt64(v) => Some(Datum::Int(v@[i] as int)),
            ArrayValues::Utf8(v) => Some(Datum::Utf8(v@[i]@)),
        }
    }

    pub fn len(&self) -> (r: usize)
        ensures
            r == self.spec_len(),
    {
        match self {
            ArrayValues::Null(n) => *n,
            ArrayValues::Boolean(v) => v.len(),
            ArrayValues::Int8(v) => v.len(),
            ArrayValues::Int16(v) => v.len(),
            ArrayValues::Int32(v) => v.len(),
            ArrayValues::Int64(v) => v.len(),
            ArrayValues::UInt8(v) => v.len(),
            ArrayValues::UInt16(v) => v.len(),
            ArrayValues::UInt32(v) => v.len(),
            ArrayValues::UInt64(v) => v.len(),
            ArrayValues::Utf8(v) => v.len(),
        }
    }
}

impl Clone for ArrayValues {
    fn clone(&self) -> (r: Self)
        ensures
            r.value_type() == self.value_type(),
            r.spec_len() == self.spec_len(),
            forall|i: int| 0 <= i < self.spec_len() ==> r.datum_at(i) == self.datum_at(i),
    {
        match self {
            ArrayValues::Null(n) => ArrayValues::Null(*n),
            ArrayValues::Boolean(v) => {
                let c = v.clone();
                assert(c@ =~= v@);
                ArrayValues::Boolean(c)
            },
            ArrayValues::Int8(v) => {
                let c = v.clone();
                assert(c@ =~= v@);
                ArrayValues::Int8(c)
            },
            ArrayValues::Int16(v) => {
                let c = v.clone();
                assert(c@ =~= v@);
                ArrayValues::Int16(c)
            },
            ArrayValues::Int32(v) => {
                let c = v.clone();
                assert(c@ =~= v@);
                ArrayValues::Int32(c)
            },
            ArrayValues::Int64(v) => {
                let c = v.clone();
                assert(c@ =~= v@);
                ArrayValues::Int64(c)
            },
            ArrayValues::UInt8(v) => {
                let c = v.clone();
                assert(c@ =~= v@);
                ArrayValues::UInt8(c)
            },
            ArrayValues::UInt16(v) => {
                let c = v.clone();
                assert(c@ =~= v@);
                ArrayValues::UInt16(c)
            },
            ArrayValues::UInt32(v) => {
                let c = v.clone();
                assert(c@ =~= v@);
                ArrayValues::UInt32(c)
            },
            ArrayValues::UInt64(v) => {
                let c = v.clone();
                assert(c@ =~= v@);
                ArrayValues::UInt64(c)
            },
            ArrayValues::Utf8(v) => {
                let c = v.clone();
                assert(c@ =~= v@);
                ArrayValues::Utf8(c)
            },
        }
    }
}

/// What an array means: its element type and, per row, its content or null.
pub struct ArrayModel {
    pub data_type: DataType,
    pub cells: Seq<Option<Datum>>,
}

impl ArrayModel {
    /// The rows of a boolean array as three-valued booleans.
    pub open spec fn bools(self) -> Seq<Option<bool>> {
        self.cells.map_values(
            |c: Option<Datum>|
                match c {
                    Some(Datum::Boolean(b)) => Some(b),
                    _ => None,
                },
        )
    }
}

/// The cell holding a three-valued boolean.
pub open spec fn bool_cell(o: Option<bool>) -> Option<Datum> {
    match o {
        Some(b) => Some(Datum::Boolean(b)),
        None => None,
    }
}

/// The boolean array whose rows are `s`.
pub open spec fn boolean_model(s: Seq<Option<bool>>) -> ArrayModel {
    ArrayModel { data_type: DataType::Boolean, cells: s.map_values(|o: Option<bool>| bool_cell(o)) }
}

/// A column: a typed values buffer and an optional null mask (`true` marks
/// a valid row; no mask means no nulls).
#[derive(Debug)]
pub struct DataArray {
    pub values: ArrayValues,
    pub validity: Option<Vec<bool>>,
}

impl DataArray {
    /// The mask, when present, has one entry per row.
    pub open spec fn wf(&self) -> bool {
        match self.validity {
            None => true,
            Some(m) => m@.len() == self.values.spec_len(),
        }
    }

    pub open spec fn is_valid(&self, i: int) -> bool {
        match self.validity {
            None => true,
            Some(m) => m@[i],
        }
    }

    /// Builds an array from a values buffer and an optional null mask; fails
    /// when the mask's length differs from the buffer's.
    pub fn try_new(values: ArrayValues, validity: Option<Vec<bool>>) -> (r: Result<
        DataArray,
        crate::error::FuseQueryError,
    >)
        ensures
            match validity {
                Some(m) => m@.len() != values.spec_len(),
                None => false,
            } <==> r is Err,
            r matches Ok(a) ==> a.wf() && a.values == values && a.validity == validity,
            r matches Err(e) ==> e@ == crate::error::ErrorModel::Internal(mask_mismatch_message()),
    {
        let n = values.len();
        let bad = match &validity {
            Some(m) => m.len() != n,
            None => false,
        };
        if bad {
            Err(crate::error::FuseQueryError::Internal(String::from_str("Null mask length differs from the array length")))
        } else {
            Ok(DataArray { values, validity })
        }
    }

    /// Number of rows.
    pub fn len(&self) -> (r: usize)
        ensures
            r == self@.cells.len(),
    {
        self.values.len()
    }

    pub fn data_type(&self) -> (r: DataType)
        ensures
            r == self@.data_type,
    {
        match &self.values {
            ArrayValues::Null(_) => DataType::Null,
            ArrayValues::Boolean(_) => DataType::Boolean,
            ArrayValues::Int8(_) => DataType::Int8,
            ArrayValues::Int16(_) => DataType::Int16,
            ArrayValues::Int32(_) => DataType::Int32,
            ArrayValues::Int64(_) => DataType::Int64,
            ArrayValues::UInt8(_) => DataType::UInt8,
            ArrayValues::UInt16(_) => DataType::UInt16,
            ArrayValues::UInt32(_) => DataType::UInt32,
            ArrayValues::UInt64(_) => DataType::UInt64,
            ArrayValues::Utf8(_) => DataType::Utf8,
        }
    }

    pub fn is_null(&self, i: usize) -> (r: bool)
        requires
            self.wf(),
            i < self@.cells.len(),
        ensures
            r == (self@.cells[i as int] is None),
    {
        match &self.values {
            ArrayValues::Null(_) => true,
            _ => match &self.validity {
                None => false,
                Some(m) => !m[i],
            },
        }
    }

    /// An array of `n` copies of `v`.
    pub fn repeat(v: &DataValue, n: usize) -> (r: DataArray)
        ensures
            r.wf(),
            r@ == (ArrayModel { data_type: v.value_type(), cells: Seq::new(n as nat, |i: int| v.datum()) }),
    {
        let values = match v {
            DataValue::Null => ArrayValues::Null(n),
            DataValue::Boolean(x) => ArrayValues::Boolean(
                vec![
                    match x {
                        Some(b) => *b,
                        None => false,
                    }; n],
            ),
            DataValue::Int8(x) => ArrayValues::Int8(
                vec![
                    match x {
                        Some(y) => *y,
                        None => 0,
                    }; n],
            ),
            DataValue::Int16(x) => ArrayValues::Int16(
                vec![
                    match x {
                        Some(y) => *y,
                        None => 0,
                    }; n],
            ),
            DataValue::Int32(x) => ArrayValues::Int32(
                vec![
                    match x {
                        Some(y) => *y,
                        None => 0,
                    }; n],
            ),
            DataValue::Int64(x) => ArrayValues::Int64(
                vec![
                    match x {
                        Some(y) => *y,
                        None => 0,
                    }; n],
            ),
            DataValue::UInt8(x) => ArrayValues::UInt8(
                vec![
                    match x {
                        Some(y) => *y,
                        None => 0,
                    }; n],
            ),
            DataValue::UInt16(x) => ArrayValues::UInt16(
                vec![
                    match x {
                        Some(y) => *y,
                        None => 0,
                    }; n],
            ),
            DataValue::UInt32(x) => ArrayValues::UInt32(
                vec![
                    match x {
                        Some(y) => *y,
                        None => 0,
                    }; n],
            ),
            DataValue::UInt64(x) => ArrayValues::UInt64(
                vec![
                    match x {
                        Some(y) => *y,
                        None => 0,
                    }; n],
            ),
            DataValue::Utf8(x) => ArrayValues::Utf8(
                vec![
                    match x {
                        Some(t) => t.clone(),
                        None => String::new(),
                    }; n],
            ),
        };
        let validity = if v.is_null() {
            Some(vec![false; n])
        } else {
            None
        };
        let r = DataArray { values, validity };
        assert(r@.cells =~= Seq::new(n as nat, |i: int| v.datum()));
        r
    }
}

pub open spec fn mask_mismatch_message() -> Seq<char> {
    "Null mask length differs from the array length"@
}

impl View for DataArray {
    type V = ArrayModel;

    open spec fn view(&self) -> ArrayModel {
        ArrayModel {
            data_type: self.values.value_type(),
            cells: Seq::new(
                self.values.spec_len(),
                |i: int|
                    if self.is_valid(i) {
                        self.values.datum_at(i)
                    } else {
                        None
                    },
            ),
        }
    }
}

impl Clone for DataArray {
    fn clone(&self) -> (r: Self)
        ensures
            r@ == self@,
            r.wf() == self.wf(),
    {
        let values = self.values.clone();
        let validity = match &self.validity {
            None => None,
            Some(m) => {
                let c = m.clone();
                assert(c@ =~= m@);
                Some(c)
            },
        };
        let r = DataArray { values, validity };
        assert(r@.cells =~= self@.cells);
        r
    }
}

/// The value of an expression over a block: a column, or a scalar that
/// stands for itself repeated on every row.
#[derive(Debug)]
pub enum DataColumnarValue {
    Array(DataArray),
    Scalar(DataValue),
}

/// What a columnar value means.
pub enum ColumnModel {
    Array(ArrayModel),
    Scalar(DataType, Option<Datum>),
}

impl ColumnModel {
    pub open spec fn data_type(self) -> DataType {
        match self {
            ColumnModel::Array(a) => a.data_type,
            ColumnModel::Scalar(t, _) => t,
        }
    }

    /// Logical length on a block of `rows` rows.
    pub open spec fn len(self, rows: nat) -> nat {
        match self {
            ColumnModel::Array(a) => a.cells.len(),
            ColumnModel::Scalar(_, _) => rows,
        }
    }

    /// The value as an array of a block of `rows` rows.
    pub open spec fn as_array(self, rows: nat) -> ArrayModel {
        match self {
            ColumnModel::Array(a) => a,
            ColumnModel::Scalar(t, d) => ArrayModel { data_type: t, cells: Seq::new(rows, |i: int| d) },
        }
    }
}

impl View for DataColumnarValue {
    type V = ColumnModel;

    open spec fn view(&self) -> ColumnModel {
        match self {
            DataColumnarValue::Array(a) => ColumnModel::Array(a@),
            DataColumnarValue::Scalar(v) => ColumnModel::Scalar(v.value_type(), v.datum()),
        }
    }
}

impl DataColumnarValue {
    pub open spec fn wf(&self) -> bool {
        match self {
            DataColumnarValue::Array(a) => a.wf(),
            DataColumnarValue::Scalar(_) => true,
        }
    }

    pub fn data_type(&self) -> (r: DataType)
        ensures
            r == self@.data_type(),
    {
        match self {
            DataColumnarValue::Array(a) => a.data_type(),
            DataColumnarValue::Scalar(v) => v.data_type(),
        }
    }

    pub fn len(&self, block_rows: usize) -> (r: usize)
        ensures
            r == self@.len(block_rows as nat),
    {
        match self {
            DataColumnarValue::Array(a) => a.len(),
            DataColumnarValue::Scalar(_) => block_rows,
        }
    }

    /// The value as an array: an array is copied, a scalar is repeated
    /// `block_rows` times.
    pub fn as_array(&self, block_rows: usize) -> (r: DataArray)
        requires
            self.wf(),
        ensures
            r.wf(),
            r@ == self@.as_array(block_rows as nat),
    {
        match self {
            DataColumnarValue::Array(a) => a.clone(),
            DataColumnarValue::Scalar(v) => DataArray::repeat(v, block_rows),
        }
    }
}

impl Clone for DataColumnarValue {
    fn clone(&self) -> (r: Self)
        ensures
            r@ == self@,
            r.wf() == self.wf(),
    {
        match self {
            DataColumnarValue::Array(a) => DataColumnarValue::Array(a.clone()),
            DataColumnarValue::Scalar(v) => DataColumnarValue::Scalar(v.clone()),
        }
    }
}

/// The decimal digit `d`.
pub open spec fn digit_text(d: nat) -> Seq<char> {
    if d == 0 {
        "0"@
    } else if d == 1 {
        "1"@
    } else if d == 2 {
        "2"@
    } else if d == 3 {
        "3"@
    } else if d == 4 {
        "4"@
    } else if d == 5 {
        "5"@
    } else if d == 6 {
        "6"@
    } else if d == 7 {
        "7"@
    } else if d == 8 {
        "8"@
    } else {
        "9"@
    }
}

/// The decimal form of `n`, without leading zeros.
pub open spec fn decimal(n: nat) -> Seq<char>
    decreases n,
{
    if n < 10 {
        digit_text(n)
    } else {
        decimal(n / 10) + digit_text(n % 10)
    }
}

/// The decimal form of `x`, with a leading `-` when negative.
pub open spec fn int_text(x: int) -> Seq<char> {
    if x < 0 {
        "-"@ + decimal((-x) as nat)
    } else {
        decimal(x as nat)
    }
}

/// How a value is written in an expression: `NULL`, `true`, `false`, a
/// decimal integer, or a quoted string.
pub open spec fn value_text(v: DataValue) -> Seq<char> {
    match v.datum() {
        None => "NULL"@,
        Some(Datum::Boolean(b)) => if b {
            "true"@
        } else {
            "false"@
        },
        Some(Datum::Int(x)) => int_text(x),
        Some(Datum::Utf8(s)) => "'"@ + s + "'"@,
    }
}

fn digit(d: u64) -> (r: &'static str)
    requires
        d < 10,
    ensures
        r@ == digit_text(d as nat),
{
    if d == 0 {
        "0"
    } else if d == 1 {
        "1"
    } else if d == 2 {
        "2"
    } else if d == 3 {
        "3"
    } else if d == 4 {
        "4"
    } else if d == 5 {
        "5"
    } else if d == 6 {
        "6"
    } else if d == 7 {
        "7"
    } else if d == 8 {
        "8"
    } else {
        "9"
    }
}

fn append_decimal(s: &mut String, n: u64)
    ensures
        final(s)@ == old(s)@ + decimal(n as nat),
    decreases n,
{
    if n >= 10 {
        append_decimal(s, n / 10);
    }
    s.append(digit(n % 10));
    proof {
        if n < 10 {
            assert(n % 10 == n);
        }
    }
}

fn append_signed(s: &mut String, x: i64)
    ensures
        final(s)@ == old(s)@ + int_text(x as int),
{
    if x < 0 {
        s.append("-");
        let m = (0i128 - x as i128) as u64;
        append_decimal(s, m);
    } else {
        append_decimal(s, x as u64);
    }
}

impl DataValue {
    /// The value as written in an expression.
    pub fn to_text(&self) -> (r: String)
        ensures
            r@ == value_text(*self),
    {
        let mut s = String::new();
        match self {
            DataValue::Null => s.append("NULL"),
            DataValue::Boolean(b) => match b {
                Some(true) => s.append("true"),
                Some(false) => s.append("false"),
                None => s.append("NULL"),
            },
            DataValue::Int8(x) => match x {
                Some(x) => append_signed(&mut s, *x as i64),
                None => s.append("NULL"),
            },
            DataValue::Int16(x) => match x {
                Some(x) => append_signed(&mut s, *x as i64),
                None => s.append("NULL"),
            },
            DataValue::Int32(x) => match x {
                Some(x) => append_signed(&mut s, *x as i64),
                None => s.append("NULL"),
            },
            DataValue::Int64(x) => match x {
                Some(x) => append_signed(&mut s, *x as i64),
                None => s.append("NULL"),
            },
            DataValue::UInt8(x) => match x {
                Some(x) => append_decimal(&mut s, *x as u64),
                None => s.append("NULL"),
            },
            DataValue::UInt16(x) => match x {
                Some(x) => append_decimal(&mut s, *x as u64),
                None => s.append("NULL"),
            },
            DataValue::UInt32(x) => match x {
                Some(x) => append_decimal(&mut s, *x as u64),
                None => s.append("NULL"),
            },
            DataValue::UInt64(x) => match x {
                Some(x) => append_decimal(&mut s, *x as u64),
                None => s.append("NULL"),
            },
            DataValue::Utf8(t) => match t {
                Some(t) => {
                    s.append("'");
                    s.append(t.as_str());
                    s.append("'");
                },
                None => s.append("NULL"),
            },
        }
        proof {
            assert(s@ =~= value_text(*self));
        }
        s
    }
}

} // verus!
