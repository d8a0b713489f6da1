use vstd::prelude::*;
use vstd::string::StringExecFns;

use crate::data_array_logic::{data_array_logic_op, dispatch_model};
use crate::datablocks::{lemma_first_named, BlockModel, DataBlock, DataSchema};
use crate::datavalues::{op_symbol, value_text, ColumnModel, DataColumnarValue, DataType, DataValue, DataValueLogicOperator};
use crate::error::{ErrorModel, FuseQueryError, FuseQueryResult};

verus! {

/// A node of a scalar expression tree. Each node keeps the result of its
/// latest evaluation.
#[derive(Debug)]
pub enum Function {
    Column(ColumnFunction),
    Constant(ConstantFunction),
    Logic(LogicFunction),
}

/// A reference to a column of the input block, by name.
#[derive(Debug)]
pub struct ColumnFunction {
    name: String,
    saved: Option<DataColumnarValue>,
}

/// A constant scalar.
#[derive(Debug)]
pub struct ConstantFunction {
    value: DataValue,
    saved: Option<DataColumnarValue>,
}

/// A binary logical operator over two sub-expressions.
#[derive(Debug)]
pub struct LogicFunction {
    op: DataValueLogicOperator,
    left: Box<Function>,
    right: Box<Function>,
    saved: Option<DataColumnarValue>,
}

/// The message of a result read before any evaluation.
pub open spec fn unevaluated_message() -> Seq<char> {
    "Saved cannot none"@
}

/// The message of a logical node created with the wrong number of children.
pub open spec fn arity_message() -> Seq<char> {
    "Logic function needs exactly 2 arguments"@
}

/// The message of a reference to a column that is not there.
pub open spec fn unknown_column_message(name: Seq<char>) -> Seq<char> {
    "Unknown column "@ + name
}

pub open spec fn saved_model(saved: Option<DataColumnarValue>) -> Option<ColumnModel> {
    match saved {
        Some(v) => Some(v@),
        None => None,
    }
}

pub open spec fn saved_wf(saved: Option<DataColumnarValue>) -> bool {
    match saved {
        Some(v) => v.wf(),
        None => true,
    }
}

/// What a logical node yields from its operands' values on a block.
pub open spec fn logic_model(
    op: DataValueLogicOperator,
    left: Result<ColumnModel, ErrorModel>,
    right: Result<ColumnModel, ErrorModel>,
    rows: nat,
) -> Result<ColumnModel, ErrorModel> {
    match left {
        Err(e) => Err(e),
        Ok(l) => match right {
            Err(e) => Err(e),
            Ok(r) => match dispatch_model(
                op,
                ColumnModel::Array(l.as_array(rows)),
                ColumnModel::Array(r.as_array(rows)),
            ) {
                Ok(a) => Ok(ColumnModel::Array(a)),
                Err(e) => Err(e),
            },
        },
    }
}

impl Function {
    /// The value of the expression on a block, or the first error met
    /// evaluating it left to right, children first.
    pub closed spec fn eval_model(&self, b: BlockModel) -> Result<ColumnModel, ErrorModel>
        decreases self,
    {
        match self {
            Function::Column(c) => match b.column(c.name@) {
                Some(a) => Ok(ColumnModel::Array(a)),
                None => Err(ErrorModel::Internal(unknown_column_message(c.name@))),
            },
            Function::Constant(c) => Ok(ColumnModel::Scalar(c.value.value_type(), c.value.datum())),
            Function::Logic(l) => logic_model(l.op, l.left.eval_model(b), l.right.eval_model(b), b.rows),
        }
    }

    /// The cached result of the latest evaluation of this node.
    pub closed spec fn cached(&self) -> Option<ColumnModel> {
        match self {
            Function::Column(c) => saved_model(c.saved),
            Function::Constant(c) => saved_model(c.saved),
            Function::Logic(l) => saved_model(l.saved),
        }
    }

    /// Every cached result in the tree is well formed.
    pub closed spec fn wf(&self) -> bool
        decreases self,
    {
        match self {
            Function::Column(c) => saved_wf(c.saved),
            Function::Constant(c) => saved_wf(c.saved),
            Function::Logic(l) => saved_wf(l.saved) && l.left.wf() && l.right.wf(),
        }
    }

    /// No node of the tree holds a result.
    pub closed spec fn fresh(&self) -> bool
        decreases self,
    {
        match self {
            Function::Column(c) => c.saved is None,
            Function::Constant(c) => c.saved is None,
            Function::Logic(l) => l.saved is None && l.left.fresh() && l.right.fresh(),
        }
    }

    /// Every node of the tree holds its own value on `b`.
    pub closed spec fn evaluated(&self, b: BlockModel) -> bool
        decreases self,
    {
        &&& self.eval_model(b) matches Ok(v) && self.cached() == Some(v)
        &&& match self {
            Function::Logic(l) => l.left.evaluated(b) && l.right.evaluated(b),
            _ => true,
        }
    }

    /// The two trees are the same expression, whatever their caches hold.
    pub closed spec fn same_plan(&self, other: &Function) -> bool
        decreases self,
    {
        match (self, other) {
            (Function::Column(a), Function::Column(b)) => a.name@ == b.name@,
            (Function::Constant(a), Function::Constant(b)) => a.value == b.value,
            (Function::Logic(a), Function::Logic(b)) => a.op == b.op && a.left.same_plan(&*b.left)
                && a.right.same_plan(&*b.right),
            _ => false,
        }
    }

    /// The node is a logical operator `op` over trees with the plans of
    /// `left` and `right`.
    pub closed spec fn is_logic_of(&self, op: DataValueLogicOperator, left: &Function, right: &Function) -> bool {
        self matches Function::Logic(l) && l.op == op && l.left.same_plan(left) && l.right.same_plan(right)
    }

    /// The node refers to the column called `name`.
    pub closed spec fn is_column_of(&self, name: Seq<char>) -> bool {
        self matches Function::Column(c) && c.name@ == name
    }

    /// The node is the constant `value`.
    pub closed spec fn is_constant_of(&self, value: DataValue) -> bool {
        self matches Function::Constant(c) && c.value == value
    }

    /// A child of a logical node is parenthesised when it binds more loosely
    /// than its parent: an OR under an AND.
    pub closed spec fn needs_parens(&self, parent: DataValueLogicOperator) -> bool {
        self matches Function::Logic(l) && l.op == DataValueLogicOperator::Or && parent
            == DataValueLogicOperator::And
    }

    /// The text of the expression: a column's name, a constant's value, or
    /// `<left> <op> <right>`.
    pub closed spec fn display_model(&self) -> Seq<char>
        decreases self,
    {
        match self {
            Function::Column(c) => c.name@,
            Function::Constant(c) => value_text(c.value),
            Function::Logic(l) => {
                let lt = if l.left.needs_parens(l.op) {
                    "("@ + l.left.display_model() + ")"@
                } else {
                    l.left.display_model()
                };
                let rt = if l.right.needs_parens(l.op) {
                    "("@ + l.right.display_model() + ")"@
                } else {
                    l.right.display_model()
                };
                lt + " "@ + op_symbol(l.op) + " "@ + rt
            },
        }
    }

    fn binds_looser(&self, parent: DataValueLogicOperator) -> (r: bool)
        ensures
            r == self.needs_parens(parent),
    {
        match self {
            Function::Logic(l) => l.op == DataValueLogicOperator::Or && parent == DataValueLogicOperator::And,
            _ => false,
        }
    }

    fn append_operand(&self, parent: DataValueLogicOperator, s: &mut String)
        ensures
            final(s)@ == old(s)@ + if self.needs_parens(parent) {
                "("@ + self.display_model() + ")"@
            } else {
                self.display_model()
            },
        decreases self, 1nat,
    {
        if self.binds_looser(parent) {
            s.append("(");
            self.append_text(s);
            s.append(")");
        } else {
            self.append_text(s);
        }
    }

    fn append_text(&self, s: &mut String)
        ensures
            final(s)@ == old(s)@ + self.display_model(),
        decreases self, 0nat,
    {
        match self {
            Function::Column(c) => s.append(c.name.as_str()),
            Function::Constant(c) => {
                let t = c.value.to_text();
                s.append(t.as_str());
            },
            Function::Logic(l) => l.append_text(s),
        }
        proof {
            assert(s@ =~= old(s)@ + self.display_model());
        }
    }

    /// The expression as text, as plan output shows it.
    pub fn display(&self) -> (r: String)
        ensures
            r@ == self.display_model(),
    {
        let mut s = String::new();
        self.append_text(&mut s);
        proof {
            assert(s@ =~= self.display_model());
        }
        s
    }

    /// The element type of the expression's value under `s`.
    pub closed spec fn type_model(&self, s: &DataSchema) -> Result<DataType, ErrorModel> {
        match self {
            Function::Column(c) => match s.field(c.name@) {
                Some(f) => Ok(f.data_type),
                None => Err(ErrorModel::Type(unknown_column_message(c.name@))),
            },
            Function::Constant(c) => Ok(c.value.value_type()),
            Function::Logic(_) => Ok(DataType::Boolean),
        }
    }

    /// Whether the expression's value may hold nulls under `s`: a logical
    /// node may when either operand may.
    pub closed spec fn nullable_model(&self, s: &DataSchema) -> Result<bool, ErrorModel>
        decreases self,
    {
        match self {
            Function::Column(c) => match s.field(c.name@) {
                Some(f) => Ok(f.nullable),
                None => Err(ErrorModel::Type(unknown_column_message(c.name@))),
            },
            Function::Constant(c) => Ok(c.value.datum() is None),
            Function::Logic(l) => match l.left.nullable_model(s) {
                Err(e) => Err(e),
                Ok(a) => match l.right.nullable_model(s) {
                    Err(e) => Err(e),
                    Ok(b) => Ok(a || b),
                },
            },
        }
    }

    /// A reference to the column called `name`.
    pub fn column(name: String) -> (r: Function)
        ensures
            r.fresh(),
            r.wf(),
            r.is_column_of(name@),
    {
        Function::Column(ColumnFunction { name, saved: None })
    }

    /// The constant `value`.
    pub fn constant(value: DataValue) -> (r: Function)
        ensures
            r.fresh(),
            r.wf(),
            r.is_constant_of(value),
    {
        Function::Constant(ConstantFunction { value, saved: None })
    }

    pub fn return_type(&self, schema: &DataSchema) -> (r: FuseQueryResult<DataType>)
        ensures
            match r {
                Ok(t) => self.type_model(schema) == Ok::<DataType, ErrorModel>(t),
                Err(e) => self.type_model(schema) == Err::<DataType, ErrorModel>(e@),
            },
    {
        match self {
            Function::Column(c) => match schema.field_by_name(&c.name) {
                Some(f) => Ok(f.data_type),
                None => Err(unknown_column(&c.name)),
            },
            Function::Constant(c) => Ok(c.value.data_type()),
            Function::Logic(l) => l.return_type(schema),
        }
    }

    pub fn nullable(&self, schema: &DataSchema) -> (r: FuseQueryResult<bool>)
        ensures
            match r {
                Ok(b) => self.nullable_model(schema) == Ok::<bool, ErrorModel>(b),
                Err(e) => self.nullable_model(schema) == Err::<bool, ErrorModel>(e@),
            },
        decreases self,
    {
        match self {
            Function::Column(c) => match schema.field_by_name(&c.name) {
                Some(f) => Ok(f.nullable),
                None => Err(unknown_column(&c.name)),
            },
            Function::Constant(c) => Ok(c.value.is_null()),
            Function::Logic(l) => l.nullable(schema),
        }
    }

    /// Evaluates the tree on `block`, children first, and caches each node's
    /// result. On failure the node holds no result.
    pub fn eval(&mut self, block: &DataBlock) -> (r: FuseQueryResult<()>)
        requires
            old(self).wf(),
            block.wf(),
        ensures
            final(self).wf(),
            final(self).same_plan(&*old(self)),
            final(self).eval_model(block@) == old(self).eval_model(block@),
            match r {
                Ok(_) => old(self).eval_model(block@) is Ok && final(self).evaluated(block@),
                Err(e) => old(self).eval_model(block@) == Err::<ColumnModel, ErrorModel>(e@)
                    && final(self).cached() is None,
            },
        decreases *old(self),
    {
        match self {
            Function::Column(c) => {
                c.saved = None;
                match block.column_by_name(&c.name) {
                    Some(a) => {
                        c.saved = Some(DataColumnarValue::Array(a.clone()));
                        Ok(())
                    },
                    None => {
                        let mut m = String::from_str("Unknown column ");
                        m.append(c.name.as_str());
                        Err(FuseQueryError::Internal(m))
                    },
                }
            },
            Function::Constant(c) => {
                c.saved = Some(DataColumnarValue::Scalar(c.value.clone()));
                Ok(())
            },
            Function::Logic(l) => l.eval(block),
        }
    }

    /// The result of the latest evaluation.
    pub fn result(&self) -> (r: FuseQueryResult<DataColumnarValue>)
        requires
            self.wf(),
        ensures
            match self.cached() {
                Some(v) => r matches Ok(c) && c@ == v && c.wf(),
                None => r matches Err(e) && e@ == ErrorModel::Internal(unevaluated_message()),
            },
    {
        match self {
            Function::Column(c) => read_saved(&c.saved),
            Function::Constant(c) => read_saved(&c.saved),
            Function::Logic(l) => read_saved(&l.saved),
        }
    }
}

/// Every tree has the same plan as itself.
pub proof fn lemma_same_plan_refl(f: &Function)
    ensures
        f.same_plan(f),
    decreases f,
{
    if let Function::Logic(l) = f {
        lemma_same_plan_refl(&*l.left);
        lemma_same_plan_refl(&*l.right);
    }
}

/// Trees with the same plan have the same value on every block: a tree's
/// value does not depend on what its caches hold.
pub proof fn lemma_same_plan_eval(a: &Function, b: &Function, blk: BlockModel)
    requires
        a.same_plan(b),
    ensures
        a.eval_model(blk) == b.eval_model(blk),
    decreases a,
{
    if let (Function::Logic(x), Function::Logic(y)) = (a, b) {
        lemma_same_plan_eval(&*x.left, &*y.left, blk);
        lemma_same_plan_eval(&*x.right, &*y.right, blk);
    }
}

/// A copy of a cached result, or the error of an empty cache.
fn read_saved(saved: &Option<DataColumnarValue>) -> (r: FuseQueryResult<DataColumnarValue>)
    requires
        saved_wf(*saved),
    ensures
        match saved_model(*saved) {
            Some(v) => r matches Ok(c) && c@ == v && c.wf(),
            None => r matches Err(e) && e@ == ErrorModel::Internal(unevaluated_message()),
        },
{
    match saved {
        Some(v) => Ok(v.clone()),
        None => Err(FuseQueryError::Internal(String::from_str("Saved cannot none"))),
    }
}

fn unknown_column(name: &String) -> (r: FuseQueryError)
    ensures
        r@ == ErrorModel::Type(unknown_column_message(name@)),
{
    let mut m = String::from_str("Unknown column ");
    m.append(name.as_str());
    FuseQueryError::Type(m)
}

impl Clone for Function {
    /// A copy of the expression with empty caches.
    fn clone(&self) -> (r: Self)
        ensures
            r.same_plan(self),
            r.fresh(),
            r.wf(),
        decreases self,
    {
        match self {
            Function::Column(c) => Function::Column(ColumnFunction { name: c.name.clone(), saved: None }),
            Function::Constant(c) => Function::Constant(ConstantFunction { value: c.value.clone(), saved: None }),
            Function::Logic(l) => Function::Logic(
                LogicFunction {
                    op: l.op,
                    left: Box::new((&*l.left).clone()),
                    right: Box::new((&*l.right).clone()),
                    saved: None,
                },
            ),
        }
    }
}

/// On a well-formed block of `n` rows, an expression's value has length `n`:
/// after a successful evaluation every node's cached result has the block's
/// row count.
pub proof fn lemma_eval_preserves_length(f: &Function, b: BlockModel)
    requires
        b.wf(),
    ensures
        f.eval_model(b) matches Ok(v) ==> v.len(b.rows) == b.rows,
        f.evaluated(b) ==> (f.cached() matches Some(v) && v.len(b.rows) == b.rows),
    decreases f,
{
    match f {
        Function::Column(c) => {
            lemma_first_named(b.names, c.name@);
        },
        Function::Constant(_) => {},
        Function::Logic(l) => {
            lemma_eval_preserves_length(&*l.left, b);
            lemma_eval_preserves_length(&*l.right, b);
        },
    }
}

/// Evaluating a tree again on the same block caches the same result:
/// evaluation keeps the plan, and a tree's value depends on its plan and
/// the block alone.
pub proof fn lemma_eval_idempotent(first: &Function, second: &Function, b: BlockModel)
    requires
        first.evaluated(b),
        second.evaluated(b),
        second.same_plan(first),
    ensures
        second.cached() == first.cached(),
{
    lemma_same_plan_eval(second, first, b);
}

/// A fresh tree, such as a clone, holds no result, so reading it fails with
/// "Saved cannot none" until it is evaluated.
pub proof fn lemma_fresh_has_no_result(f: &Function)
    requires
        f.fresh(),
    ensures
        f.cached() is None,
{
}

/// The nullability of a logical node from its operands': the first error,
/// else whether either may be null.
pub open spec fn operands_nullable(left: Result<bool, ErrorModel>, right: Result<bool, ErrorModel>) -> Result<
    bool,
    ErrorModel,
> {
    match left {
        Err(e) => Err(e),
        Ok(a) => match right {
            Err(e) => Err(e),
            Ok(b) => Ok(a || b),
        },
    }
}

/// How an operand is written under a parent operator.
pub open spec fn operand_text(f: Function, parent: DataValueLogicOperator) -> Seq<char> {
    if f.needs_parens(parent) {
        "("@ + f.display_model() + ")"@
    } else {
        f.display_model()
    }
}

/// Having the same plan is symmetric.
pub proof fn lemma_same_plan_symmetric(a: &Function, b: &Function)
    requires
        a.same_plan(b),
    ensures
        b.same_plan(a),
    decreases a,
{
    if let (Function::Logic(x), Function::Logic(y)) = (a, b) {
        lemma_same_plan_symmetric(&*x.left, &*y.left);
        lemma_same_plan_symmetric(&*x.right, &*y.right);
    }
}

/// Having the same plan is transitive.
pub proof fn lemma_same_plan_transitive(a: &Function, b: &Function, c: &Function)
    requires
        a.same_plan(b),
        b.same_plan(c),
    ensures
        a.same_plan(c),
    decreases a,
{
    if let (Function::Logic(x), Function::Logic(y), Function::Logic(z)) = (a, b, c) {
        lemma_same_plan_transitive(&*x.left, &*y.left, &*z.left);
        lemma_same_plan_transitive(&*x.right, &*y.right, &*z.right);
    }
}

/// Trees with the same plan have the same type, nullability and text.
pub proof fn lemma_same_plan_agree(a: &Function, b: &Function, s: &DataSchema, parent: DataValueLogicOperator)
    requires
        a.same_plan(b),
    ensures
        a.type_model(s) == b.type_model(s),
        a.nullable_model(s) == b.nullable_model(s),
        a.display_model() == b.display_model(),
        a.needs_parens(parent) == b.needs_parens(parent),
    decreases a,
{
    if let (Function::Logic(x), Function::Logic(y)) = (a, b) {
        lemma_same_plan_agree(&*x.left, &*y.left, s, x.op);
        lemma_same_plan_agree(&*x.right, &*y.right, s, x.op);
    }
}

/// A tree with the plan of a logical node is that logical node; so is a
/// clone of one.
pub proof fn lemma_same_plan_logic(
    a: &Function,
    b: &Function,
    op: DataValueLogicOperator,
    l: &Function,
    r: &Function,
)
    requires
        a.is_logic_of(op, l, r),
        b.same_plan(a),
    ensures
        b.is_logic_of(op, l, r),
{
    if let (Function::Logic(x), Function::Logic(y)) = (a, b) {
        lemma_same_plan_transitive(&*y.left, &*x.left, l);
        lemma_same_plan_transitive(&*y.right, &*x.right, r);
    }
}

/// A logical node's node is itself built from its parts.
pub proof fn lemma_logic_parts(l: &LogicFunction)
    ensures
        Function::Logic(*l).is_logic_of(l.operator(), &l.left_operand(), &l.right_operand()),
        Function::Logic(*l).wf() ==> l.left_operand().wf() && l.right_operand().wf(),
        Function::Logic(*l).fresh() ==> l.left_operand().fresh() && l.right_operand().fresh(),
{
    lemma_same_plan_refl(&*l.left);
    lemma_same_plan_refl(&*l.right);
}

/// What a logical node `op` over `l` and `r` means: its value combines the
/// operands' values through the dispatcher, it is boolean, nullable when
/// either operand is, and written `<l> <op> <r>`.
pub proof fn lemma_logic_node(
    f: &Function,
    op: DataValueLogicOperator,
    l: &Function,
    r: &Function,
    b: BlockModel,
    s: &DataSchema,
    parent: DataValueLogicOperator,
)
    requires
        f.is_logic_of(op, l, r),
    ensures
        f.eval_model(b) == logic_model(op, l.eval_model(b), r.eval_model(b), b.rows),
        f.type_model(s) == Ok::<DataType, ErrorModel>(DataType::Boolean),
        f.nullable_model(s) == operands_nullable(l.nullable_model(s), r.nullable_model(s)),
        f.display_model() == operand_text(*l, op) + " "@ + op_symbol(op) + " "@ + operand_text(*r, op),
        f.needs_parens(parent) == (op == DataValueLogicOperator::Or && parent == DataValueLogicOperator::And),
        f.evaluated(b) ==> l.eval_model(b) is Ok && r.eval_model(b) is Ok,
{
    if let Function::Logic(x) = f {
        lemma_same_plan_eval(&*x.left, l, b);
        lemma_same_plan_eval(&*x.right, r, b);
        lemma_same_plan_agree(&*x.left, l, s, op);
        lemma_same_plan_agree(&*x.right, r, s, op);
        if f.evaluated(b) {
            lemma_evaluated_cached(&*x.left, b);
            lemma_evaluated_cached(&*x.right, b);
        }
    }
}

/// What a column reference means: the block's column of that name, the
/// schema's field of that name, and the name as its text.
pub proof fn lemma_column_node(f: &Function, name: Seq<char>, b: BlockModel, s: &DataSchema)
    requires
        f.is_column_of(name),
    ensures
        f.eval_model(b) == match b.column(name) {
            Some(a) => Ok(ColumnModel::Array(a)),
            None => Err(ErrorModel::Internal(unknown_column_message(name))),
        },
        f.type_model(s) == match s.field(name) {
            Some(fd) => Ok(fd.data_type),
            None => Err(ErrorModel::Type(unknown_column_message(name))),
        },
        f.nullable_model(s) == match s.field(name) {
            Some(fd) => Ok(fd.nullable),
            None => Err::<bool, ErrorModel>(ErrorModel::Type(unknown_column_message(name))),
        },
        f.display_model() == name,
        forall|p: DataValueLogicOperator| !f.needs_parens(p),
{
}

/// What a constant means: itself as a scalar, of its own type, nullable
/// when it is null, written as its value.
pub proof fn lemma_constant_node(f: &Function, v: DataValue, b: BlockModel, s: &DataSchema)
    requires
        f.is_constant_of(v),
    ensures
        f.eval_model(b) == Ok::<ColumnModel, ErrorModel>(ColumnModel::Scalar(v.value_type(), v.datum())),
        f.type_model(s) == Ok::<DataType, ErrorModel>(v.value_type()),
        f.nullable_model(s) == Ok::<bool, ErrorModel>(v.datum() is None),
        f.display_model() == value_text(v),
        forall|p: DataValueLogicOperator| !f.needs_parens(p),
{
}

/// An evaluated tree caches its own value, and so does each logical node's
/// operands.
pub proof fn lemma_evaluated_cached(f: &Function, b: BlockModel)
    requires
        f.evaluated(b),
    ensures
        f.eval_model(b) is Ok,
        f.cached() == Some(f.eval_model(b)->Ok_0),
        f matches Function::Logic(l) ==> l.left_operand().evaluated(b) && l.right_operand().evaluated(b),
{
}

impl LogicFunction {
    pub closed spec fn operator(&self) -> DataValueLogicOperator {
        self.op
    }

    pub closed spec fn left_operand(&self) -> Function {
        *self.left
    }

    pub closed spec fn right_operand(&self) -> Function {
        *self.right
    }

    /// A logical node over fresh copies of the two arguments; fails unless
    /// there are exactly two.
    pub fn try_create(op: DataValueLogicOperator, args: &[Function]) -> (r: FuseQueryResult<Function>)
        ensures
            r is Err <==> args@.len() != 2,
            match r {
                Ok(f) => f.fresh() && f.wf() && f.is_logic_of(op, &args@[0], &args@[1]),
                Err(e) => e@ == ErrorModel::Arity(arity_message()),
            },
    {
        if args.len() != 2 {
            return Err(FuseQueryError::Arity(String::from_str("Logic function needs exactly 2 arguments")));
        }
        Ok(
            Function::Logic(
                LogicFunction {
                    op,
                    left: Box::new(args[0].clone()),
                    right: Box::new(args[1].clone()),
                    saved: None,
                },
            ),
        )
    }

    /// A logical operator always yields booleans.
    pub fn return_type(&self, _input_schema: &DataSchema) -> (r: FuseQueryResult<DataType>)
        ensures
            r matches Ok(t) && t == DataType::Boolean,
    {
        Ok(DataType::Boolean)
    }

    /// Whether the value may hold nulls: when either operand's may.
    pub fn nullable(&self, input_schema: &DataSchema) -> (r: FuseQueryResult<bool>)
        ensures
            match r {
                Ok(b) => Function::Logic(*self).nullable_model(input_schema) == Ok::<bool, ErrorModel>(b),
                Err(e) => Function::Logic(*self).nullable_model(input_schema) == Err::<bool, ErrorModel>(e@),
            },
        decreases *self,
    {
        let a = match self.left.nullable(input_schema) {
            Ok(a) => a,
            Err(e) => return Err(e),
        };
        let b = match self.right.nullable(input_schema) {
            Ok(b) => b,
            Err(e) => return Err(e),
        };
        Ok(a || b)
    }

    /// The node as text: `<left> <op> <right>`.
    pub fn display(&self) -> (r: String)
        ensures
            r@ == Function::Logic(*self).display_model(),
    {
        let mut s = String::new();
        self.append_text(&mut s);
        proof {
            assert(s@ =~= Function::Logic(*self).display_model());
        }
        s
    }

    fn append_text(&self, s: &mut String)
        ensures
            final(s)@ == old(s)@ + Function::Logic(*self).display_model(),
        decreases self, 0nat,
    {
        self.left.append_operand(self.op, s);
        s.append(" ");
        s.append(self.op.symbol());
        s.append(" ");
        self.right.append_operand(self.op, s);
        proof {
            assert(s@ =~= old(s)@ + Function::Logic(*self).display_model());
        }
    }

    /// The result of the latest evaluation.
    pub fn result(&self) -> (r: FuseQueryResult<DataColumnarValue>)
        requires
            Function::Logic(*self).wf(),
        ensures
            match Function::Logic(*self).cached() {
                Some(v) => r matches Ok(c) && c@ == v && c.wf(),
                None => r matches Err(e) && e@ == ErrorModel::Internal(unevaluated_message()),
            },
    {
        read_saved(&self.saved)
    }

    /// Evaluates both operands, then applies the operator to their values,
    /// scalars repeated to the block's row count.
    pub fn eval(&mut self, block: &DataBlock) -> (r: FuseQueryResult<()>)
        requires
            Function::Logic(*old(self)).wf(),
            block.wf(),
        ensures
            Function::Logic(*final(self)).wf(),
            Function::Logic(*final(self)).same_plan(&Function::Logic(*old(self))),
            Function::Logic(*final(self)).eval_model(block@) == Function::Logic(*old(self)).eval_model(block@),
            match r {
                Ok(_) => Function::Logic(*old(self)).eval_model(block@) is Ok && Function::Logic(
                    *final(self),
                ).evaluated(block@),
                Err(e) => Function::Logic(*old(self)).eval_model(block@) == Err::<ColumnModel, ErrorModel>(e@)
                    && Function::Logic(*final(self)).cached() is None,
            },
            old(self).left_operand().eval_model(block@) is Err ==> final(self).right_operand()
                == old(self).right_operand(),
        decreases *old(self),
    {
        self.saved = None;
        proof {
            lemma_same_plan_refl(&*self.right);
        }
        match self.left.eval(block) {
            Ok(_) => {},
            Err(e) => return Err(e),
        }
        proof {
            lemma_same_plan_eval(&*self.left, &*old(self).left, block@);
        }
        match self.right.eval(block) {
            Ok(_) => {},
            Err(e) => return Err(e),
        }
        proof {
            lemma_same_plan_eval(&*self.right, &*old(self).right, block@);
        }
        let lv = match self.left.result() {
            Ok(v) => v,
            Err(e) => return Err(e),
        };
        let rv = match self.right.result() {
            Ok(v) => v,
            Err(e) => return Err(e),
        };
        let rows = block.num_rows();
        let la = DataColumnarValue::Array(lv.as_array(rows));
        let ra = DataColumnarValue::Array(rv.as_array(rows));
        match data_array_logic_op(self.op, &la, &ra) {
            Ok(a) => {
                self.saved = Some(DataColumnarValue::Array(a));
                Ok(())
            },
            Err(e) => Err(e),
        }
    }
}

} // verus!
