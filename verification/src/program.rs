//! The expression-language core: values, operators, the expression tree,
//! the environment of variable bindings, and the recursive evaluator.
//!
//! Every executable item is specified against a ghost model: `Value`,
//! `Expr` and `Environment` are mirrored by `ValueModel`, `ExprModel` and a
//! `Map` from names to optional bound expressions, and the evaluator is
//! specified by the recursive `eval_spec` function over those models.

use vstd::prelude::*;

verus! {

/// Identifier of a binary operator. Arithmetic and bitwise operators take two
/// `Int` operands and yield an `Int`; comparisons take two `Int` operands and
/// yield a `Bool`; `And` and `Or` take two `Bool` operands and yield a `Bool`.
#[derive(Debug, Clone, Copy, PartialEq, Eq)]
pub enum BinaryOp {
    Add,
    Sub,
    Mul,
    Div,
    BitAnd,
    BitOr,
    Lt,
    Le,
    Gt,
    Ge,
    Eq,
    And,
    Or,
}

/// Identifier of a unary operator: boolean negation only.
#[derive(Debug, Clone, Copy, PartialEq, Eq)]
pub enum UnaryOp {
    Not,
}

/// The tag of a runtime value, used in type-mismatch diagnostics.
#[derive(Debug, Clone, Copy, PartialEq, Eq)]
pub enum ValueKind {
    Int,
    Bool,
    Var,
    Closure,
}

/// The operator (or conditional position) at which a type mismatch arose.
#[derive(Debug, Clone, Copy, PartialEq, Eq)]
pub enum OpKind {
    Binary(BinaryOp),
    Unary(UnaryOp),
    Condition,
}

/// A runtime value: an integer, a boolean, an unresolved variable reference,
/// or a closure (a one-parameter function together with the environment that
/// was current at its definition).
#[derive(Debug, PartialEq, Eq)]
pub enum Value {
    Int(i64),
    Bool(bool),
    Var(String),
    Closure { param: String, body: Box<Expr>, env: Box<Environment> },
}

/// A node of the abstract syntax tree.
#[derive(Debug, PartialEq, Eq)]
pub enum Expr {
    Leaf(Value),
    UnaryOp { val: Box<Expr>, op: UnaryOp },
    BinOp { left: Box<Expr>, right: Box<Expr>, op: BinaryOp },
    If { cond: Box<Expr>, then_branch: Box<Expr>, else_branch: Box<Expr> },
    Func { param: String, body: Box<Expr> },
    Apply { func: Box<Expr>, arg: Box<Expr> },
}

/// The variable bindings of a program: a list of entries, newest first.
/// A name may map to a bound expression or to an explicitly empty slot
/// (declared but unbound). Lookup takes the newest entry for a name.
#[derive(Debug, PartialEq, Eq)]
pub enum Environment {
    Empty,
    Binding { name: String, bound: Option<Expr>, rest: Box<Environment> },
}

/// A failure of evaluation. All failures are reported as values; evaluation
/// never panics.
#[derive(Debug, PartialEq, Eq)]
pub enum EvalError {
    /// The operand tags do not satisfy the operator's signature (or the
    /// condition of an `If` did not reduce to a `Bool`).
    TypeMismatch { operator: OpKind, first: ValueKind, second: Option<ValueKind> },
    /// Integer division with a zero divisor.
    DivisionByZero,
    /// A variable name absent from the environment.
    UndefinedVariable(String),
    /// A variable name present in the environment but with an empty slot.
    UnboundVariable(String),
    /// The target of an `Apply` did not reduce to a closure.
    NotCallable,
    /// The recursion guard tripped.
    DepthExceeded,
}

/// Ghost model of a `Value`; names are modelled as character sequences.
pub enum ValueModel {
    Int(i64),
    Bool(bool),
    Var(Seq<char>),
    Closure { param: Seq<char>, body: Box<ExprModel>, env: EnvModel },
}

/// Ghost model of an `Expr`.
pub enum ExprModel {
    Leaf(ValueModel),
    UnaryOp { val: Box<ExprModel>, op: UnaryOp },
    BinOp { left: Box<ExprModel>, right: Box<ExprModel>, op: BinaryOp },
    If { cond: Box<ExprModel>, then_branch: Box<ExprModel>, else_branch: Box<ExprModel> },
    Func { param: Seq<char>, body: Box<ExprModel> },
    Apply { func: Box<ExprModel>, arg: Box<ExprModel> },
}

/// Ghost model of an `Environment`: what each name resolves to. `None` for a
/// name means the name is not mapped; `Some(None)` means declared but unbound.
pub type EnvModel = Map<Seq<char>, Option<ExprModel>>;

/// Ghost model of an `EvalError`.
pub enum ErrorModel {
    TypeMismatch { operator: OpKind, first: ValueKind, second: Option<ValueKind> },
    DivisionByZero,
    UndefinedVariable(Seq<char>),
    UnboundVariable(Seq<char>),
    NotCallable,
    DepthExceeded,
}

pub open spec fn value_model(v: Value) -> ValueModel
    decreases v,
{
    match v {
        Value::Int(i) => ValueModel::Int(i),
        Value::Bool(b) => ValueModel::Bool(b),
        Value::Var(name) => ValueModel::Var(name@),
        Value::Closure { param, body, env } => ValueModel::Closure {
            param: param@,
            body: Box::new(expr_model(*body)),
            env: env_model(*env),
        },
    }
}

pub open spec fn expr_model(e: Expr) -> ExprModel
    decreases e,
{
    match e {
        Expr::Leaf(v) => ExprModel::Leaf(value_model(v)),
        Expr::UnaryOp { val, op } => ExprModel::UnaryOp { val: Box::new(expr_model(*val)), op },
        Expr::BinOp { left, right, op } => ExprModel::BinOp {
            left: Box::new(expr_model(*left)),
            right: Box::new(expr_model(*right)),
            op,
        },
        Expr::If { cond, then_branch, else_branch } => ExprModel::If {
            cond: Box::new(expr_model(*cond)),
            then_branch: Box::new(expr_model(*then_branch)),
            else_branch: Box::new(expr_model(*else_branch)),
        },
        Expr::Func { param, body } => ExprModel::Func {
            param: param@,
            body: Box::new(expr_model(*body)),
        },
        Expr::Apply { func, arg } => ExprModel::Apply {
            func: Box::new(expr_model(*func)),
            arg: Box::new(expr_model(*arg)),
        },
    }
}

pub open spec fn opt_expr_model(o: Option<Expr>) -> Option<ExprModel>
    decreases o,
{
    match o {
        None => None,
        Some(e) => Some(expr_model(e)),
    }
}

pub open spec fn env_model(env: Environment) -> EnvModel
    decreases env,
{
    match env {
        Environment::Empty => Map::empty(),
        Environment::Binding { name, bound, rest } => env_model(*rest).insert(
            name@,
            opt_expr_model(bound),
        ),
    }
}

pub open spec fn error_model(e: EvalError) -> ErrorModel {
    match e {
        EvalError::TypeMismatch { operator, first, second } => ErrorModel::TypeMismatch {
            operator,
            first,
            second,
        },
        EvalError::DivisionByZero => ErrorModel::DivisionByZero,
        EvalError::UndefinedVariable(name) => ErrorModel::UndefinedVariable(name@),
        EvalError::UnboundVariable(name) => ErrorModel::UnboundVariable(name@),
        EvalError::NotCallable => ErrorModel::NotCallable,
        EvalError::DepthExceeded => ErrorModel::DepthExceeded,
    }
}

/// Ghost model of an evaluation outcome.
pub open spec fn result_model(r: Result<Value, EvalError>) -> Result<ValueModel, ErrorModel> {
    match r {
        Ok(v) => Ok(value_model(v)),
        Err(e) => Err(error_model(e)),
    }
}

pub open spec fn kind_of(v: ValueModel) -> ValueKind {
    match v {
        ValueModel::Int(_) => ValueKind::Int,
        ValueModel::Bool(_) => ValueKind::Bool,
        ValueModel::Var(_) => ValueKind::Var,
        ValueModel::Closure { .. } => ValueKind::Closure,
    }
}

/// The semantics of every binary operator, as a total function over model
/// values. Arithmetic wraps on `i64` overflow; division by `Int(0)` fails
/// with `DivisionByZero` before any division is performed; operands whose
/// tags do not match the operator's signature fail with `TypeMismatch`, and
/// no coercion between `Int` and `Bool` ever occurs.
pub open spec fn apply_binary(op: BinaryOp, l: ValueModel, r: ValueModel) -> Result<
    ValueModel,
    ErrorModel,
> {
    match (l, r) {
        (ValueModel::Int(a), ValueModel::Int(b)) => match op {
            BinaryOp::Add => Ok(ValueModel::Int(vstd::wrapping::i64_specs::wrapping_add(a, b))),
            BinaryOp::Sub => Ok(ValueModel::Int(vstd::wrapping::i64_specs::wrapping_sub(a, b))),
            BinaryOp::Mul => Ok(ValueModel::Int(vstd::wrapping::i64_specs::wrapping_mul(a, b))),
            BinaryOp::Div => if b == 0 {
                Err(ErrorModel::DivisionByZero)
            } else {
                match i64::checked_div(a, b) {
                    Some(q) => Ok(ValueModel::Int(q)),
                    None => Ok(ValueModel::Int(i64::MIN)),
                }
            },
            BinaryOp::BitAnd => Ok(ValueModel::Int(a & b)),
            BinaryOp::BitOr => Ok(ValueModel::Int(a | b)),
            BinaryOp::Lt => Ok(ValueModel::Bool(a < b)),
            BinaryOp::Le => Ok(ValueModel::Bool(a <= b)),
            BinaryOp::Gt => Ok(ValueModel::Bool(a > b)),
            BinaryOp::Ge => Ok(ValueModel::Bool(a >= b)),
            BinaryOp::Eq => Ok(ValueModel::Bool(a == b)),
            _ => Err(ErrorModel::TypeMismatch {
                operator: OpKind::Binary(op),
                first: ValueKind::Int,
                second: Some(ValueKind::Int),
            }),
        },
        (ValueModel::Bool(x), ValueModel::Bool(y)) => match op {
            BinaryOp::And => Ok(ValueModel::Bool(x && y)),
            BinaryOp::Or => Ok(ValueModel::Bool(x || y)),
            _ => Err(ErrorModel::TypeMismatch {
                operator: OpKind::Binary(op),
                first: ValueKind::Bool,
                second: Some(ValueKind::Bool),
            }),
        },
        _ => Err(ErrorModel::TypeMismatch {
            operator: OpKind::Binary(op),
            first: kind_of(l),
            second: Some(kind_of(r)),
        }),
    }
}

/// The semantics of the unary operator: boolean negation of a `Bool`, and a
/// `TypeMismatch` on any other operand.
pub open spec fn apply_unary(op: UnaryOp, v: ValueModel) -> Result<ValueModel, ErrorModel> {
    match v {
        ValueModel::Bool(b) => Ok(ValueModel::Bool(!b)),
        _ => Err(ErrorModel::TypeMismatch {
            operator: OpKind::Unary(op),
            first: kind_of(v),
            second: None,
        }),
    }
}

/// The semantics of evaluation: reduce an expression to a value or a failure,
/// consuming one unit of fuel per recursion step. A `Leaf` holding `Int`,
/// `Bool` or a closure is returned unchanged; a `Var` leaf is resolved
/// against the environment; operands are evaluated left to right and errors
/// propagate unchanged; an `If` evaluates its condition and then exactly one
/// branch; a `Func` reduces to a closure capturing the current environment;
/// an `Apply` evaluates its target to a closure, evaluates the argument, and
/// evaluates the closure body with the parameter bound in a child scope of
/// the captured environment. Exhausted fuel yields `DepthExceeded`.
pub open spec fn eval_spec(e: ExprModel, env: EnvModel, fuel: nat) -> Result<
    ValueModel,
    ErrorModel,
>
    decreases fuel,
{
    if fuel == 0 {
        Err(ErrorModel::DepthExceeded)
    } else {
        let f = (fuel - 1) as nat;
        match e {
            ExprModel::Leaf(v) => match v {
                ValueModel::Var(name) => if !env.contains_key(name) {
                    Err(ErrorModel::UndefinedVariable(name))
                } else {
                    match env[name] {
                        None => Err(ErrorModel::UnboundVariable(name)),
                        Some(b) => eval_spec(b, env, f),
                    }
                },
                _ => Ok(v),
            },
            ExprModel::UnaryOp { val, op } => match eval_spec(*val, env, f) {
                Ok(v) => apply_unary(op, v),
                Err(er) => Err(er),
            },
            ExprModel::BinOp { left, right, op } => match eval_spec(*left, env, f) {
                Ok(l) => match eval_spec(*right, env, f) {
                    Ok(r) => apply_binary(op, l, r),
                    Err(er) => Err(er),
                },
                Err(er) => Err(er),
            },
            ExprModel::If { cond, then_branch, else_branch } => match eval_spec(*cond, env, f) {
                Ok(ValueModel::Bool(c)) => if c {
                    eval_spec(*then_branch, env, f)
                } else {
                    eval_spec(*else_branch, env, f)
                },
                Ok(v) => Err(ErrorModel::TypeMismatch {
                    operator: OpKind::Condition,
                    first: kind_of(v),
                    second: None,
                }),
                Err(er) => Err(er),
            },
            ExprModel::Func { param, body } => Ok(ValueModel::Closure { param, body, env }),
            ExprModel::Apply { func, arg } => match eval_spec(*func, env, f) {
                Ok(ValueModel::Closure { param, body, env: captured }) => match eval_spec(
                    *arg,
                    env,
                    f,
                ) {
                    Ok(av) => eval_spec(
                        *body,
                        captured.insert(param, Some(ExprModel::Leaf(av))),
                        f,
                    ),
                    Err(er) => Err(er),
                },
                Ok(_) => Err(ErrorModel::NotCallable),
                Err(er) => Err(er),
            },
        }
    }
}

impl Clone for Value {
    fn clone(&self) -> (res: Self)
        ensures
            res == *self,
        decreases self,
    {
        match self {
            Value::Int(i) => Value::Int(*i),
            Value::Bool(b) => Value::Bool(*b),
            Value::Var(name) => Value::Var(name.clone()),
            Value::Closure { param, body, env } => Value::Closure {
                param: param.clone(),
                body: Box::new((**body).clone()),
                env: Box::new((**env).clone()),
            },
        }
    }
}

impl Clone for Expr {
    fn clone(&self) -> (res: Self)
        ensures
            res == *self,
        decreases self,
    {
        match self {
            Expr::Leaf(v) => Expr::Leaf(v.clone()),
            Expr::UnaryOp { val, op } => Expr::UnaryOp {
                val: Box::new((**val).clone()),
                op: *op,
            },
            Expr::BinOp { left, right, op } => Expr::BinOp {
                left: Box::new((**left).clone()),
                right: Box::new((**right).clone()),
                op: *op,
            },
            Expr::If { cond, then_branch, else_branch } => Expr::If {
                cond: Box::new((**cond).clone()),
                then_branch: Box::new((**then_branch).clone()),
                else_branch: Box::new((**else_branch).clone()),
            },
            Expr::Func { param, body } => Expr::Func {
                param: param.clone(),
                body: Box::new((**body).clone()),
            },
            Expr::Apply { func, arg } => Expr::Apply {
                func: Box::new((**func).clone()),
                arg: Box::new((**arg).clone()),
            },
        }
    }
}

impl Clone for Environment {
    fn clone(&self) -> (res: Self)
        ensures
            res == *self,
        decreases self,
    {
        match self {
            Environment::Empty => Environment::Empty,
            Environment::Binding { name, bound, rest } => Environment::Binding {
                name: name.clone(),
                bound: match bound {
                    None => None,
                    Some(b) => Some(b.clone()),
                },
                rest: Box::new((**rest).clone()),
            },
        }
    }
}

/// The tag of an executable value, matching `kind_of` on its model.
fn value_kind(v: &Value) -> (k: ValueKind)
    ensures
        k == kind_of(value_model(*v)),
{
    match v {
        Value::Int(_) => ValueKind::Int,
        Value::Bool(_) => ValueKind::Bool,
        Value::Var(_) => ValueKind::Var,
        Value::Closure { .. } => ValueKind::Closure,
    }
}

/// Resolve a name against the environment: `None` when the name is not
/// present at all, otherwise the newest entry for it.
fn lookup<'a>(env: &'a Environment, name: &String) -> (r: Option<&'a Option<Expr>>)
    ensures
        match r {
            None => !env_model(*env).contains_key(name@),
            Some(b) => env_model(*env).contains_key(name@) && env_model(*env)[name@]
                == opt_expr_model(*b),
        },
    decreases env,
{
    match env {
        Environment::Empty => None,
        Environment::Binding { name: n, bound, rest } => {
            if *n == *name {
                Some(bound)
            } else {
                lookup(rest, name)
            }
        },
    }
}

/// Evaluate every binary operator: delegates `And` and `Or` to
/// `binary_logic_eval` and computes the integer family directly.
pub fn bin_eval(left: Value, right: Value, op: BinaryOp) -> (res: Result<Value, EvalError>)
    ensures
        result_model(res) == apply_binary(op, value_model(left), value_model(right)),
{
    match op {
        BinaryOp::And => binary_logic_eval(left, right, op),
        BinaryOp::Or => binary_logic_eval(left, right, op),
        _ => match (left, right) {
            (Value::Int(a), Value::Int(b)) => match op {
                BinaryOp::Add => Ok(Value::Int(a.wrapping_add(b))),
                BinaryOp::Sub => Ok(Value::Int(a.wrapping_sub(b))),
                BinaryOp::Mul => Ok(Value::Int(a.wrapping_mul(b))),
                BinaryOp::Div => if b == 0 {
                    Err(EvalError::DivisionByZero)
                } else {
                    match a.checked_div(b) {
                        Some(q) => Ok(Value::Int(q)),
                        None => Ok(Value::Int(i64::MIN)),
                    }
                },
                BinaryOp::BitAnd => Ok(Value::Int(a & b)),
                BinaryOp::BitOr => Ok(Value::Int(a | b)),
                BinaryOp::Lt => Ok(Value::Bool(a < b)),
                BinaryOp::Le => Ok(Value::Bool(a <= b)),
                BinaryOp::Gt => Ok(Value::Bool(a > b)),
                BinaryOp::Ge => Ok(Value::Bool(a >= b)),
                BinaryOp::Eq => Ok(Value::Bool(a == b)),
                _ => Err(EvalError::TypeMismatch {
                    operator: OpKind::Binary(op),
                    first: ValueKind::Int,
                    second: Some(ValueKind::Int),
                }),
            },
            (l, r) => Err(EvalError::TypeMismatch {
                operator: OpKind::Binary(op),
                first: value_kind(&l),
                second: Some(value_kind(&r)),
            }),
        },
    }
}

/// Evaluate a boolean binary operator (`And` or `Or`) over two values.
pub fn binary_logic_eval(left: Value, right: Value, op: BinaryOp) -> (res: Result<
    Value,
    EvalError,
>)
    requires
        op == BinaryOp::And || op == BinaryOp::Or,
    ensures
        result_model(res) == apply_binary(op, value_model(left), value_model(right)),
{
    match (left, right) {
        (Value::Bool(x), Value::Bool(y)) => match op {
            BinaryOp::And => Ok(Value::Bool(x && y)),
            _ => Ok(Value::Bool(x || y)),
        },
        (l, r) => Err(EvalError::TypeMismatch {
            operator: OpKind::Binary(op),
            first: value_kind(&l),
            second: Some(value_kind(&r)),
        }),
    }
}

/// Evaluate the unary operator over a value.
pub fn unary_logic_eval(val: Value, op: UnaryOp) -> (res: Result<Value, EvalError>)
    ensures
        result_model(res) == apply_unary(op, value_model(val)),
{
    match val {
        Value::Bool(b) => Ok(Value::Bool(!b)),
        v => Err(EvalError::TypeMismatch {
            operator: OpKind::Unary(op),
            first: value_kind(&v),
            second: None,
        }),
    }
}

pub fn add(left: Value, right: Value) -> (res: Result<Value, EvalError>)
    ensures
        result_model(res) == apply_binary(BinaryOp::Add, value_model(left), value_model(right)),
{
    bin_eval(left, right, BinaryOp::Add)
}

pub fn sub(left: Value, right: Value) -> (res: Result<Value, EvalError>)
    ensures
        result_model(res) == apply_binary(BinaryOp::Sub, value_model(left), value_model(right)),
{
    bin_eval(left, right, BinaryOp::Sub)
}

pub fn mul(left: Value, right: Value) -> (res: Result<Value, EvalError>)
    ensures
        result_model(res) == apply_binary(BinaryOp::Mul, value_model(left), value_model(right)),
{
    bin_eval(left, right, BinaryOp::Mul)
}

pub fn div(left: Value, right: Value) -> (res: Result<Value, EvalError>)
    ensures
        result_model(res) == apply_binary(BinaryOp::Div, value_model(left), value_model(right)),
{
    bin_eval(left, right, BinaryOp::Div)
}

pub fn bitwise_and(left: Value, right: Value) -> (res: Result<Value, EvalError>)
    ensures
        result_model(res) == apply_binary(BinaryOp::BitAnd, value_model(left), value_model(right)),
{
    bin_eval(left, right, BinaryOp::BitAnd)
}

pub fn bitwise_or(left: Value, right: Value) -> (res: Result<Value, EvalError>)
    ensures
        result_model(res) == apply_binary(BinaryOp::BitOr, value_model(left), value_model(right)),
{
    bin_eval(left, right, BinaryOp::BitOr)
}

pub fn lt(left: Value, right: Value) -> (res: Result<Value, EvalError>)
    ensures
        result_model(res) == apply_binary(BinaryOp::Lt, value_model(left), value_model(right)),
{
    bin_eval(left, right, BinaryOp::Lt)
}

pub fn le(left: Value, right: Value) -> (res: Result<Value, EvalError>)
    ensures
        result_model(res) == apply_binary(BinaryOp::Le, value_model(left), value_model(right)),
{
    bin_eval(left, right, BinaryOp::Le)
}

pub fn gt(left: Value, right: Value) -> (res: Result<Value, EvalError>)
    ensures
        result_model(res) == apply_binary(BinaryOp::Gt, value_model(left), value_model(right)),
{
    bin_eval(left, right, BinaryOp::Gt)
}

pub fn ge(left: Value, right: Value) -> (res: Result<Value, EvalError>)
    ensures
        result_model(res) == apply_binary(BinaryOp::Ge, value_model(left), value_model(right)),
{
    bin_eval(left, right, BinaryOp::Ge)
}

pub fn eq(left: Value, right: Value) -> (res: Result<Value, EvalError>)
    ensures
        result_model(res) == apply_binary(BinaryOp::Eq, value_model(left), value_model(right)),
{
    bin_eval(left, right, BinaryOp::Eq)
}

pub fn not(left: Value) -> (res: Result<Value, EvalError>)
    ensures
        result_model(res) == apply_unary(UnaryOp::Not, value_model(left)),
{
    unary_logic_eval(left, UnaryOp::Not)
}

pub fn logic_and(left: Value, right: Value) -> (res: Result<Value, EvalError>)
    ensures
        result_model(res) == apply_binary(BinaryOp::And, value_model(left), value_model(right)),
{
    binary_logic_eval(left, right, BinaryOp::And)
}

pub fn logic_or(left: Value, right: Value) -> (res: Result<Value, EvalError>)
    ensures
        result_model(res) == apply_binary(BinaryOp::Or, value_model(left), value_model(right)),
{
    binary_logic_eval(left, right, BinaryOp::Or)
}

/// The recursion guard: evaluation explores at most this many nested
/// reduction steps before failing with `DepthExceeded`.
pub const MAX_EVAL_DEPTH: u64 = 1024;

/// Evaluate an expression in an environment with the given fuel.
pub fn evaluate(e: &Expr, env: &Environment, fuel: u64) -> (res: Result<Value, EvalError>)
    ensures
        result_model(res) == eval_spec(expr_model(*e), env_model(*env), fuel as nat),
    decreases fuel, 1int,
{
    if fuel == 0 {
        return Err(EvalError::DepthExceeded);
    }
    match e {
        Expr::Leaf(v) => match v {
            Value::Var(name) => eval_var(name, env, fuel),
            _ => {
                let c = v.clone();
                proof {
                    assert(!(value_model(*v) matches ValueModel::Var(_)));
                }
                Ok(c)
            },
        },
        Expr::UnaryOp { val, op } => eval_unary(val, *op, env, fuel),
        Expr::BinOp { left, right, op } => eval_bin(left, right, *op, env, fuel),
        Expr::If { cond, then_branch, else_branch } => eval_if(
            cond,
            then_branch,
            else_branch,
            env,
            fuel,
        ),
        Expr::Func { param, body } => Ok(Value::Closure {
            param: param.clone(),
            body: Box::new((**body).clone()),
            env: Box::new(env.clone()),
        }),
        Expr::Apply { func, arg } => eval_apply(func, arg, env, fuel),
    }
}

/// Resolve a `Var` leaf: look the name up and evaluate what it is bound to.
fn eval_var(name: &String, env: &Environment, fuel: u64) -> (res: Result<Value, EvalError>)
    requires
        fuel >= 1,
    ensures
        result_model(res) == eval_spec(
            ExprModel::Leaf(ValueModel::Var(name@)),
            env_model(*env),
            fuel as nat,
        ),
    decreases fuel, 0int,
{
    let f = fuel - 1;
    match lookup(env, name) {
        None => Err(EvalError::UndefinedVariable(name.clone())),
        Some(binding) => match binding {
            None => Err(EvalError::UnboundVariable(name.clone())),
            Some(b) => evaluate(b, env, f),
        },
    }
}

/// Evaluate the operand of a unary node, then apply the operator.
fn eval_unary(val: &Expr, op: UnaryOp, env: &Environment, fuel: u64) -> (res: Result<
    Value,
    EvalError,
>)
    requires
        fuel >= 1,
    ensures
        result_model(res) == eval_spec(
            (ExprModel::UnaryOp { val: Box::new(expr_model(*val)), op }),
            env_model(*env),
            fuel as nat,
        ),
    decreases fuel, 0int,
{
    let f = fuel - 1;
    match evaluate(val, env, f) {
        Ok(v) => unary_logic_eval(v, op),
        Err(er) => Err(er),
    }
}

/// Evaluate the operands of a binary node left to right, then apply the
/// operator.
fn eval_bin(left: &Expr, right: &Expr, op: BinaryOp, env: &Environment, fuel: u64) -> (res: Result<
    Value,
    EvalError,
>)
    requires
        fuel >= 1,
    ensures
        result_model(res) == eval_spec(
            (ExprModel::BinOp {
                left: Box::new(expr_model(*left)),
                right: Box::new(expr_model(*right)),
                op,
            }),
            env_model(*env),
            fuel as nat,
        ),
    decreases fuel, 0int,
{
    let f = fuel - 1;
    match evaluate(left, env, f) {
        Ok(l) => match evaluate(right, env, f) {
            Ok(r) => bin_eval(l, r, op),
            Err(er) => Err(er),
        },
        Err(er) => Err(er),
    }
}

/// Evaluate the condition of a conditional, then exactly one branch.
fn eval_if(cond: &Expr, then_branch: &Expr, else_branch: &Expr, env: &Environment, fuel: u64) -> (res: Result<
    Value,
    EvalError,
>)
    requires
        fuel >= 1,
    ensures
        result_model(res) == eval_spec(
            (ExprModel::If {
                cond: Box::new(expr_model(*cond)),
                then_branch: Box::new(expr_model(*then_branch)),
                else_branch: Box::new(expr_model(*else_branch)),
            }),
            env_model(*env),
            fuel as nat,
        ),
    decreases fuel, 0int,
{
    let f = fuel - 1;
    match evaluate(cond, env, f) {
        Ok(Value::Bool(c)) => if c {
            evaluate(then_branch, env, f)
        } else {
            evaluate(else_branch, env, f)
        },
        Ok(v) => Err(EvalError::TypeMismatch {
            operator: OpKind::Condition,
            first: value_kind(&v),
            second: None,
        }),
        Err(er) => Err(er),
    }
}

/// Evaluate the target of an application to a closure, evaluate the
/// argument, and evaluate the closure body with the parameter bound in a
/// child scope of the captured environment.
fn eval_apply(func: &Expr, arg: &Expr, env: &Environment, fuel: u64) -> (res: Result<
    Value,
    EvalError,
>)
    requires
        fuel >= 1,
    ensures
        result_model(res) == eval_spec(
            (ExprModel::Apply {
                func: Box::new(expr_model(*func)),
                arg: Box::new(expr_model(*arg)),
            }),
            env_model(*env),
            fuel as nat,
        ),
    decreases fuel, 0int,
{
    let f = fuel - 1;
    match evaluate(func, env, f) {
        Ok(Value::Closure { param, body, env: captured }) => match evaluate(arg, env, f) {
            Ok(av) => {
                let ghost pm = param@;
                let ghost cm = env_model(*captured);
                let ghost avm = value_model(av);
                let child = Environment::Binding {
                    name: param,
                    bound: Some(Expr::Leaf(av)),
                    rest: captured,
                };
                proof {
                    assert(child matches Environment::Binding { name, bound, rest }
                        && name@ == pm && opt_expr_model(bound) == Some(ExprModel::Leaf(avm))
                        && env_model(*rest) == cm);
                    assert(env_model(child) == cm.insert(pm, Some(ExprModel::Leaf(avm))));
                }
                evaluate(&*body, &child, f)
            },
            Err(er) => Err(er),
        },
        Ok(_) => Err(EvalError::NotCallable),
        Err(er) => Err(er),
    }
}

/// A program: one root expression and the environment its free variables are
/// resolved against.
#[derive(Debug)]
pub struct Program {
    root: Expr,
    vars: Environment,
}

impl Program {
    /// The model of the root expression.
    pub closed spec fn root_model(&self) -> ExprModel {
        expr_model(self.root)
    }

    /// The model of the variable bindings.
    pub closed spec fn vars_model(&self) -> EnvModel {
        env_model(self.vars)
    }

    /// A program over the given root, with no variables bound.
    pub fn new(root: Expr) -> (p: Self)
        ensures
            p.root_model() == expr_model(root),
            p.vars_model() == Map::<Seq<char>, Option<ExprModel>>::empty(),
    {
        Self { root, vars: Environment::Empty }
    }

    /// Bind `id` to an expression, or to an explicitly empty slot, replacing
    /// any earlier binding of the same name.
    pub fn add_var(&mut self, id: String, val: Option<Expr>)
        ensures
            final(self).root_model() == old(self).root_model(),
            final(self).vars_model() == old(self).vars_model().insert(id@, opt_expr_model(val)),
    {
        let mut rest = Environment::Empty;
        core::mem::swap(&mut self.vars, &mut rest);
        self.vars = Environment::Binding { name: id, bound: val, rest: Box::new(rest) };
    }

    /// Run the program: evaluate the root against the current bindings.
    pub fn exec(&self) -> (res: Result<Value, EvalError>)
        ensures
            result_model(res) == eval_spec(self.root_model(), self.vars_model(), MAX_EVAL_DEPTH as nat),
    {
        evaluate(&self.root, &self.vars, MAX_EVAL_DEPTH)
    }
}

impl Expr {
    /// A unary-operator node over an owned operand.
    pub fn new_unary_op(val: Box<Expr>, op: UnaryOp) -> (e: Expr)
        ensures
            expr_model(e) == (ExprModel::UnaryOp { val: Box::new(expr_model(*val)), op }),
    {
        Expr::UnaryOp { val, op }
    }

    /// A binary-operator node over two owned operands.
    pub fn new_bin_op(left: Box<Expr>, right: Box<Expr>, op: BinaryOp) -> (e: Expr)
        ensures
            expr_model(e) == (ExprModel::BinOp {
                left: Box::new(expr_model(*left)),
                right: Box::new(expr_model(*right)),
                op,
            }),
    {
        Expr::BinOp { left, right, op }
    }

    /// Evaluate this expression in an empty environment.
    pub fn execute(&self) -> (res: Result<Value, EvalError>)
        ensures
            result_model(res) == eval_spec(
                expr_model(*self),
                Map::<Seq<char>, Option<ExprModel>>::empty(),
                MAX_EVAL_DEPTH as nat,
            ),
    {
        evaluate(self, &Environment::Empty, MAX_EVAL_DEPTH)
    }
}


/// A `BinOp` node over two constant leaves evaluates to exactly what the
/// operator library gives for those operands, whatever the environment.
pub proof fn lemma_eval_binop_leaves(l: ValueModel, r: ValueModel, op: BinaryOp, env: EnvModel, fuel: nat)
    requires
        fuel >= 2,
        !(l matches ValueModel::Var(_)),
        !(r matches ValueModel::Var(_)),
    ensures
        eval_spec(
            (ExprModel::BinOp {
                left: Box::new(ExprModel::Leaf(l)),
                right: Box::new(ExprModel::Leaf(r)),
                op,
            }),
            env,
            fuel,
        ) == apply_binary(op, l, r),
{
    let f = (fuel - 1) as nat;
    assert(eval_spec(ExprModel::Leaf(l), env, f) == Ok::<ValueModel, ErrorModel>(l));
    assert(eval_spec(ExprModel::Leaf(r), env, f) == Ok::<ValueModel, ErrorModel>(r));
}

/// For all `Int` pairs whose sum fits in `i64`, adding two `Int` leaves
/// evaluates to the `Int` of their sum.
pub proof fn lemma_eval_add_ints(a: i64, b: i64, env: EnvModel, fuel: nat)
    requires
        fuel >= 2,
        i64::MIN <= a + b <= i64::MAX,
    ensures
        eval_spec(
            (ExprModel::BinOp {
                left: Box::new(ExprModel::Leaf(ValueModel::Int(a))),
                right: Box::new(ExprModel::Leaf(ValueModel::Int(b))),
                op: BinaryOp::Add,
            }),
            env,
            fuel,
        ) == Ok::<ValueModel, ErrorModel>(ValueModel::Int((a + b) as i64)),
{
    lemma_eval_binop_leaves(ValueModel::Int(a), ValueModel::Int(b), BinaryOp::Add, env, fuel);
}

/// For all `Int` pairs whose difference fits in `i64`, subtracting two `Int`
/// leaves evaluates to the `Int` of their difference.
pub proof fn lemma_eval_sub_ints(a: i64, b: i64, env: EnvModel, fuel: nat)
    requires
        fuel >= 2,
        i64::MIN <= a - b <= i64::MAX,
    ensures
        eval_spec(
            (ExprModel::BinOp {
                left: Box::new(ExprModel::Leaf(ValueModel::Int(a))),
                right: Box::new(ExprModel::Leaf(ValueModel::Int(b))),
                op: BinaryOp::Sub,
            }),
            env,
            fuel,
        ) == Ok::<ValueModel, ErrorModel>(ValueModel::Int((a - b) as i64)),
{
    lemma_eval_binop_leaves(ValueModel::Int(a), ValueModel::Int(b), BinaryOp::Sub, env, fuel);
}

/// For all `Int` pairs whose product fits in `i64`, multiplying two `Int`
/// leaves evaluates to the `Int` of their product.
pub proof fn lemma_eval_mul_ints(a: i64, b: i64, env: EnvModel, fuel: nat)
    requires
        fuel >= 2,
        i64::MIN <= a * b <= i64::MAX,
    ensures
        eval_spec(
            (ExprModel::BinOp {
                left: Box::new(ExprModel::Leaf(ValueModel::Int(a))),
                right: Box::new(ExprModel::Leaf(ValueModel::Int(b))),
                op: BinaryOp::Mul,
            }),
            env,
            fuel,
        ) == Ok::<ValueModel, ErrorModel>(ValueModel::Int((a * b) as i64)),
{
    lemma_eval_binop_leaves(ValueModel::Int(a), ValueModel::Int(b), BinaryOp::Mul, env, fuel);
}

/// For all `Int` pairs, the bitwise operators over two `Int` leaves evaluate
/// to the `Int` of the bitwise result.
pub proof fn lemma_eval_bitwise_ints(a: i64, b: i64, env: EnvModel, fuel: nat)
    requires
        fuel >= 2,
    ensures
        eval_spec(
            (ExprModel::BinOp {
                left: Box::new(ExprModel::Leaf(ValueModel::Int(a))),
                right: Box::new(ExprModel::Leaf(ValueModel::Int(b))),
                op: BinaryOp::BitAnd,
            }),
            env,
            fuel,
        ) == Ok::<ValueModel, ErrorModel>(ValueModel::Int(a & b)),
        eval_spec(
            (ExprModel::BinOp {
                left: Box::new(ExprModel::Leaf(ValueModel::Int(a))),
                right: Box::new(ExprModel::Leaf(ValueModel::Int(b))),
                op: BinaryOp::BitOr,
            }),
            env,
            fuel,
        ) == Ok::<ValueModel, ErrorModel>(ValueModel::Int(a | b)),
{
    lemma_eval_binop_leaves(ValueModel::Int(a), ValueModel::Int(b), BinaryOp::BitAnd, env, fuel);
    lemma_eval_binop_leaves(ValueModel::Int(a), ValueModel::Int(b), BinaryOp::BitOr, env, fuel);
}

/// For all `Int` pairs, each comparison over two `Int` leaves evaluates to
/// the `Bool` of the comparison.
pub proof fn lemma_eval_compare_ints(a: i64, b: i64, env: EnvModel, fuel: nat)
    requires
        fuel >= 2,
    ensures
        eval_spec(
            (ExprModel::BinOp {
                left: Box::new(ExprModel::Leaf(ValueModel::Int(a))),
                right: Box::new(ExprModel::Leaf(ValueModel::Int(b))),
                op: BinaryOp::Lt,
            }),
            env,
            fuel,
        ) == Ok::<ValueModel, ErrorModel>(ValueModel::Bool(a < b)),
        eval_spec(
            (ExprModel::BinOp {
                left: Box::new(ExprModel::Leaf(ValueModel::Int(a))),
                right: Box::new(ExprModel::Leaf(ValueModel::Int(b))),
                op: BinaryOp::Le,
            }),
            env,
            fuel,
        ) == Ok::<ValueModel, ErrorModel>(ValueModel::Bool(a <= b)),
        eval_spec(
            (ExprModel::BinOp {
                left: Box::new(ExprModel::Leaf(ValueModel::Int(a))),
                right: Box::new(ExprModel::Leaf(ValueModel::Int(b))),
                op: BinaryOp::Gt,
            }),
            env,
            fuel,
        ) == Ok::<ValueModel, ErrorModel>(ValueModel::Bool(a > b)),
        eval_spec(
            (ExprModel::BinOp {
                left: Box::new(ExprModel::Leaf(ValueModel::Int(a))),
                right: Box::new(ExprModel::Leaf(ValueModel::Int(b))),
                op: BinaryOp::Ge,
            }),
            env,
            fuel,
        ) == Ok::<ValueModel, ErrorModel>(ValueModel::Bool(a >= b)),
        eval_spec(
            (ExprModel::BinOp {
                left: Box::new(ExprModel::Leaf(ValueModel::Int(a))),
                right: Box::new(ExprModel::Leaf(ValueModel::Int(b))),
                op: BinaryOp::Eq,
            }),
            env,
            fuel,
        ) == Ok::<ValueModel, ErrorModel>(ValueModel::Bool(a == b)),
{
    lemma_eval_binop_leaves(ValueModel::Int(a), ValueModel::Int(b), BinaryOp::Lt, env, fuel);
    lemma_eval_binop_leaves(ValueModel::Int(a), ValueModel::Int(b), BinaryOp::Le, env, fuel);
    lemma_eval_binop_leaves(ValueModel::Int(a), ValueModel::Int(b), BinaryOp::Gt, env, fuel);
    lemma_eval_binop_leaves(ValueModel::Int(a), ValueModel::Int(b), BinaryOp::Ge, env, fuel);
    lemma_eval_binop_leaves(ValueModel::Int(a), ValueModel::Int(b), BinaryOp::Eq, env, fuel);
}

/// Dividing any `Int` leaf by the `Int(0)` leaf always fails with
/// `DivisionByZero`, before any division is performed.
pub proof fn lemma_eval_div_by_zero(a: i64, env: EnvModel, fuel: nat)
    requires
        fuel >= 2,
    ensures
        eval_spec(
            (ExprModel::BinOp {
                left: Box::new(ExprModel::Leaf(ValueModel::Int(a))),
                right: Box::new(ExprModel::Leaf(ValueModel::Int(0))),
                op: BinaryOp::Div,
            }),
            env,
            fuel,
        ) == Err::<ValueModel, ErrorModel>(ErrorModel::DivisionByZero),
{
    lemma_eval_binop_leaves(ValueModel::Int(a), ValueModel::Int(0), BinaryOp::Div, env, fuel);
}

/// Negating a `Bool` leaf evaluates to the opposite `Bool`, for either
/// truth value.
pub proof fn lemma_eval_not_bool(bv: bool, env: EnvModel, fuel: nat)
    requires
        fuel >= 2,
    ensures
        eval_spec(
            (ExprModel::UnaryOp {
                val: Box::new(ExprModel::Leaf(ValueModel::Bool(bv))),
                op: UnaryOp::Not,
            }),
            env,
            fuel,
        ) == Ok::<ValueModel, ErrorModel>(ValueModel::Bool(!bv)),
{
    let f = (fuel - 1) as nat;
    assert(eval_spec(ExprModel::Leaf(ValueModel::Bool(bv)), env, f) == Ok::<
        ValueModel,
        ErrorModel,
    >(ValueModel::Bool(bv)));
}

/// Mixing an `Int` operand with a `Bool` operand under any binary operator
/// always fails with a `TypeMismatch` naming the operator and the two
/// operand tags, in either order; no coercion ever occurs.
pub proof fn lemma_eval_mixed_operands(a: i64, bv: bool, op: BinaryOp, env: EnvModel, fuel: nat)
    requires
        fuel >= 2,
    ensures
        eval_spec(
            (ExprModel::BinOp {
                left: Box::new(ExprModel::Leaf(ValueModel::Int(a))),
                right: Box::new(ExprModel::Leaf(ValueModel::Bool(bv))),
                op,
            }),
            env,
            fuel,
        ) == Err::<ValueModel, ErrorModel>(ErrorModel::TypeMismatch {
            operator: OpKind::Binary(op),
            first: ValueKind::Int,
            second: Some(ValueKind::Bool),
        }),
        eval_spec(
            (ExprModel::BinOp {
                left: Box::new(ExprModel::Leaf(ValueModel::Bool(bv))),
                right: Box::new(ExprModel::Leaf(ValueModel::Int(a))),
                op,
            }),
            env,
            fuel,
        ) == Err::<ValueModel, ErrorModel>(ErrorModel::TypeMismatch {
            operator: OpKind::Binary(op),
            first: ValueKind::Bool,
            second: Some(ValueKind::Int),
        }),
{
    lemma_eval_binop_leaves(ValueModel::Int(a), ValueModel::Bool(bv), op, env, fuel);
    lemma_eval_binop_leaves(ValueModel::Bool(bv), ValueModel::Int(a), op, env, fuel);
}

/// A conditional over a constant `Bool` condition evaluates exactly the
/// selected branch and never touches the other: the untaken branch may be
/// any expression at all, including one that would fail.
pub proof fn lemma_eval_if_takes_one_branch(tb: ExprModel, eb: ExprModel, env: EnvModel, fuel: nat)
    requires
        fuel >= 2,
    ensures
        eval_spec(
            (ExprModel::If {
                cond: Box::new(ExprModel::Leaf(ValueModel::Bool(true))),
                then_branch: Box::new(tb),
                else_branch: Box::new(eb),
            }),
            env,
            fuel,
        ) == eval_spec(tb, env, (fuel - 1) as nat),
        eval_spec(
            (ExprModel::If {
                cond: Box::new(ExprModel::Leaf(ValueModel::Bool(false))),
                then_branch: Box::new(tb),
                else_branch: Box::new(eb),
            }),
            env,
            fuel,
        ) == eval_spec(eb, env, (fuel - 1) as nat),
{
    let f = (fuel - 1) as nat;
    assert(eval_spec(ExprModel::Leaf(ValueModel::Bool(true)), env, f) == Ok::<
        ValueModel,
        ErrorModel,
    >(ValueModel::Bool(true)));
    assert(eval_spec(ExprModel::Leaf(ValueModel::Bool(false)), env, f) == Ok::<
        ValueModel,
        ErrorModel,
    >(ValueModel::Bool(false)));
}

} // verus!
