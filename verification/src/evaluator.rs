//! The tree-walking evaluation of expressions: strict, left before right,
//! with no short-circuiting anywhere.

use vstd::prelude::*;
use vstd::string::StrSliceExecFns;
use vstd::string::StringExecFns;

use crate::environment::Environment;
use crate::expr::Expr;
use crate::expr::ExprV;
use crate::literal_type::Lit;
use crate::literal_type::LitKind;
use crate::literal_type::LitV;
use crate::literal_type::lit_eq_v;
use crate::literal_type::lit_kind;
use crate::numbits::add_bits;
use crate::numbits::div_bits;
use crate::numbits::ge_bits;
use crate::numbits::gt_bits;
use crate::numbits::is_zero_bits;
use crate::numbits::le_bits;
use crate::numbits::lt_bits;
use crate::numbits::mul_bits;
use crate::numbits::neg_bits;
use crate::numbits::num_add;
use crate::numbits::num_div;
use crate::numbits::num_ge;
use crate::numbits::num_gt;
use crate::numbits::num_is_nan;
use crate::numbits::num_is_zero;
use crate::numbits::num_le;
use crate::numbits::num_lt;
use crate::numbits::num_mul;
use crate::numbits::num_neg;
use crate::numbits::num_sub;
use crate::numbits::sub_bits;
use crate::token::Tok;
use crate::token::TokV;
use crate::token_type::TokType;

verus! {

/// An evaluation error: these are ordinary result values, and any one of
/// them aborts the remaining statements of the run that raised it.
#[derive(Debug, PartialEq, Clone)]
pub enum EvalError {
    /// A variable was read that was never defined.
    UndefinedVariable(String),
    /// A unary operator was applied to an operand it does not accept.
    IllegalUnaryOperand(TokType, LitKind),
    /// A binary operator was applied to an operand pair it does not accept.
    TypeMismatch(TokType, LitKind, LitKind),
}

/// The mathematical reading of an evaluation error.
pub enum EvalErrV {
    UndefinedVariable(Seq<char>),
    IllegalUnaryOperand(TokType, LitKind),
    TypeMismatch(TokType, LitKind, LitKind),
}

impl View for EvalError {
    type V = EvalErrV;

    open spec fn view(&self) -> EvalErrV {
        match self {
            EvalError::UndefinedVariable(n) => EvalErrV::UndefinedVariable(n@),
            EvalError::IllegalUnaryOperand(op, k) => EvalErrV::IllegalUnaryOperand(*op, *k),
            EvalError::TypeMismatch(op, l, r) => EvalErrV::TypeMismatch(*op, *l, *r),
        }
    }
}

/// The report text of an evaluation error.
pub open spec fn eval_err_text(e: EvalErrV) -> Seq<char> {
    match e {
        EvalErrV::UndefinedVariable(_) => "A variable has been used that has not been defined."@,
        EvalErrV::IllegalUnaryOperand(_, k) => match k {
            LitKind::Num => "Unexpected token type when evaluating unary for number evaluation."@,
            LitKind::Truth
                => "Unexpected token type when evaluating unary for boolean evaluation."@,
            LitKind::Nothing => "Illegal use of nil in unary."@,
            LitKind::Str => "Illegal use of string in unary."@,
        },
        EvalErrV::TypeMismatch(op, _, _) => match op {
            TokType::Plus => "Attempt to add two unmatching or illegal data types."@,
            TokType::Minus => "Attempt to subtract two unmatching or illegal data types."@,
            TokType::Slash => "Attempt to divide two unmatching or illegal data types."@,
            TokType::Star => "Attempt to multiply two unmatching or illegal data types."@,
            TokType::Greater => "Invalid use of greater operator."@,
            TokType::GreaterEqual => "Invalid use of greater-equal operator."@,
            TokType::Less => "Invalid use of less operator."@,
            TokType::LessEqual => "Invalid use of greater-equal operator."@,
            _ => "Unable to evaluate binary expression."@,
        },
    }
}

impl EvalError {
    /// The report text of this error.
    pub fn message(&self) -> (r: String)
        ensures
            r@ == eval_err_text(self@),
    {
        match self {
            EvalError::UndefinedVariable(_) => String::from_str(
                "A variable has been used that has not been defined.",
            ),
            EvalError::IllegalUnaryOperand(_, k) => match k {
                LitKind::Num => String::from_str(
                    "Unexpected token type when evaluating unary for number evaluation.",
                ),
                LitKind::Truth => String::from_str(
                    "Unexpected token type when evaluating unary for boolean evaluation.",
                ),
                LitKind::Nothing => String::from_str("Illegal use of nil in unary."),
                LitKind::Str => String::from_str("Illegal use of string in unary."),
            },
            EvalError::TypeMismatch(op, _, _) => match op {
                TokType::Plus => String::from_str(
                    "Attempt to add two unmatching or illegal data types.",
                ),
                TokType::Minus => String::from_str(
                    "Attempt to subtract two unmatching or illegal data types.",
                ),
                TokType::Slash => String::from_str(
                    "Attempt to divide two unmatching or illegal data types.",
                ),
                TokType::Star => String::from_str(
                    "Attempt to multiply two unmatching or illegal data types.",
                ),
                TokType::Greater => String::from_str("Invalid use of greater operator."),
                TokType::GreaterEqual => String::from_str("Invalid use of greater-equal operator."),
                TokType::Less => String::from_str("Invalid use of less operator."),
                TokType::LessEqual => String::from_str("Invalid use of greater-equal operator."),
                _ => String::from_str("Unable to evaluate binary expression."),
            },
        }
    }
}

/// What a unary operator yields on a value: `-` negates a number, `+`
/// passes a number through, `!` on a number tests it for zero, `!` on a
/// truth value negates it, and every other pairing is an error.
pub open spec fn unary_result(op: TokType, v: LitV) -> Result<LitV, EvalErrV> {
    match v {
        LitV::Num(b) => match op {
            TokType::Minus => Result::Ok(LitV::Num(num_neg(b))),
            TokType::Plus => Result::Ok(LitV::Num(b)),
            TokType::Bang => Result::Ok(LitV::Bool(num_is_zero(b))),
            _ => Result::Err(EvalErrV::IllegalUnaryOperand(op, LitKind::Num)),
        },
        LitV::Bool(x) => match op {
            TokType::Bang => Result::Ok(LitV::Bool(!x)),
            _ => Result::Err(EvalErrV::IllegalUnaryOperand(op, LitKind::Truth)),
        },
        LitV::Nil => Result::Err(EvalErrV::IllegalUnaryOperand(op, LitKind::Nothing)),
        LitV::Str(_) => Result::Err(EvalErrV::IllegalUnaryOperand(op, LitKind::Str)),
    }
}

/// What a binary operator yields on a pair of values. Equality and
/// inequality apply to every pair and never fail; arithmetic and ordering
/// apply to two numbers; concatenation and ordering by length apply to two
/// strings; every other pairing is a type mismatch.
pub open spec fn binary_result(op: TokType, l: LitV, r: LitV) -> Result<LitV, EvalErrV> {
    if op == TokType::EqualEqual {
        Result::Ok(LitV::Bool(lit_eq_v(l, r)))
    } else if op == TokType::BangEqual {
        Result::Ok(LitV::Bool(!lit_eq_v(l, r)))
    } else {
        match (l, r) {
            (LitV::Num(a), LitV::Num(b)) => match op {
                TokType::Plus => Result::Ok(LitV::Num(num_add(a, b))),
                TokType::Minus => Result::Ok(LitV::Num(num_sub(a, b))),
                TokType::Star => Result::Ok(LitV::Num(num_mul(a, b))),
                TokType::Slash => Result::Ok(LitV::Num(num_div(a, b))),
                TokType::Greater => Result::Ok(LitV::Bool(num_gt(a, b))),
                TokType::GreaterEqual => Result::Ok(LitV::Bool(num_ge(a, b))),
                TokType::Less => Result::Ok(LitV::Bool(num_lt(a, b))),
                TokType::LessEqual => Result::Ok(LitV::Bool(num_le(a, b))),
                _ => Result::Err(EvalErrV::TypeMismatch(op, LitKind::Num, LitKind::Num)),
            },
            (LitV::Str(a), LitV::Str(b)) => match op {
                TokType::Plus => Result::Ok(LitV::Str(a + b)),
                TokType::Greater => Result::Ok(LitV::Bool(a.len() > b.len())),
                TokType::GreaterEqual => Result::Ok(LitV::Bool(a.len() >= b.len())),
                TokType::Less => Result::Ok(LitV::Bool(a.len() < b.len())),
                TokType::LessEqual => Result::Ok(LitV::Bool(a.len() <= b.len())),
                _ => Result::Err(EvalErrV::TypeMismatch(op, LitKind::Str, LitKind::Str)),
            },
            _ => Result::Err(EvalErrV::TypeMismatch(op, lit_kind(l), lit_kind(r))),
        }
    }
}

/// What an expression evaluates to against an environment: strict,
/// left before right, errors propagated outward unchanged.
pub open spec fn eval_expr_v(e: ExprV, env: Map<Seq<char>, LitV>) -> Result<LitV, EvalErrV>
    decreases e,
{
    match e {
        ExprV::Literal { value } => Result::Ok(value),
        ExprV::Grouping { expression } => eval_expr_v(*expression, env),
        ExprV::Variable { name } => if env.contains_key(name.lexeme) {
            Result::Ok(env[name.lexeme])
        } else {
            Result::Err(EvalErrV::UndefinedVariable(name.lexeme))
        },
        ExprV::Unary { operator, right } => match eval_expr_v(*right, env) {
            Result::Ok(v) => unary_result(operator.token_type, v),
            Result::Err(err) => Result::Err(err),
        },
        ExprV::Binary { left, operator, right } => match eval_expr_v(*left, env) {
            Result::Ok(l) => match eval_expr_v(*right, env) {
                Result::Ok(r) => binary_result(operator.token_type, l, r),
                Result::Err(err) => Result::Err(err),
            },
            Result::Err(err) => Result::Err(err),
        },
    }
}

/// The mathematical reading of an evaluation outcome.
pub open spec fn eval_result_v(r: Result<Lit, EvalError>) -> Result<LitV, EvalErrV> {
    match r {
        Result::Ok(l) => Result::Ok(l@),
        Result::Err(e) => Result::Err(e@),
    }
}

/// What a binary operator yields on two already evaluated values.
fn eval_binary(operator: &Tok, l: Lit, r: Lit) -> (res: Result<Lit, EvalError>)
    ensures
        eval_result_v(res) == binary_result(operator.token_type, l@, r@),
{
    if operator.token_type == TokType::EqualEqual {
        return Result::Ok(Lit::Bool(l.equals(&r)));
    }
    if operator.token_type == TokType::BangEqual {
        return Result::Ok(Lit::Bool(!l.equals(&r)));
    }
    match (l, r) {
        (Lit::Number(a), Lit::Number(b)) => match operator.token_type {
            TokType::Plus => Result::Ok(Lit::Number(add_bits(a, b))),
            TokType::Minus => Result::Ok(Lit::Number(sub_bits(a, b))),
            TokType::Star => Result::Ok(Lit::Number(mul_bits(a, b))),
            TokType::Slash => Result::Ok(Lit::Number(div_bits(a, b))),
            TokType::Greater => Result::Ok(Lit::Bool(gt_bits(a, b))),
            TokType::GreaterEqual => Result::Ok(Lit::Bool(ge_bits(a, b))),
            TokType::Less => Result::Ok(Lit::Bool(lt_bits(a, b))),
            TokType::LessEqual => Result::Ok(Lit::Bool(le_bits(a, b))),
            _ => Result::Err(
                EvalError::TypeMismatch(operator.token_type, LitKind::Num, LitKind::Num),
            ),
        },
        (Lit::String(a), Lit::String(b)) => match operator.token_type {
            TokType::Plus => Result::Ok(Lit::String(a.concat(b.as_str()))),
            TokType::Greater => Result::Ok(Lit::Bool(a.as_str().unicode_len() > b.as_str().unicode_len())),
            TokType::GreaterEqual => Result::Ok(
                Lit::Bool(a.as_str().unicode_len() >= b.as_str().unicode_len()),
            ),
            TokType::Less => Result::Ok(Lit::Bool(a.as_str().unicode_len() < b.as_str().unicode_len())),
            TokType::LessEqual => Result::Ok(
                Lit::Bool(a.as_str().unicode_len() <= b.as_str().unicode_len()),
            ),
            _ => Result::Err(
                EvalError::TypeMismatch(operator.token_type, LitKind::Str, LitKind::Str),
            ),
        },
        (l2, r2) => {
            let lk: LitKind = l2.kind();
            let rk: LitKind = r2.kind();
            Result::Err(EvalError::TypeMismatch(operator.token_type, lk, rk))
        },
    }
}

/// What an expression evaluates to against an environment.
fn eval_expr(e: &Expr, environment: &Environment) -> (r: Result<Lit, EvalError>)
    ensures
        eval_result_v(r) == eval_expr_v(e@, environment@),
    decreases *e,
{
    match e {
        Expr::Literal { value } => Result::Ok(value.clone_lit()),
        Expr::Grouping { expression } => eval_expr(expression, environment),
        Expr::Variable { name } => match environment.get(name.lexeme.as_str()) {
            Option::Some(value) => Result::Ok(value),
            Option::None => Result::Err(EvalError::UndefinedVariable(name.lexeme.clone())),
        },
        Expr::Unary { operator, right } => match eval_expr(right, environment) {
            Result::Ok(v) => match v {
                Lit::Number(num) => match operator.token_type {
                    TokType::Minus => Result::Ok(Lit::Number(neg_bits(num))),
                    TokType::Plus => Result::Ok(Lit::Number(num)),
                    TokType::Bang => Result::Ok(Lit::Bool(is_zero_bits(num))),
                    _ => Result::Err(
                        EvalError::IllegalUnaryOperand(operator.token_type, LitKind::Num),
                    ),
                },
                Lit::Bool(boolean) => match operator.token_type {
                    TokType::Bang => Result::Ok(Lit::Bool(!boolean)),
                    _ => Result::Err(
                        EvalError::IllegalUnaryOperand(operator.token_type, LitKind::Truth),
                    ),
                },
                Lit::Nil => Result::Err(
                    EvalError::IllegalUnaryOperand(operator.token_type, LitKind::Nothing),
                ),
                Lit::String(_) => Result::Err(
                    EvalError::IllegalUnaryOperand(operator.token_type, LitKind::Str),
                ),
            },
            Result::Err(err) => Result::Err(err),
        },
        Expr::Binary { left, operator, right } => match eval_expr(left, environment) {
            Result::Ok(l) => match eval_expr(right, environment) {
                Result::Ok(r) => eval_binary(operator, l, r),
                Result::Err(err) => Result::Err(err),
            },
            Result::Err(err) => Result::Err(err),
        },
    }
}

/// Evaluates one expression tree against a caller-owned environment.
pub struct Evaluator {
    expression: Expr,
}

impl View for Evaluator {
    type V = ExprV;

    closed spec fn view(&self) -> ExprV {
        self.expression@
    }
}

impl Evaluator {
    pub fn new(expression: &Expr) -> (r: Self)
        ensures
            r@ == expression@,
    {
        Self { expression: expression.clone_expr() }
    }

    /// Evaluates the given expression, or this evaluator's own where none
    /// is given, against the environment; the environment is only read.
    pub fn evaluate(&self, expr: Option<&Expr>, environment: &mut Environment) -> (r: Result<
        Lit,
        EvalError,
    >)
        ensures
            final(environment)@ == old(environment)@,
            eval_result_v(r) == eval_expr_v(
                match expr {
                    Option::Some(e) => e@,
                    Option::None => self@,
                },
                old(environment)@,
            ),
    {
        match expr {
            Option::Some(e) => eval_expr(e, environment),
            Option::None => eval_expr(&self.expression, environment),
        }
    }
}

/// Every value equals itself under `==`, except a NaN number; and two
/// values of different variants are never equal, whatever they hold.
pub proof fn lemma_literal_equality(x: LitV, y: LitV, op: TokV, env: Map<Seq<char>, LitV>)
    requires
        op.token_type == TokType::EqualEqual,
        match x {
            LitV::Num(b) => !num_is_nan(b),
            _ => true,
        },
    ensures
        eval_expr_v(
            ExprV::Binary {
                left: Box::new(ExprV::Literal { value: x }),
                operator: op,
                right: Box::new(ExprV::Literal { value: x }),
            },
            env,
        ) == Result::<LitV, EvalErrV>::Ok(LitV::Bool(true)),
        lit_kind(x) != lit_kind(y) ==> eval_expr_v(
            ExprV::Binary {
                left: Box::new(ExprV::Literal { value: x }),
                operator: op,
                right: Box::new(ExprV::Literal { value: y }),
            },
            env,
        ) == Result::<LitV, EvalErrV>::Ok(LitV::Bool(false)),
{
    assert(eval_expr_v(ExprV::Literal { value: x }, env) == Result::<LitV, EvalErrV>::Ok(x));
    assert(eval_expr_v(ExprV::Literal { value: y }, env) == Result::<LitV, EvalErrV>::Ok(y));
    assert(lit_eq_v(x, x));
    assert(lit_kind(x) != lit_kind(y) ==> !lit_eq_v(x, y));
}

/// String relational operators compare by length: a string is below
/// another exactly when it is shorter, and two strings of equal length are
/// neither below nor above one another.
pub proof fn lemma_string_compare_by_length(a: Seq<char>, b: Seq<char>)
    ensures
        binary_result(TokType::Less, LitV::Str(a), LitV::Str(b)) == Result::<
            LitV,
            EvalErrV,
        >::Ok(LitV::Bool(a.len() < b.len())),
        binary_result(TokType::LessEqual, LitV::Str(a), LitV::Str(b)) == Result::<
            LitV,
            EvalErrV,
        >::Ok(LitV::Bool(a.len() <= b.len())),
        binary_result(TokType::Greater, LitV::Str(a), LitV::Str(b)) == Result::<
            LitV,
            EvalErrV,
        >::Ok(LitV::Bool(a.len() > b.len())),
        binary_result(TokType::GreaterEqual, LitV::Str(a), LitV::Str(b)) == Result::<
            LitV,
            EvalErrV,
        >::Ok(LitV::Bool(a.len() >= b.len())),
{
}

/// A binary arithmetic operator on two numbers yields a number again: the
/// IEEE 754 binary64 result of that operation on the operand encodings,
/// and never an error.
pub proof fn lemma_numeric_arithmetic(a: u64, b: u64)
    ensures
        binary_result(TokType::Plus, LitV::Num(a), LitV::Num(b)) == Result::<
            LitV,
            EvalErrV,
        >::Ok(LitV::Num(num_add(a, b))),
        binary_result(TokType::Minus, LitV::Num(a), LitV::Num(b)) == Result::<
            LitV,
            EvalErrV,
        >::Ok(LitV::Num(num_sub(a, b))),
        binary_result(TokType::Star, LitV::Num(a), LitV::Num(b)) == Result::<
            LitV,
            EvalErrV,
        >::Ok(LitV::Num(num_mul(a, b))),
        binary_result(TokType::Slash, LitV::Num(a), LitV::Num(b)) == Result::<
            LitV,
            EvalErrV,
        >::Ok(LitV::Num(num_div(a, b))),
{
}

/// The bang operator on a number yields a truth value: true exactly on the
/// two zero encodings, so zero is truthy under negation.
pub proof fn lemma_bang_on_number(b: u64)
    ensures
        unary_result(TokType::Bang, LitV::Num(b)) == Result::<LitV, EvalErrV>::Ok(
            LitV::Bool(num_is_zero(b)),
        ),
{
}

} // verus!
