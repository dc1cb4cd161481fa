//! The expression tree: an immutable, exclusively owned tree of literals,
//! groupings, unary and binary applications, and variable uses.

use vstd::prelude::*;
use vstd::string::StringExecFns;

use crate::literal_type::Lit;
use crate::literal_type::LitV;
use crate::literal_type::lit_text;
use crate::token::Tok;
use crate::token::TokV;

verus! {

#[derive(Debug)]
pub enum Expr {
    /// Two operands (the items on either side of the operator) like `1 + 1`
    /// or `3 != 2`.
    Binary { left: Box<Expr>, operator: Tok, right: Box<Expr> },
    Grouping { expression: Box<Expr> },
    Literal { value: Lit },
    /// Something like `!x` or `-x`.
    Unary { operator: Tok, right: Box<Expr> },
    Variable { name: Tok },
}

/// The mathematical reading of an expression tree.
pub enum ExprV {
    Binary { left: Box<ExprV>, operator: TokV, right: Box<ExprV> },
    Grouping { expression: Box<ExprV> },
    Literal { value: LitV },
    Unary { operator: TokV, right: Box<ExprV> },
    Variable { name: TokV },
}

pub open spec fn expr_v(e: Expr) -> ExprV
    decreases e,
{
    match e {
        Expr::Binary { left, operator, right } => ExprV::Binary {
            left: Box::new(expr_v(*left)),
            operator: operator@,
            right: Box::new(expr_v(*right)),
        },
        Expr::Grouping { expression } => ExprV::Grouping {
            expression: Box::new(expr_v(*expression)),
        },
        Expr::Literal { value } => ExprV::Literal { value: value@ },
        Expr::Unary { operator, right } => ExprV::Unary {
            operator: operator@,
            right: Box::new(expr_v(*right)),
        },
        Expr::Variable { name } => ExprV::Variable { name: name@ },
    }
}

impl View for Expr {
    type V = ExprV;

    open spec fn view(&self) -> ExprV {
        expr_v(*self)
    }
}

/// The fully parenthesized rendering of an expression: an application is
/// written `(operator operands...)`, a grouping `(group inner)`, a literal
/// as its value's text, and a variable as its name.
pub open spec fn expr_text(e: ExprV) -> Seq<char>
    decreases e,
{
    match e {
        ExprV::Binary { left, operator, right } => "("@ + operator.lexeme + " "@ + expr_text(
            *left,
        ) + " "@ + expr_text(*right) + ")"@,
        ExprV::Grouping { expression } => "(group "@ + expr_text(*expression) + ")"@,
        ExprV::Literal { value } => lit_text(value),
        ExprV::Unary { operator, right } => "("@ + operator.lexeme + " "@ + expr_text(*right)
            + ")"@,
        ExprV::Variable { name } => name.lexeme,
    }
}

impl Expr {
    /// The fully parenthesized rendering of this expression.
    pub fn to_string(&self) -> (r: String)
        ensures
            r@ == expr_text(self@),
        decreases *self,
    {
        match self {
            Expr::Binary { left, operator, right } => {
                let mut s: String = String::from_str("(");
                s.append(operator.lexeme.as_str());
                s.append(" ");
                let l: String = left.to_string();
                s.append(l.as_str());
                s.append(" ");
                let r: String = right.to_string();
                s.append(r.as_str());
                s.append(")");
                s
            },
            Expr::Grouping { expression } => {
                let mut s: String = String::from_str("(group ");
                let inner: String = expression.to_string();
                s.append(inner.as_str());
                s.append(")");
                s
            },
            Expr::Literal { value } => value.to_text(),
            Expr::Unary { operator, right } => {
                let mut s: String = String::from_str("(");
                s.append(operator.lexeme.as_str());
                s.append(" ");
                let r: String = right.to_string();
                s.append(r.as_str());
                s.append(")");
                s
            },
            Expr::Variable { name } => name.lexeme.clone(),
        }
    }

    pub fn clone_expr(&self) -> (r: Expr)
        ensures
            r@ == self@,
        decreases *self,
    {
        match self {
            Expr::Binary { left, operator, right } => Expr::Binary {
                left: Box::new(left.clone_expr()),
                operator: operator.clone_tok(),
                right: Box::new(right.clone_expr()),
            },
            Expr::Grouping { expression } => Expr::Grouping {
                expression: Box::new(expression.clone_expr()),
            },
            Expr::Literal { value } => Expr::Literal { value: value.clone_lit() },
            Expr::Unary { operator, right } => Expr::Unary {
                operator: operator.clone_tok(),
                right: Box::new(right.clone_expr()),
            },
            Expr::Variable { name } => Expr::Variable { name: name.clone_tok() },
        }
    }
}

} // verus!
