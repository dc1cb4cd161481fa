//! The statement forms of the language: an expression statement, a print
//! statement, and a variable declaration.

use vstd::prelude::*;

use crate::expr::Expr;
use crate::expr::ExprV;
use crate::expr::expr_v;
use crate::token::Tok;
use crate::token::TokV;

verus! {

#[derive(Debug)]
pub enum Stmt {
    Expr { expr: Expr },
    Print { expr: Expr },
    Var { name: Tok, expr: Expr },
}

/// The mathematical reading of a statement.
pub enum StmtV {
    Expr { expr: ExprV },
    Print { expr: ExprV },
    Var { name: TokV, expr: ExprV },
}

impl View for Stmt {
    type V = StmtV;

    open spec fn view(&self) -> StmtV {
        match self {
            Stmt::Expr { expr } => StmtV::Expr { expr: expr_v(*expr) },
            Stmt::Print { expr } => StmtV::Print { expr: expr_v(*expr) },
            Stmt::Var { name, expr } => StmtV::Var { name: name@, expr: expr_v(*expr) },
        }
    }
}

/// The readings of a statement list, in order.
pub open spec fn stmts_v(ss: Seq<Stmt>) -> Seq<StmtV> {
    ss.map_values(|s: Stmt| s@)
}

} // verus!
