//! The parser: recursive descent over the token list, one production per
//! precedence level, with binary productions folding to the left. The
//! top-level declaration loop does not stop at the first failure: it
//! records the error, synchronizes at a likely statement boundary, and
//! goes on, so one pass can surface several independent syntax errors.

use vstd::prelude::*;
use vstd::string::StringExecFns;

use crate::code_location::CodeLocV;
use crate::code_location::CodeLocation;
use crate::code_location::code_loc_text;
use crate::dbg_display::DbgDisplay;
use crate::expr::Expr;
use crate::expr::ExprV;
use crate::literal_type::Lit;
use crate::literal_type::LitV;
use crate::stmt::Stmt;
use crate::stmt::StmtV;
use crate::stmt::stmts_v;
use crate::token::Tok;
use crate::token::TokV;
use crate::token::clone_toks;
use crate::token::toks_v;
use crate::token_type::TokType;
use crate::token_type::tok_type_text;

verus! {

#[derive(Debug, PartialEq, Clone)]
pub enum ParserError {
    /// A specific token was required and another was found: carries where,
    /// and the kind that was expected.
    UnexpectedToken(CodeLocation, TokType),
    /// The joined report of every error one parse pass collected.
    ParseError(String),
    /// No production matches at `primary`.
    PrimaryError(CodeLocation),
    /// A literal token lacking its literal payload: an internal invariant
    /// violation.
    UndefinedLiteral(CodeLocation),
}

/// The mathematical reading of a parse error.
pub enum ParseErrV {
    UnexpectedToken(CodeLocV, TokType),
    ParseError(Seq<char>),
    PrimaryError(CodeLocV),
    UndefinedLiteral(CodeLocV),
}

impl View for ParserError {
    type V = ParseErrV;

    open spec fn view(&self) -> ParseErrV {
        match self {
            ParserError::UnexpectedToken(l, t) => ParseErrV::UnexpectedToken(l@, *t),
            ParserError::ParseError(s) => ParseErrV::ParseError(s@),
            ParserError::PrimaryError(l) => ParseErrV::PrimaryError(l@),
            ParserError::UndefinedLiteral(l) => ParseErrV::UndefinedLiteral(l@),
        }
    }
}

/// The report text of a parse error.
pub open spec fn parse_err_text(e: ParseErrV) -> Seq<char> {
    match e {
        ParseErrV::UnexpectedToken(l, t) => "An unexpected token was found. "@ + code_loc_text(l)
            + ". Expected "@ + tok_type_text(t),
        ParseErrV::ParseError(s) => "Parse error: "@ + s,
        ParseErrV::PrimaryError(l) => "No primary: "@ + code_loc_text(l),
        ParseErrV::UndefinedLiteral(l) => "No literal type found: "@ + code_loc_text(l),
    }
}

impl ParserError {
    /// The report text of this error.
    pub fn message(&self) -> (r: String)
        ensures
            r@ == parse_err_text(self@),
    {
        match self {
            ParserError::UnexpectedToken(l, t) => {
                let mut s: String = String::from_str("An unexpected token was found. ");
                let loc: String = l.render();
                s.append(loc.as_str());
                s.append(". Expected ");
                s.append(t.name());
                s
            },
            ParserError::ParseError(text) => {
                let mut s: String = String::from_str("Parse error: ");
                s.append(text.as_str());
                s
            },
            ParserError::PrimaryError(l) => {
                let mut s: String = String::from_str("No primary: ");
                let loc: String = l.render();
                s.append(loc.as_str());
                s
            },
            ParserError::UndefinedLiteral(l) => {
                let mut s: String = String::from_str("No literal type found: ");
                let loc: String = l.render();
                s.append(loc.as_str());
                s
            },
        }
    }
}

/// The token at a position, or a bare end-of-input token at or beyond the
/// end of the list.
pub open spec fn tok_at(ts: Seq<TokV>, pos: int) -> TokV {
    if 0 <= pos < ts.len() {
        ts[pos]
    } else {
        TokV { token_type: TokType::Eof, lexeme: Seq::empty(), literal: Option::None, line: 0 }
    }
}

/// Where an error reports a token: its line, and its lexeme as the snippet.
pub open spec fn tok_loc(t: TokV) -> CodeLocV {
    CodeLocV { line: t.line, text: t.lexeme }
}

/// Whether the cursor stands at the end of the parse: past the list, or on
/// the end-of-input token.
pub open spec fn at_end(ts: Seq<TokV>, pos: int) -> bool {
    pos >= ts.len() || ts[pos].token_type == TokType::Eof
}

/// The result of one expression production: what it parsed or the error it
/// found, and where it left the cursor.
pub struct PExpr {
    pub r: Result<ExprV, ParseErrV>,
    pub next: int,
}

/// The result of one statement production.
pub struct PStmt {
    pub r: Result<StmtV, ParseErrV>,
    pub next: int,
}

/// The result of requiring one specific token.
pub struct CStep {
    pub r: Result<TokV, ParseErrV>,
    pub next: int,
}

/// Requiring one specific token kind: the token itself where it stands at
/// the cursor, which then advances; an error naming the expected kind and
/// the location found otherwise.
pub open spec fn consume_step(ts: Seq<TokV>, pos: int, expected: TokType) -> CStep {
    let t = tok_at(ts, pos);
    if t.token_type == expected {
        CStep {
            r: Result::Ok(t),
            next: if at_end(ts, pos) {
                pos
            } else {
                pos + 1
            },
        }
    } else {
        CStep { r: Result::Err(ParseErrV::UnexpectedToken(tok_loc(t), expected)), next: pos }
    }
}

/// `expression := equality`.
pub open spec fn p_expression(ts: Seq<TokV>, pos: int) -> PExpr
    decreases ts.len() - pos, 10int,
{
    p_equality(ts, pos)
}

/// `equality := comparison (("!=" | "==") comparison)*`, folding left.
pub open spec fn p_equality(ts: Seq<TokV>, pos: int) -> PExpr
    decreases ts.len() - pos, 9int,
{
    let first = p_comparison(ts, pos);
    match first.r {
        Result::Ok(e) => if pos < first.next <= ts.len() {
            p_eq_tail(ts, e, first.next)
        } else {
            first
        },
        Result::Err(_) => first,
    }
}

pub open spec fn p_eq_tail(ts: Seq<TokV>, acc: ExprV, pos: int) -> PExpr
    decreases ts.len() - pos, 8int,
{
    let k = tok_at(ts, pos).token_type;
    if !at_end(ts, pos) && (k == TokType::BangEqual || k == TokType::EqualEqual) {
        let rhs = p_comparison(ts, pos + 1);
        match rhs.r {
            Result::Ok(right) => {
                let folded = ExprV::Binary {
                    left: Box::new(acc),
                    operator: tok_at(ts, pos),
                    right: Box::new(right),
                };
                if pos < rhs.next <= ts.len() {
                    p_eq_tail(ts, folded, rhs.next)
                } else {
                    PExpr { r: Result::Ok(folded), next: rhs.next }
                }
            },
            Result::Err(_) => rhs,
        }
    } else {
        PExpr { r: Result::Ok(acc), next: pos }
    }
}

/// `comparison := term (("<" | "<=" | ">" | ">=") term)*`, folding left.
pub open spec fn p_comparison(ts: Seq<TokV>, pos: int) -> PExpr
    decreases ts.len() - pos, 7int,
{
    let first = p_term(ts, pos);
    match first.r {
        Result::Ok(e) => if pos < first.next <= ts.len() {
            p_cmp_tail(ts, e, first.next)
        } else {
            first
        },
        Result::Err(_) => first,
    }
}

pub open spec fn p_cmp_tail(ts: Seq<TokV>, acc: ExprV, pos: int) -> PExpr
    decreases ts.len() - pos, 6int,
{
    let k = tok_at(ts, pos).token_type;
    if !at_end(ts, pos) && (k == TokType::Greater || k == TokType::GreaterEqual || k
        == TokType::Less || k == TokType::LessEqual) {
        let rhs = p_term(ts, pos + 1);
        match rhs.r {
            Result::Ok(right) => {
                let folded = ExprV::Binary {
                    left: Box::new(acc),
                    operator: tok_at(ts, pos),
                    right: Box::new(right),
                };
                if pos < rhs.next <= ts.len() {
                    p_cmp_tail(ts, folded, rhs.next)
                } else {
                    PExpr { r: Result::Ok(folded), next: rhs.next }
                }
            },
            Result::Err(_) => rhs,
        }
    } else {
        PExpr { r: Result::Ok(acc), next: pos }
    }
}

/// `term := unary (("+" | "-" | "*" | "/") unary)*`, folding left: the four
/// binary arithmetic operators are parsed at one flat level.
pub open spec fn p_term(ts: Seq<TokV>, pos: int) -> PExpr
    decreases ts.len() - pos, 5int,
{
    let first = p_unary(ts, pos);
    match first.r {
        Result::Ok(e) => if pos < first.next <= ts.len() {
            p_term_tail(ts, e, first.next)
        } else {
            first
        },
        Result::Err(_) => first,
    }
}

pub open spec fn p_term_tail(ts: Seq<TokV>, acc: ExprV, pos: int) -> PExpr
    decreases ts.len() - pos, 4int,
{
    let k = tok_at(ts, pos).token_type;
    if !at_end(ts, pos) && (k == TokType::Minus || k == TokType::Plus || k == TokType::Star || k
        == TokType::Slash) {
        let rhs = p_unary(ts, pos + 1);
        match rhs.r {
            Result::Ok(right) => {
                let folded = ExprV::Binary {
                    left: Box::new(acc),
                    operator: tok_at(ts, pos),
                    right: Box::new(right),
                };
                if pos < rhs.next <= ts.len() {
                    p_term_tail(ts, folded, rhs.next)
                } else {
                    PExpr { r: Result::Ok(folded), next: rhs.next }
                }
            },
            Result::Err(_) => rhs,
        }
    } else {
        PExpr { r: Result::Ok(acc), next: pos }
    }
}

/// `unary := ("!" | "-") unary | primary`.
pub open spec fn p_unary(ts: Seq<TokV>, pos: int) -> PExpr
    decreases ts.len() - pos, 2int,
{
    let k = tok_at(ts, pos).token_type;
    if !at_end(ts, pos) && (k == TokType::Bang || k == TokType::Minus) {
        let rhs = p_unary(ts, pos + 1);
        match rhs.r {
            Result::Ok(right) => PExpr {
                r: Result::Ok(
                    ExprV::Unary { operator: tok_at(ts, pos), right: Box::new(right) },
                ),
                next: rhs.next,
            },
            Result::Err(_) => rhs,
        }
    } else {
        p_primary(ts, pos)
    }
}

/// `primary := IDENTIFIER | NUMBER | STRING | "true" | "false" | "nil" |
/// "(" expression ")"`.
pub open spec fn p_primary(ts: Seq<TokV>, pos: int) -> PExpr
    decreases ts.len() - pos, 1int,
{
    let t = tok_at(ts, pos);
    let k = t.token_type;
    if !at_end(ts, pos) && k == TokType::Identifier {
        PExpr { r: Result::Ok(ExprV::Variable { name: t }), next: pos + 1 }
    } else if !at_end(ts, pos) && k == TokType::True {
        PExpr { r: Result::Ok(ExprV::Literal { value: LitV::Bool(true) }), next: pos + 1 }
    } else if !at_end(ts, pos) && k == TokType::False {
        PExpr { r: Result::Ok(ExprV::Literal { value: LitV::Bool(false) }), next: pos + 1 }
    } else if !at_end(ts, pos) && k == TokType::Nil {
        PExpr { r: Result::Ok(ExprV::Literal { value: LitV::Nil }), next: pos + 1 }
    } else if !at_end(ts, pos) && (k == TokType::Number || k == TokType::String) {
        match t.literal {
            Option::Some(v) => PExpr {
                r: Result::Ok(ExprV::Literal { value: v }),
                next: pos + 1,
            },
            Option::None => PExpr {
                r: Result::Err(ParseErrV::UndefinedLiteral(tok_loc(tok_at(ts, pos + 1)))),
                next: pos + 1,
            },
        }
    } else if !at_end(ts, pos) && k == TokType::LeftParen {
        let inner = p_expression(ts, pos + 1);
        match inner.r {
            Result::Ok(e) => {
                let c = consume_step(ts, inner.next, TokType::RightParen);
                match c.r {
                    Result::Ok(_) => PExpr {
                        r: Result::Ok(ExprV::Grouping { expression: Box::new(e) }),
                        next: c.next,
                    },
                    Result::Err(er) => PExpr { r: Result::Err(er), next: c.next },
                }
            },
            Result::Err(_) => inner,
        }
    } else {
        PExpr { r: Result::Err(ParseErrV::PrimaryError(tok_loc(t))), next: pos }
    }
}

/// Whether a token kind begins a statement, for synchronization.
pub open spec fn stmt_start(k: TokType) -> bool {
    k == TokType::Class || k == TokType::Fun || k == TokType::Var || k == TokType::For || k
        == TokType::If || k == TokType::While || k == TokType::Print || k == TokType::Return
}

/// Synchronization after the first advance: skip tokens until either a
/// semicolon was just passed or the next token begins a statement.
pub open spec fn sync_loop(ts: Seq<TokV>, pos: int) -> int
    decreases ts.len() - pos,
{
    if at_end(ts, pos) {
        pos
    } else if tok_at(ts, pos - 1).token_type == TokType::Semicolon {
        pos
    } else if stmt_start(tok_at(ts, pos).token_type) {
        pos
    } else {
        sync_loop(ts, pos + 1)
    }
}

/// Error recovery: advance one token, then skip to a likely statement
/// boundary, so that declaration parsing can resume there.
pub open spec fn p_sync(ts: Seq<TokV>, pos: int) -> int {
    if at_end(ts, pos) {
        sync_loop(ts, pos)
    } else {
        sync_loop(ts, pos + 1)
    }
}

/// `"var" IDENTIFIER ("=" expression)? ";"`, entered after the `var`
/// keyword; an omitted initializer defaults to the nil literal.
pub open spec fn p_var_declaration(ts: Seq<TokV>, pos: int) -> PStmt {
    let c1 = consume_step(ts, pos, TokType::Identifier);
    match c1.r {
        Result::Err(e) => PStmt { r: Result::Err(e), next: c1.next },
        Result::Ok(name) => {
            if !at_end(ts, c1.next) && tok_at(ts, c1.next).token_type == TokType::Equal {
                let init = p_expression(ts, c1.next + 1);
                match init.r {
                    Result::Err(e) => PStmt { r: Result::Err(e), next: init.next },
                    Result::Ok(expr) => {
                        let c2 = consume_step(ts, init.next, TokType::Semicolon);
                        match c2.r {
                            Result::Err(e) => PStmt { r: Result::Err(e), next: c2.next },
                            Result::Ok(_) => PStmt {
                                r: Result::Ok(StmtV::Var { name, expr }),
                                next: c2.next,
                            },
                        }
                    },
                }
            } else {
                let c2 = consume_step(ts, c1.next, TokType::Semicolon);
                match c2.r {
                    Result::Err(e) => PStmt { r: Result::Err(e), next: c2.next },
                    Result::Ok(_) => PStmt {
                        r: Result::Ok(
                            StmtV::Var { name, expr: ExprV::Literal { value: LitV::Nil } },
                        ),
                        next: c2.next,
                    },
                }
            }
        },
    }
}

/// `"print" expression ";"`, entered after the `print` keyword.
pub open spec fn p_print_statement(ts: Seq<TokV>, pos: int) -> PStmt {
    let e = p_expression(ts, pos);
    match e.r {
        Result::Err(err) => PStmt { r: Result::Err(err), next: e.next },
        Result::Ok(expr) => {
            let c = consume_step(ts, e.next, TokType::Semicolon);
            match c.r {
                Result::Err(err) => PStmt { r: Result::Err(err), next: c.next },
                Result::Ok(_) => PStmt { r: Result::Ok(StmtV::Print { expr }), next: c.next },
            }
        },
    }
}

/// `expression ";"`.
pub open spec fn p_expression_statement(ts: Seq<TokV>, pos: int) -> PStmt {
    let e = p_expression(ts, pos);
    match e.r {
        Result::Err(err) => PStmt { r: Result::Err(err), next: e.next },
        Result::Ok(expr) => {
            let c = consume_step(ts, e.next, TokType::Semicolon);
            match c.r {
                Result::Err(err) => PStmt { r: Result::Err(err), next: c.next },
                Result::Ok(_) => PStmt { r: Result::Ok(StmtV::Expr { expr }), next: c.next },
            }
        },
    }
}

/// `statement := "print" expression ";" | expression ";"`.
pub open spec fn p_statement(ts: Seq<TokV>, pos: int) -> PStmt {
    if !at_end(ts, pos) && tok_at(ts, pos).token_type == TokType::Print {
        p_print_statement(ts, pos + 1)
    } else {
        p_expression_statement(ts, pos)
    }
}

/// `declaration := "var" ... | statement`; a failing statement
/// synchronizes before the error is handed up.
pub open spec fn p_declaration(ts: Seq<TokV>, pos: int) -> PStmt {
    if !at_end(ts, pos) && tok_at(ts, pos).token_type == TokType::Var {
        p_var_declaration(ts, pos + 1)
    } else {
        let s = p_statement(ts, pos);
        match s.r {
            Result::Ok(_) => s,
            Result::Err(e) => PStmt { r: Result::Err(e), next: p_sync(ts, s.next) },
        }
    }
}

/// What the declaration loop collects from a whole pass: the statements in
/// order, and every error found, with parsing resumed after each.
pub struct PProgram {
    pub stmts: Seq<StmtV>,
    pub errs: Seq<ParseErrV>,
    pub next: int,
}

pub open spec fn p_program(ts: Seq<TokV>, pos: int) -> PProgram
    decreases ts.len() - pos,
{
    if at_end(ts, pos) {
        PProgram { stmts: Seq::empty(), errs: Seq::empty(), next: pos }
    } else {
        let d = p_declaration(ts, pos);
        if pos < d.next <= ts.len() {
            let rest = p_program(ts, d.next);
            match d.r {
                Result::Ok(s) => PProgram {
                    stmts: seq![s] + rest.stmts,
                    errs: rest.errs,
                    next: rest.next,
                },
                Result::Err(e) => PProgram {
                    stmts: rest.stmts,
                    errs: seq![e] + rest.errs,
                    next: rest.next,
                },
            }
        } else {
            match d.r {
                Result::Ok(s) => PProgram { stmts: seq![s], errs: Seq::empty(), next: d.next },
                Result::Err(e) => PProgram { stmts: Seq::empty(), errs: seq![e], next: d.next },
            }
        }
    }
}

/// The collected error reports, joined with a line break between any two.
pub open spec fn join_err_texts(es: Seq<ParseErrV>, i: int) -> Seq<char>
    decreases es.len() - i,
{
    if i < 0 || i >= es.len() {
        Seq::empty()
    } else if i == es.len() - 1 {
        parse_err_text(es[i])
    } else {
        parse_err_text(es[i]) + "\n"@ + join_err_texts(es, i + 1)
    }
}

/// What one whole parse pass from a position returns: the statement list
/// where no declaration failed, and otherwise the aggregate of all
/// collected errors.
pub open spec fn parse_from(ts: Seq<TokV>, pos: int) -> Result<Seq<StmtV>, ParseErrV> {
    let p = p_program(ts, pos);
    if p.errs.len() > 0 {
        Result::Err(ParseErrV::ParseError(join_err_texts(p.errs, 0)))
    } else {
        Result::Ok(p.stmts)
    }
}

/// The mathematical reading of an expression parse outcome.
pub open spec fn expr_result_v(r: Result<Expr, ParserError>) -> Result<ExprV, ParseErrV> {
    match r {
        Result::Ok(e) => Result::Ok(e@),
        Result::Err(err) => Result::Err(err@),
    }
}

/// The mathematical reading of a statement parse outcome.
pub open spec fn stmt_result_v(r: Result<Stmt, ParserError>) -> Result<StmtV, ParseErrV> {
    match r {
        Result::Ok(s) => Result::Ok(s@),
        Result::Err(err) => Result::Err(err@),
    }
}

/// The readings of collected errors, in order.
pub open spec fn perrs_v(es: Seq<ParserError>) -> Seq<ParseErrV> {
    es.map_values(|e: ParserError| e@)
}

/// Joins the report texts of the collected errors from index `i` on, with
/// a line break between any two.
fn join_messages(errors: &Vec<ParserError>, i: usize) -> (s: String)
    requires
        i <= errors@.len(),
    ensures
        s@ == join_err_texts(perrs_v(errors@), i as int),
    decreases errors@.len() - i,
{
    if i >= errors.len() {
        String::new()
    } else if i == errors.len() - 1 {
        errors[i].message()
    } else {
        let mut s: String = errors[i].message();
        s.append("\n");
        let rest: String = join_messages(errors, i + 1);
        s.append(rest.as_str());
        s
    }
}

pub struct Parser {
    pub tokens: Vec<Tok>,
    pub current: usize,
}

impl Parser {
    pub fn new(tokens: &Vec<Tok>) -> (p: Self)
        ensures
            toks_v(p.tokens@) == toks_v(tokens@),
            p.current == 0,
    {
        Self { current: 0, tokens: clone_toks(tokens) }
    }

    fn is_at_end(&self) -> (r: bool)
        ensures
            r == at_end(toks_v(self.tokens@), self.current as int),
    {
        if self.current >= self.tokens.len() {
            true
        } else {
            self.tokens[self.current].token_type == TokType::Eof
        }
    }

    /// The token at the cursor, or a bare end-of-input token past the end.
    fn peek(&self) -> (t: Tok)
        ensures
            t@ == tok_at(toks_v(self.tokens@), self.current as int),
    {
        if self.current < self.tokens.len() {
            self.tokens[self.current].clone_tok()
        } else {
            Tok {
                token_type: TokType::Eof,
                lexeme: String::new(),
                literal: Option::None,
                line: 0,
            }
        }
    }

    fn advance(&mut self)
        ensures
            final(self).tokens@ == old(self).tokens@,
            final(self).current == if at_end(toks_v(old(self).tokens@), old(self).current as int) {
                old(self).current as int
            } else {
                old(self).current + 1
            },
    {
        if !self.is_at_end() {
            proof {
                vstd::std_specs::vec::axiom_spec_len(&self.tokens);
            }
            self.current = self.current + 1;
        }
    }

    fn previous(&self) -> (t: Tok)
        requires
            1 <= self.current <= self.tokens@.len(),
        ensures
            t@ == toks_v(self.tokens@)[self.current - 1],
    {
        self.tokens[self.current - 1].clone_tok()
    }

    fn match_token(&self, token_type: TokType) -> (r: bool)
        ensures
            r == (!at_end(toks_v(self.tokens@), self.current as int) && tok_at(
                toks_v(self.tokens@),
                self.current as int,
            ).token_type == token_type),
    {
        if self.is_at_end() {
            return false;
        }
        self.tokens[self.current].token_type == token_type
    }

    /// Requires one specific token kind at the cursor, advancing past it;
    /// anything else is an error naming the expected kind.
    fn consume(&mut self, token_type: TokType) -> (r: Result<Tok, ParserError>)
        requires
            token_type != TokType::Eof,
            old(self).current <= old(self).tokens@.len(),
        ensures
            final(self).tokens@ == old(self).tokens@,
            ({
                let c = consume_step(toks_v(old(self).tokens@), old(self).current as int, token_type);
                &&& final(self).current == c.next
                &&& old(self).current <= final(self).current <= final(self).tokens@.len()
                &&& match (r, c.r) {
                    (Result::Ok(t), Result::Ok(tv)) => t@ == tv,
                    (Result::Err(e), Result::Err(ev)) => e@ == ev,
                    _ => false,
                }
            }),
    {
        proof {
            vstd::std_specs::vec::axiom_spec_len(&self.tokens);
        }
        let token = self.peek();
        if token_type == token.token_type {
            self.advance();
            Result::Ok(token)
        } else {
            Result::Err(
                ParserError::UnexpectedToken(
                    CodeLocation { line: token.line, display: DbgDisplay::from(token.lexeme) },
                    token_type,
                ),
            )
        }
    }

    /// `expression := equality`.
    pub fn expression(&mut self) -> (r: Result<Expr, ParserError>)
        requires
            old(self).current <= old(self).tokens@.len(),
        ensures
            final(self).tokens@ == old(self).tokens@,
            ({
                let p = p_expression(toks_v(old(self).tokens@), old(self).current as int);
                &&& expr_result_v(r) == p.r
                &&& final(self).current == p.next
                &&& old(self).current <= final(self).current <= final(self).tokens@.len()
                &&& (r is Ok ==> final(self).current > old(self).current)
            }),
        decreases old(self).tokens@.len() - old(self).current, 10int,
    {
        self.equality()
    }

    #[verifier::loop_isolation(false)]
    fn equality(&mut self) -> (r: Result<Expr, ParserError>)
        requires
            old(self).current <= old(self).tokens@.len(),
        ensures
            final(self).tokens@ == old(self).tokens@,
            ({
                let p = p_equality(toks_v(old(self).tokens@), old(self).current as int);
                &&& expr_result_v(r) == p.r
                &&& final(self).current == p.next
                &&& old(self).current <= final(self).current <= final(self).tokens@.len()
                &&& (r is Ok ==> final(self).current > old(self).current)
            }),
        decreases old(self).tokens@.len() - old(self).current, 9int,
    {
        let ghost ts = toks_v(self.tokens@);
        let mut expr = match self.comparison() {
            Result::Ok(e) => e,
            Result::Err(error) => {
                return Result::Err(error);
            },
        };
        while self.match_token(TokType::BangEqual) || self.match_token(TokType::EqualEqual)
            invariant
                self.tokens@ == old(self).tokens@,
                toks_v(self.tokens@) == ts,
                old(self).current < self.current <= self.tokens@.len(),
                p_equality(ts, old(self).current as int) == p_eq_tail(
                    ts,
                    expr@,
                    self.current as int,
                ),
            decreases self.tokens@.len() - self.current,
        {
            self.advance();
            let operator = self.previous();
            let right = match self.comparison() {
                Result::Ok(e) => e,
                Result::Err(error) => {
                    return Result::Err(error);
                },
            };
            expr = Expr::Binary { left: Box::new(expr), operator, right: Box::new(right) };
        }
        Result::Ok(expr)
    }

    #[verifier::loop_isolation(false)]
    fn comparison(&mut self) -> (r: Result<Expr, ParserError>)
        requires
            old(self).current <= old(self).tokens@.len(),
        ensures
            final(self).tokens@ == old(self).tokens@,
            ({
                let p = p_comparison(toks_v(old(self).tokens@), old(self).current as int);
                &&& expr_result_v(r) == p.r
                &&& final(self).current == p.next
                &&& old(self).current <= final(self).current <= final(self).tokens@.len()
                &&& (r is Ok ==> final(self).current > old(self).current)
            }),
        decreases old(self).tokens@.len() - old(self).current, 7int,
    {
        let ghost ts = toks_v(self.tokens@);
        let mut expr = match self.term() {
            Result::Ok(e) => e,
            Result::Err(error) => {
                return Result::Err(error);
            },
        };
        while self.match_token(TokType::Greater) || self.match_token(TokType::GreaterEqual)
            || self.match_token(TokType::Less) || self.match_token(TokType::LessEqual)
            invariant
                self.tokens@ == old(self).tokens@,
                toks_v(self.tokens@) == ts,
                old(self).current < self.current <= self.tokens@.len(),
                p_comparison(ts, old(self).current as int) == p_cmp_tail(
                    ts,
                    expr@,
                    self.current as int,
                ),
            decreases self.tokens@.len() - self.current,
        {
            self.advance();
            let operator = self.previous();
            let right = match self.term() {
                Result::Ok(e) => e,
                Result::Err(error) => {
                    return Result::Err(error);
                },
            };
            expr = Expr::Binary { left: Box::new(expr), operator, right: Box::new(right) };
        }
        Result::Ok(expr)
    }

    #[verifier::loop_isolation(false)]
    fn term(&mut self) -> (r: Result<Expr, ParserError>)
        requires
            old(self).current <= old(self).tokens@.len(),
        ensures
            final(self).tokens@ == old(self).tokens@,
            ({
                let p = p_term(toks_v(old(self).tokens@), old(self).current as int);
                &&& expr_result_v(r) == p.r
                &&& final(self).current == p.next
                &&& old(self).current <= final(self).current <= final(self).tokens@.len()
                &&& (r is Ok ==> final(self).current > old(self).current)
            }),
        decreases old(self).tokens@.len() - old(self).current, 5int,
    {
        let ghost ts = toks_v(self.tokens@);
        let mut expr = match self.unary() {
            Result::Ok(e) => e,
            Result::Err(error) => {
                return Result::Err(error);
            },
        };
        while self.match_token(TokType::Minus) || self.match_token(TokType::Plus)
            || self.match_token(TokType::Star) || self.match_token(TokType::Slash)
            invariant
                self.tokens@ == old(self).tokens@,
                toks_v(self.tokens@) == ts,
                old(self).current < self.current <= self.tokens@.len(),
                p_term(ts, old(self).current as int) == p_term_tail(
                    ts,
                    expr@,
                    self.current as int,
                ),
            decreases self.tokens@.len() - self.current,
        {
            self.advance();
            let operator = self.previous();
            let right = match self.unary() {
                Result::Ok(e) => e,
                Result::Err(error) => {
                    return Result::Err(error);
                },
            };
            expr = Expr::Binary { left: Box::new(expr), operator, right: Box::new(right) };
        }
        Result::Ok(expr)
    }

    fn unary(&mut self) -> (r: Result<Expr, ParserError>)
        requires
            old(self).current <= old(self).tokens@.len(),
        ensures
            final(self).tokens@ == old(self).tokens@,
            ({
                let p = p_unary(toks_v(old(self).tokens@), old(self).current as int);
                &&& expr_result_v(r) == p.r
                &&& final(self).current == p.next
                &&& old(self).current <= final(self).current <= final(self).tokens@.len()
                &&& (r is Ok ==> final(self).current > old(self).current)
            }),
        decreases old(self).tokens@.len() - old(self).current, 2int,
    {
        if self.match_token(TokType::Bang) || self.match_token(TokType::Minus) {
            self.advance();
            let operator = self.previous();
            let right = match self.unary() {
                Result::Ok(e) => e,
                Result::Err(error) => {
                    return Result::Err(error);
                },
            };
            return Result::Ok(Expr::Unary { operator, right: Box::new(right) });
        }
        self.primary()
    }

    fn primary(&mut self) -> (r: Result<Expr, ParserError>)
        requires
            old(self).current <= old(self).tokens@.len(),
        ensures
            final(self).tokens@ == old(self).tokens@,
            ({
                let p = p_primary(toks_v(old(self).tokens@), old(self).current as int);
                &&& expr_result_v(r) == p.r
                &&& final(self).current == p.next
                &&& old(self).current <= final(self).current <= final(self).tokens@.len()
                &&& (r is Ok ==> final(self).current > old(self).current)
            }),
        decreases old(self).tokens@.len() - old(self).current, 1int,
    {
        if self.match_token(TokType::Identifier) {
            self.advance();
            let name = self.previous();
            return Result::Ok(Expr::Variable { name });
        }
        if self.match_token(TokType::True) {
            self.advance();
            return Result::Ok(Expr::Literal { value: Lit::Bool(true) });
        }
        if self.match_token(TokType::False) {
            self.advance();
            return Result::Ok(Expr::Literal { value: Lit::Bool(false) });
        }
        if self.match_token(TokType::Nil) {
            self.advance();
            return Result::Ok(Expr::Literal { value: Lit::Nil });
        }
        if self.match_token(TokType::Number) || self.match_token(TokType::String) {
            self.advance();
            let token = self.previous();
            return match token.literal {
                Option::Some(value) => Result::Ok(Expr::Literal { value }),
                Option::None => {
                    let found = self.peek();
                    Result::Err(
                        ParserError::UndefinedLiteral(
                            CodeLocation {
                                line: found.line,
                                display: DbgDisplay::from(found.lexeme),
                            },
                        ),
                    )
                },
            };
        }
        if self.match_token(TokType::LeftParen) {
            self.advance();
            let expr = match self.expression() {
                Result::Ok(e) => e,
                Result::Err(error) => {
                    return Result::Err(error);
                },
            };
            return match self.consume(TokType::RightParen) {
                Result::Ok(_) => Result::Ok(Expr::Grouping { expression: Box::new(expr) }),
                Result::Err(error) => Result::Err(error),
            };
        }
        let found = self.peek();
        Result::Err(
            ParserError::PrimaryError(
                CodeLocation { line: found.line, display: DbgDisplay::from(found.lexeme) },
            ),
        )
    }

    /// Error recovery: advance one token, then skip tokens until either a
    /// semicolon was just consumed or the next token begins a statement.
    #[verifier::loop_isolation(false)]
    fn synchronise(&mut self)
        requires
            old(self).current <= old(self).tokens@.len(),
        ensures
            final(self).tokens@ == old(self).tokens@,
            final(self).current == p_sync(toks_v(old(self).tokens@), old(self).current as int),
            old(self).current <= final(self).current <= final(self).tokens@.len(),
            !at_end(toks_v(old(self).tokens@), old(self).current as int) ==> final(self).current
                >= old(self).current + 1,
    {
        let ghost ts = toks_v(self.tokens@);
        let ghost entry = self.current as int;
        self.advance();
        while !self.is_at_end()
            invariant
                self.tokens@ == old(self).tokens@,
                toks_v(self.tokens@) == ts,
                old(self).current <= self.current <= self.tokens@.len(),
                at_end(ts, entry) ==> self.current == entry,
                !at_end(ts, entry) ==> self.current >= entry + 1,
                p_sync(ts, entry) == sync_loop(ts, self.current as int),
            decreases self.tokens@.len() - self.current,
        {
            if self.previous().token_type == TokType::Semicolon {
                return ;
            }
            match self.peek().token_type {
                TokType::Class => {
                    return ;
                },
                TokType::Fun => {
                    return ;
                },
                TokType::Var => {
                    return ;
                },
                TokType::For => {
                    return ;
                },
                TokType::If => {
                    return ;
                },
                TokType::While => {
                    return ;
                },
                TokType::Print => {
                    return ;
                },
                TokType::Return => {
                    return ;
                },
                _ => {
                    self.advance();
                },
            }
        }
    }

    /// `"var" IDENTIFIER ("=" expression)? ";"`, entered after `var`.
    fn var_declaration(&mut self) -> (r: Result<Stmt, ParserError>)
        requires
            old(self).current <= old(self).tokens@.len(),
        ensures
            final(self).tokens@ == old(self).tokens@,
            ({
                let p = p_var_declaration(toks_v(old(self).tokens@), old(self).current as int);
                &&& stmt_result_v(r) == p.r
                &&& final(self).current == p.next
                &&& old(self).current <= final(self).current <= final(self).tokens@.len()
            }),
    {
        let token = match self.consume(TokType::Identifier) {
            Result::Ok(t) => t,
            Result::Err(error) => {
                return Result::Err(error);
            },
        };
        let initialiser = if self.match_token(TokType::Equal) {
            self.advance();
            match self.expression() {
                Result::Ok(e) => e,
                Result::Err(error) => {
                    return Result::Err(error);
                },
            }
        } else {
            Expr::Literal { value: Lit::Nil }
        };
        match self.consume(TokType::Semicolon) {
            Result::Ok(_) => Result::Ok(Stmt::Var { name: token, expr: initialiser }),
            Result::Err(error) => Result::Err(error),
        }
    }

    /// `"print" expression ";"`, entered after `print`.
    fn print_statement(&mut self) -> (r: Result<Stmt, ParserError>)
        requires
            old(self).current <= old(self).tokens@.len(),
        ensures
            final(self).tokens@ == old(self).tokens@,
            ({
                let p = p_print_statement(toks_v(old(self).tokens@), old(self).current as int);
                &&& stmt_result_v(r) == p.r
                &&& final(self).current == p.next
                &&& old(self).current <= final(self).current <= final(self).tokens@.len()
            }),
    {
        let value = match self.expression() {
            Result::Ok(e) => e,
            Result::Err(error) => {
                return Result::Err(error);
            },
        };
        match self.consume(TokType::Semicolon) {
            Result::Ok(_) => Result::Ok(Stmt::Print { expr: value }),
            Result::Err(error) => Result::Err(error),
        }
    }

    /// `expression ";"`.
    fn expression_statement(&mut self) -> (r: Result<Stmt, ParserError>)
        requires
            old(self).current <= old(self).tokens@.len(),
        ensures
            final(self).tokens@ == old(self).tokens@,
            ({
                let p = p_expression_statement(
                    toks_v(old(self).tokens@),
                    old(self).current as int,
                );
                &&& stmt_result_v(r) == p.r
                &&& final(self).current == p.next
                &&& old(self).current <= final(self).current <= final(self).tokens@.len()
                &&& (r is Ok ==> final(self).current > old(self).current)
            }),
    {
        let expr = match self.expression() {
            Result::Ok(e) => e,
            Result::Err(error) => {
                return Result::Err(error);
            },
        };
        match self.consume(TokType::Semicolon) {
            Result::Ok(_) => Result::Ok(Stmt::Expr { expr }),
            Result::Err(error) => Result::Err(error),
        }
    }

    /// `statement := "print" expression ";" | expression ";"`.
    fn statement(&mut self) -> (r: Result<Stmt, ParserError>)
        requires
            old(self).current <= old(self).tokens@.len(),
        ensures
            final(self).tokens@ == old(self).tokens@,
            ({
                let p = p_statement(toks_v(old(self).tokens@), old(self).current as int);
                &&& stmt_result_v(r) == p.r
                &&& final(self).current == p.next
                &&& old(self).current <= final(self).current <= final(self).tokens@.len()
                &&& (r is Ok ==> final(self).current > old(self).current)
            }),
    {
        if self.match_token(TokType::Print) {
            self.advance();
            self.print_statement()
        } else {
            self.expression_statement()
        }
    }

    /// One declaration; a failing statement synchronizes before the error
    /// is handed up.
    fn declaration(&mut self) -> (r: Result<Stmt, ParserError>)
        requires
            old(self).current <= old(self).tokens@.len(),
        ensures
            final(self).tokens@ == old(self).tokens@,
            ({
                let p = p_declaration(toks_v(old(self).tokens@), old(self).current as int);
                &&& stmt_result_v(r) == p.r
                &&& final(self).current == p.next
                &&& old(self).current <= final(self).current <= final(self).tokens@.len()
                &&& (!at_end(toks_v(old(self).tokens@), old(self).current as int)
                    ==> final(self).current > old(self).current)
            }),
    {
        if self.match_token(TokType::Var) {
            self.advance();
            return self.var_declaration();
        }
        let statement = self.statement();
        match statement {
            Result::Ok(s) => Result::Ok(s),
            Result::Err(error) => {
                self.synchronise();
                Result::Err(error)
            },
        }
    }

    /// One whole pass over the declarations: collects the statements, and
    /// on any failure the aggregate of all collected errors instead.
    #[verifier::loop_isolation(false)]
    pub fn parse(&mut self) -> (r: Result<Vec<Stmt>, ParserError>)
        requires
            old(self).current <= old(self).tokens@.len(),
        ensures
            final(self).tokens@ == old(self).tokens@,
            match r {
                Result::Ok(v) => parse_from(toks_v(old(self).tokens@), old(self).current as int)
                    matches Result::Ok(ss) && stmts_v(v@) == ss,
                Result::Err(e) => parse_from(toks_v(old(self).tokens@), old(self).current as int)
                    == Result::<Seq<StmtV>, ParseErrV>::Err(e@),
            },
    {
        let ghost ts = toks_v(self.tokens@);
        let ghost pos0 = self.current as int;
        let mut stmts: Vec<Stmt> = Vec::new();
        let mut errors: Vec<ParserError> = Vec::new();
        while !self.is_at_end()
            invariant
                self.tokens@ == old(self).tokens@,
                toks_v(self.tokens@) == ts,
                pos0 <= self.current <= self.tokens@.len(),
                p_program(ts, pos0).stmts == stmts_v(stmts@) + p_program(
                    ts,
                    self.current as int,
                ).stmts,
                p_program(ts, pos0).errs == perrs_v(errors@) + p_program(
                    ts,
                    self.current as int,
                ).errs,
            decreases self.tokens@.len() - self.current,
        {
            let ghost cur = self.current as int;
            let ghost stmts_before = stmts_v(stmts@);
            let ghost errs_before = perrs_v(errors@);
            let statement = self.declaration();
            match statement {
                Result::Ok(stmt) => {
                    stmts.push(stmt);
                    proof {
                        assert(stmts_v(stmts@) =~= stmts_before + seq![stmts@.last()@]);
                        let rest = p_program(ts, self.current as int);
                        assert(stmts_before + (seq![stmts@.last()@] + rest.stmts)
                            =~= (stmts_before + seq![stmts@.last()@]) + rest.stmts);
                    }
                },
                Result::Err(error) => {
                    errors.push(error);
                    proof {
                        assert(perrs_v(errors@) =~= errs_before + seq![errors@.last()@]);
                        let rest = p_program(ts, self.current as int);
                        assert(errs_before + (seq![errors@.last()@] + rest.errs) =~= (errs_before
                            + seq![errors@.last()@]) + rest.errs);
                    }
                },
            }
        }
        proof {
            let done = p_program(ts, self.current as int);
            assert(done.stmts =~= Seq::<StmtV>::empty());
            assert(done.errs =~= Seq::<ParseErrV>::empty());
            assert(stmts_v(stmts@) + done.stmts =~= stmts_v(stmts@));
            assert(perrs_v(errors@) + done.errs =~= perrs_v(errors@));
        }
        if errors.len() > 0 {
            let joined = join_messages(&errors, 0);
            return Result::Err(ParserError::ParseError(joined));
        }
        Result::Ok(stmts)
    }
}

} // verus!
