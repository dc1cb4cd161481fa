//! Statement execution: statements run in source order against one owned
//! environment; a print statement renders its value, a declaration binds
//! its name, and the first evaluation error aborts the remaining
//! statements of the run.

use vstd::prelude::*;

use crate::environment::Environment;
use crate::evaluator::EvalErrV;
use crate::evaluator::EvalError;
use crate::evaluator::Evaluator;
use crate::evaluator::eval_expr_v;
use crate::literal_type::LitV;
use crate::literal_type::lit_text;
use crate::stmt::Stmt;
use crate::stmt::StmtV;
use crate::stmt::stmts_v;

verus! {

/// The readings of a list of rendered outputs, in order.
pub open spec fn strs_v(ss: Seq<String>) -> Seq<Seq<char>> {
    ss.map_values(|s: String| s@)
}

/// What running statements leaves behind: the environment, the renderings
/// printed in order, and the error that stopped the run, if one did.
pub struct ExecOut {
    pub env: Map<Seq<char>, LitV>,
    pub prints: Seq<Seq<char>>,
    pub err: Option<EvalErrV>,
}

/// What one statement does to the environment and the output.
pub open spec fn exec_stmt(s: StmtV, env: Map<Seq<char>, LitV>) -> ExecOut {
    match s {
        StmtV::Expr { expr } => match eval_expr_v(expr, env) {
            Result::Ok(_) => ExecOut { env, prints: Seq::empty(), err: Option::None },
            Result::Err(e) => ExecOut { env, prints: Seq::empty(), err: Option::Some(e) },
        },
        StmtV::Print { expr } => match eval_expr_v(expr, env) {
            Result::Ok(v) => ExecOut {
                env,
                prints: seq![lit_text(v)],
                err: Option::None,
            },
            Result::Err(e) => ExecOut { env, prints: Seq::empty(), err: Option::Some(e) },
        },
        StmtV::Var { name, expr } => match eval_expr_v(expr, env) {
            Result::Ok(v) => ExecOut {
                env: env.insert(name.lexeme, v),
                prints: Seq::empty(),
                err: Option::None,
            },
            Result::Err(e) => ExecOut { env, prints: Seq::empty(), err: Option::Some(e) },
        },
    }
}

/// What a statement list does, in order, failing fast: an error keeps the
/// outputs and bindings of the statements before it and stops there.
pub open spec fn exec_stmts(ss: Seq<StmtV>, env: Map<Seq<char>, LitV>) -> ExecOut
    decreases ss.len(),
{
    if ss.len() == 0 {
        ExecOut { env, prints: Seq::empty(), err: Option::None }
    } else {
        let first = exec_stmt(ss[0], env);
        match first.err {
            Option::Some(_) => first,
            Option::None => {
                let rest = exec_stmts(ss.drop_first(), first.env);
                ExecOut { env: rest.env, prints: first.prints + rest.prints, err: rest.err }
            },
        }
    }
}

/// Drives the evaluation of whole statement lists against one owned
/// environment.
pub struct Interpreter {
    pub environment: Environment,
}

impl Interpreter {
    pub fn new() -> (r: Self)
        ensures
            r.environment@ == Map::<Seq<char>, LitV>::empty(),
    {
        Self { environment: Environment::new() }
    }

    /// Evaluates the evaluator's expression against this interpreter's
    /// environment, which it only reads.
    pub fn interpret_expr(&mut self, evaluator: &mut Evaluator) -> (r: Result<
        crate::literal_type::Lit,
        EvalError,
    >)
        ensures
            final(self).environment@ == old(self).environment@,
            final(evaluator)@ == old(evaluator)@,
            crate::evaluator::eval_result_v(r) == eval_expr_v(
                old(evaluator)@,
                old(self).environment@,
            ),
    {
        evaluator.evaluate(Option::None, &mut self.environment)
    }

    /// Runs the statements in source order, appending each printed
    /// rendering to `out`; the first evaluation error aborts the rest.
    #[verifier::loop_isolation(false)]
    pub fn interpret_stmts(&mut self, statements: Vec<Stmt>, out: &mut Vec<String>) -> (r: Result<
        (),
        EvalError,
    >)
        ensures
            ({
                let o = exec_stmts(stmts_v(statements@), old(self).environment@);
                &&& final(self).environment@ == o.env
                &&& strs_v(final(out)@) == strs_v(old(out)@) + o.prints
                &&& match r {
                    Result::Ok(_) => o.err is None,
                    Result::Err(e) => o.err == Option::Some(e@),
                }
            }),
    {
        let ghost ss = stmts_v(statements@);
        let ghost env0 = self.environment@;
        let ghost n0 = old(out)@.len() as int;
        let mut i: usize = 0;
        proof {
            vstd::std_specs::vec::axiom_spec_len(&statements);
            assert(ss.skip(0) =~= ss);
            assert(strs_v(out@).take(n0) =~= strs_v(old(out)@));
        }
        while i < statements.len()
            invariant
                i <= statements@.len(),
                out@.len() >= n0,
                strs_v(out@).take(n0) == strs_v(old(out)@),
                ({
                    let full = exec_stmts(ss, env0);
                    let rest = exec_stmts(ss.skip(i as int), self.environment@);
                    &&& full.env == rest.env
                    &&& full.err == rest.err
                    &&& full.prints == strs_v(out@).skip(n0) + rest.prints
                }),
            decreases statements@.len() - i,
        {
            let ghost rest_before = exec_stmts(ss.skip(i as int), self.environment@);
            proof {
                assert(ss.skip(i as int)[0] == ss[i as int]);
                assert(ss.skip(i as int).drop_first() =~= ss.skip(i + 1));
            }
            match &statements[i] {
                Stmt::Expr { expr } => {
                    let evaluator = Evaluator::new(expr);
                    match evaluator.evaluate(Option::None, &mut self.environment) {
                        Result::Ok(_) => {
                            proof {
                                assert(strs_v(out@).skip(n0) + rest_before.prints =~= strs_v(out@)
                                    .skip(n0) + (Seq::<Seq<char>>::empty() + exec_stmts(
                                    ss.skip(i + 1),
                                    self.environment@,
                                ).prints));
                            }
                        },
                        Result::Err(error) => {
                            proof {
                                assert(strs_v(out@).skip(n0) + rest_before.prints =~= strs_v(out@)
                                    .skip(n0));
                            }
                            return Result::Err(error);
                        },
                    }
                },
                Stmt::Print { expr } => {
                    let evaluator = Evaluator::new(expr);
                    match evaluator.evaluate(Option::None, &mut self.environment) {
                        Result::Ok(value) => {
                            let ghost outs_before = strs_v(out@);
                            let rendering = value.to_text();
                            out.push(rendering);
                            proof {
                                assert(strs_v(out@) =~= outs_before + seq![out@.last()@]);
                                assert(strs_v(out@).take(n0) =~= outs_before.take(n0));
                                assert(strs_v(out@).skip(n0) =~= outs_before.skip(n0) + seq![
                                    out@.last()@,
                                ]);
                                let rest_after = exec_stmts(ss.skip(i + 1), self.environment@);
                                assert((outs_before.skip(n0) + seq![out@.last()@])
                                    + rest_after.prints =~= outs_before.skip(n0) + (seq![
                                    out@.last()@,
                                ] + rest_after.prints));
                            }
                        },
                        Result::Err(error) => {
                            proof {
                                assert(strs_v(out@).skip(n0) + rest_before.prints =~= strs_v(out@)
                                    .skip(n0));
                            }
                            return Result::Err(error);
                        },
                    }
                },
                Stmt::Var { name: token, expr } => {
                    let evaluator = Evaluator::new(expr);
                    match evaluator.evaluate(Option::Some(expr), &mut self.environment) {
                        Result::Ok(value) => {
                            self.environment.define(token.lexeme.as_str(), value);
                            proof {
                                assert(strs_v(out@).skip(n0) + rest_before.prints =~= strs_v(out@)
                                    .skip(n0) + (Seq::<Seq<char>>::empty() + exec_stmts(
                                    ss.skip(i + 1),
                                    self.environment@,
                                ).prints));
                            }
                        },
                        Result::Err(error) => {
                            proof {
                                assert(strs_v(out@).skip(n0) + rest_before.prints =~= strs_v(out@)
                                    .skip(n0));
                            }
                            return Result::Err(error);
                        },
                    }
                },
            }
            i = i + 1;
        }
        proof {
            assert(ss.skip(i as int) =~= Seq::<StmtV>::empty());
            assert(strs_v(out@).skip(n0) + Seq::<Seq<char>>::empty() =~= strs_v(out@).skip(n0));
            assert(strs_v(out@) =~= strs_v(out@).take(n0) + strs_v(out@).skip(n0));
        }
        Result::Ok(())
    }
}

} // verus!
