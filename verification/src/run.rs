//! The whole pipeline over one input unit: scan the text into tokens,
//! parse the tokens into statements, and run the statements, collecting
//! what they print. Errors come back as structured values; the caller
//! decides how to display them.

use vstd::prelude::*;

use crate::evaluator::EvalErrV;
use crate::evaluator::EvalError;
use crate::interpreter::Interpreter;
use crate::interpreter::exec_stmts;
use crate::interpreter::strs_v;
use crate::parser::ParseErrV;
use crate::parser::Parser;
use crate::parser::ParserError;
use crate::parser::parse_from;
use crate::scanner::ScanErrV;
use crate::scanner::Scanner;
use crate::scanner::ScannerError;
use crate::scanner::scan_all;

verus! {

/// The first error one run hit, from whichever stage hit it.
#[derive(Debug, PartialEq, Clone)]
pub enum RunError {
    Scan(ScannerError),
    Parse(ParserError),
    Eval(EvalError),
}

/// The mathematical reading of a run error.
pub enum RunErrV {
    Scan(ScanErrV),
    Parse(ParseErrV),
    Eval(EvalErrV),
}

impl View for RunError {
    type V = RunErrV;

    open spec fn view(&self) -> RunErrV {
        match self {
            RunError::Scan(e) => RunErrV::Scan(e@),
            RunError::Parse(e) => RunErrV::Parse(e@),
            RunError::Eval(e) => RunErrV::Eval(e@),
        }
    }
}

/// What one run leaves behind: the renderings printed in order, and the
/// error that stopped it, if one did.
pub struct RunOut {
    pub prints: Seq<Seq<char>>,
    pub err: Option<RunErrV>,
}

/// What running a source text does: scanning starts at the first character
/// on line one; a scan error is fatal for the whole scan, a parse pass
/// with any error yields no statements, and evaluation fails fast, keeping
/// the prints that came before the error.
pub open spec fn run_v(src: Seq<char>) -> RunOut {
    match scan_all(src, 0, 1) {
        Result::Err(e) => RunOut { prints: Seq::empty(), err: Option::Some(RunErrV::Scan(e)) },
        Result::Ok(ts) => match parse_from(ts, 0) {
            Result::Err(e) => RunOut {
                prints: Seq::empty(),
                err: Option::Some(RunErrV::Parse(e)),
            },
            Result::Ok(ss) => {
                let o = exec_stmts(ss, Map::empty());
                RunOut {
                    prints: o.prints,
                    err: match o.err {
                        Option::Some(e) => Option::Some(RunErrV::Eval(e)),
                        Option::None => Option::None,
                    },
                }
            },
        },
    }
}

/// Scans, parses, and runs one input unit against a fresh environment,
/// appending each printed rendering to `out`.
pub fn run(input: &str, out: &mut Vec<String>) -> (r: Result<(), RunError>)
    requires
        input@.len() < usize::MAX,
    ensures
        ({
            let o = run_v(input@);
            &&& strs_v(final(out)@) == strs_v(old(out)@) + o.prints
            &&& match r {
                Result::Ok(_) => o.err is None,
                Result::Err(e) => o.err == Option::Some(e@),
            }
        }),
{
    let mut scanner = Scanner::new(input);
    let tokens = match scanner.scan_tokens() {
        Result::Ok(t) => t,
        Result::Err(error) => {
            proof {
                assert(strs_v(out@) =~= strs_v(out@) + Seq::<Seq<char>>::empty());
            }
            return Result::Err(RunError::Scan(error));
        },
    };
    proof {
        assert(crate::token::toks_v(Seq::<crate::token::Tok>::empty()) =~= Seq::<
            crate::token::TokV,
        >::empty());
        assert(Seq::<crate::token::TokV>::empty() + scan_all(input@, 0, 1)->Ok_0 =~= scan_all(
            input@,
            0,
            1,
        )->Ok_0);
    }
    let mut parser = Parser::new(&tokens);
    let statements = match parser.parse() {
        Result::Ok(s) => s,
        Result::Err(error) => {
            proof {
                assert(strs_v(out@) =~= strs_v(out@) + Seq::<Seq<char>>::empty());
            }
            return Result::Err(RunError::Parse(error));
        },
    };
    let mut interpreter = Interpreter::new();
    match interpreter.interpret_stmts(statements, out) {
        Result::Ok(_) => Result::Ok(()),
        Result::Err(error) => Result::Err(RunError::Eval(error)),
    }
}

} // verus!
