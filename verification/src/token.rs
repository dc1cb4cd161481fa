//! A classified lexeme: the token kind, the exact source text matched, the
//! literal payload where the kind carries one, and the source line.

use vstd::prelude::*;

use crate::literal_type::Lit;
use crate::literal_type::LitV;
use crate::token_type::TokType;

verus! {

#[derive(Debug, PartialEq, Clone)]
pub struct Tok {
    pub token_type: TokType,
    /// The lexeme is the actual text that was matched for this token.
    pub lexeme: String,
    /// The literal is the memory value of the token.
    pub literal: Option<Lit>,
    pub line: usize,
}

/// The mathematical reading of a `Tok`.
pub struct TokV {
    pub token_type: TokType,
    pub lexeme: Seq<char>,
    pub literal: Option<LitV>,
    pub line: nat,
}

impl View for Tok {
    type V = TokV;

    open spec fn view(&self) -> TokV {
        TokV {
            token_type: self.token_type,
            lexeme: self.lexeme@,
            literal: match self.literal {
                Option::Some(l) => Option::Some(l@),
                Option::None => Option::None,
            },
            line: self.line as nat,
        }
    }
}

/// The readings of a token list, in order.
pub open spec fn toks_v(ts: Seq<Tok>) -> Seq<TokV> {
    ts.map_values(|t: Tok| t@)
}

impl Tok {
    pub fn clone_tok(&self) -> (r: Tok)
        ensures
            r@ == self@,
    {
        Tok {
            token_type: self.token_type,
            lexeme: self.lexeme.clone(),
            literal: match &self.literal {
                Option::Some(l) => Option::Some(l.clone_lit()),
                Option::None => Option::None,
            },
            line: self.line,
        }
    }
}

/// A deep copy of a token list, entry by entry.
pub fn clone_toks(ts: &Vec<Tok>) -> (r: Vec<Tok>)
    ensures
        toks_v(r@) == toks_v(ts@),
{
    let mut r: Vec<Tok> = Vec::new();
    let mut i: usize = 0;
    while i < ts.len()
        invariant
            i <= ts@.len(),
            r@.len() == i,
            forall|j: int| 0 <= j < i ==> #[trigger] r@[j]@ == ts@[j]@,
        decreases ts@.len() - i,
    {
        r.push(ts[i].clone_tok());
        i = i + 1;
    }
    proof {
        assert(toks_v(r@) =~= toks_v(ts@));
    }
    r
}

} // verus!
