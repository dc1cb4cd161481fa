//! The runtime value of the language, which is also the literal payload a
//! token carries.

use vstd::prelude::*;
use vstd::string::StringExecFns;

use crate::numbits::eq_bits;
use crate::numbits::num_eq;
use crate::numbits::num_text;
use crate::numbits::num_to_text;

verus! {

/// A value: text, a number (an IEEE 754 binary64 value, carried as its
/// 64-bit encoding), a truth value, or nil.
#[derive(Debug, PartialEq, Clone)]
pub enum Lit {
    String(String),
    Number(u64),
    Bool(bool),
    Nil,
}

/// The mathematical reading of a `Lit`.
pub enum LitV {
    Str(Seq<char>),
    Num(u64),
    Bool(bool),
    Nil,
}

impl View for Lit {
    type V = LitV;

    open spec fn view(&self) -> LitV {
        match self {
            Lit::String(s) => LitV::Str(s@),
            Lit::Number(b) => LitV::Num(*b),
            Lit::Bool(x) => LitV::Bool(*x),
            Lit::Nil => LitV::Nil,
        }
    }
}

/// The reading of an optional literal payload.
pub open spec fn opt_lit_v(l: Option<Lit>) -> Option<LitV> {
    match l {
        Option::Some(x) => Option::Some(x@),
        Option::None => Option::None,
    }
}

/// The variant of a value, as error reports name it.
#[derive(Debug, Copy, Clone, PartialEq, Eq, Structural)]
pub enum LitKind {
    Str,
    Num,
    Truth,
    Nothing,
}

pub open spec fn lit_kind(v: LitV) -> LitKind {
    match v {
        LitV::Str(_) => LitKind::Str,
        LitV::Num(_) => LitKind::Num,
        LitV::Bool(_) => LitKind::Truth,
        LitV::Nil => LitKind::Nothing,
    }
}

/// Structural equality of two values: values of different variants are
/// never equal; numbers compare by IEEE 754 equality.
pub open spec fn lit_eq_v(a: LitV, b: LitV) -> bool {
    match (a, b) {
        (LitV::Str(x), LitV::Str(y)) => x == y,
        (LitV::Num(x), LitV::Num(y)) => num_eq(x, y),
        (LitV::Bool(x), LitV::Bool(y)) => x == y,
        (LitV::Nil, LitV::Nil) => true,
        _ => false,
    }
}

/// The textual rendering of a value: text as it is, a number in decimal,
/// a truth value as `true` or `false`, and nil as the text `nil`.
pub open spec fn lit_text(v: LitV) -> Seq<char> {
    match v {
        LitV::Str(s) => s,
        LitV::Num(b) => num_text(b),
        LitV::Bool(x) => if x {
            "true"@
        } else {
            "false"@
        },
        LitV::Nil => "nil"@,
    }
}

impl Lit {
    pub fn kind(&self) -> (k: LitKind)
        ensures
            k == lit_kind(self@),
    {
        match self {
            Lit::String(_) => LitKind::Str,
            Lit::Number(_) => LitKind::Num,
            Lit::Bool(_) => LitKind::Truth,
            Lit::Nil => LitKind::Nothing,
        }
    }

    /// Structural equality, with numbers compared as IEEE 754 values.
    pub fn equals(&self, other: &Lit) -> (r: bool)
        ensures
            r == lit_eq_v(self@, other@),
    {
        match (self, other) {
            (Lit::String(x), Lit::String(y)) => *x == *y,
            (Lit::Number(x), Lit::Number(y)) => eq_bits(*x, *y),
            (Lit::Bool(x), Lit::Bool(y)) => x == y,
            (Lit::Nil, Lit::Nil) => true,
            _ => false,
        }
    }

    /// The textual rendering of this value.
    pub fn to_text(&self) -> (r: String)
        ensures
            r@ == lit_text(self@),
    {
        match self {
            Lit::String(s) => s.clone(),
            Lit::Number(b) => num_to_text(*b),
            Lit::Bool(x) => if *x {
                String::from_str("true")
            } else {
                String::from_str("false")
            },
            Lit::Nil => String::from_str("nil"),
        }
    }

    pub fn clone_lit(&self) -> (r: Lit)
        ensures
            r@ == self@,
    {
        match self {
            Lit::String(s) => Lit::String(s.clone()),
            Lit::Number(b) => Lit::Number(*b),
            Lit::Bool(x) => Lit::Bool(*x),
            Lit::Nil => Lit::Nil,
        }
    }
}

} // verus!
