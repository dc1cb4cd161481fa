//! The closed set of lexical token kinds.

use vstd::prelude::*;

verus! {

#[derive(Debug, Copy, Clone, PartialEq, Eq, Structural)]
pub enum TokType {
    // Single char tokens
    LeftParen,
    RightParen,
    LeftBrace,
    RightBrace,
    Comma,
    Dot,
    Minus,
    Plus,
    Semicolon,
    Slash,
    Star,
    // One or two char tokens
    Bang,
    BangEqual,
    Equal,
    EqualEqual,
    Greater,
    GreaterEqual,
    Less,
    LessEqual,
    // Literals
    Identifier,
    String,
    Number,
    // Keywords
    And,
    Class,
    Else,
    False,
    Fun,
    For,
    If,
    Nil,
    Or,
    Print,
    Return,
    Super,
    This,
    True,
    Var,
    While,
    Eof,
    /// Used for internal processing, should not ever live beyond the scanner.
    NoToken,
}

/// The short English name of each token kind, as error reports use it.
pub open spec fn tok_type_text(t: TokType) -> Seq<char> {
    match t {
        TokType::And => "double-and"@,
        TokType::Bang => "exclamation"@,
        TokType::LeftParen => "left paren"@,
        TokType::RightParen => "right paren"@,
        TokType::LeftBrace => "left brace"@,
        TokType::RightBrace => "right brace"@,
        TokType::Comma => "comma"@,
        TokType::Dot => "full-stop"@,
        TokType::Minus => "minus"@,
        TokType::Plus => "plus"@,
        TokType::Semicolon => "semicolon"@,
        TokType::Slash => "slash"@,
        TokType::Star => "asterisk"@,
        TokType::BangEqual => "not equal"@,
        TokType::Equal => "equal"@,
        TokType::EqualEqual => "double equal"@,
        TokType::Greater => "bigger-than"@,
        TokType::GreaterEqual => "bigger-than or equal"@,
        TokType::Less => "less-than"@,
        TokType::LessEqual => "less-than or equal"@,
        TokType::Identifier => "identifier"@,
        TokType::String => "string"@,
        TokType::Number => "number"@,
        TokType::Class => "class"@,
        TokType::Else => "else"@,
        TokType::False => "false"@,
        TokType::Fun => "function"@,
        TokType::For => "for"@,
        TokType::If => "if"@,
        TokType::Nil => "nil"@,
        TokType::Or => "or"@,
        TokType::Print => "print"@,
        TokType::Return => "return"@,
        TokType::Super => "super"@,
        TokType::This => "this"@,
        TokType::True => "true"@,
        TokType::Var => "variable"@,
        TokType::While => "while"@,
        TokType::Eof => "end of file"@,
        TokType::NoToken => "none"@,
    }
}

impl TokType {
    /// The short English name of this token kind.
    pub fn name(&self) -> (r: &'static str)
        ensures
            r@ == tok_type_text(*self),
    {
        match self {
            TokType::And => "double-and",
            TokType::Bang => "exclamation",
            TokType::LeftParen => "left paren",
            TokType::RightParen => "right paren",
            TokType::LeftBrace => "left brace",
            TokType::RightBrace => "right brace",
            TokType::Comma => "comma",
            TokType::Dot => "full-stop",
            TokType::Minus => "minus",
            TokType::Plus => "plus",
            TokType::Semicolon => "semicolon",
            TokType::Slash => "slash",
            TokType::Star => "asterisk",
            TokType::BangEqual => "not equal",
            TokType::Equal => "equal",
            TokType::EqualEqual => "double equal",
            TokType::Greater => "bigger-than",
            TokType::GreaterEqual => "bigger-than or equal",
            TokType::Less => "less-than",
            TokType::LessEqual => "less-than or equal",
            TokType::Identifier => "identifier",
            TokType::String => "string",
            TokType::Number => "number",
            TokType::Class => "class",
            TokType::Else => "else",
            TokType::False => "false",
            TokType::Fun => "function",
            TokType::For => "for",
            TokType::If => "if",
            TokType::Nil => "nil",
            TokType::Or => "or",
            TokType::Print => "print",
            TokType::Return => "return",
            TokType::Super => "super",
            TokType::This => "this",
            TokType::True => "true",
            TokType::Var => "variable",
            TokType::While => "while",
            TokType::Eof => "end of file",
            TokType::NoToken => "none",
        }
    }
}

} // verus!
