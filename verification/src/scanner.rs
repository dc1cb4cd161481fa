//! The scanner: one left-to-right pass over the source characters, with a
//! line counter and two cursors (the start of the current lexeme and the
//! current scan position), producing the token list terminated by exactly
//! one end-of-input token.

use vstd::prelude::*;
use vstd::string::StringExecFns;

use crate::code_location::CodeLocV;
use crate::code_location::CodeLocation;
use crate::dbg_display::DbgDisplay;
use crate::literal_type::Lit;
use crate::literal_type::LitV;
use crate::numbits::num_of_text;
use crate::token::Tok;
use crate::token::TokV;
use crate::token::clone_toks;
use crate::token::toks_v;
use crate::token_type::TokType;
use crate::util::char_alnum;
use crate::util::char_alpha;
use crate::util::char_digit;
use crate::util::chars_string;
use crate::util::is_alpha;
use crate::util::is_alphanumeric;
use crate::util::is_digit;
use crate::util::parse_string;
use crate::util::push_char;
use crate::util::str_chars;

verus! {

#[derive(Debug, PartialEq, Clone)]
pub enum ScannerError {
    UnexpectedEof,
    /// All strings must close; carries the line the string began on.
    UnterminatedString(CodeLocation),
    /// A numeral that denotes no number: an internal invariant violation.
    InvalidNumber(CodeLocation),
    /// A character that begins no token.
    UnknownToken(CodeLocation),
}

/// The mathematical reading of a scan error.
pub enum ScanErrV {
    UnexpectedEof,
    UnterminatedString(CodeLocV),
    InvalidNumber(CodeLocV),
    UnknownToken(CodeLocV),
}

impl View for ScannerError {
    type V = ScanErrV;

    open spec fn view(&self) -> ScanErrV {
        match self {
            ScannerError::UnexpectedEof => ScanErrV::UnexpectedEof,
            ScannerError::UnterminatedString(l) => ScanErrV::UnterminatedString(l@),
            ScannerError::InvalidNumber(l) => ScanErrV::InvalidNumber(l@),
            ScannerError::UnknownToken(l) => ScanErrV::UnknownToken(l@),
        }
    }
}

/// The character at an index, or the NUL character at or beyond the end.
pub open spec fn char_at(src: Seq<char>, i: int) -> char {
    if 0 <= i < src.len() {
        src[i]
    } else {
        '\0'
    }
}

/// The fixed keyword table: the token kind an identifier-shaped lexeme
/// stands for, or None where it is an ordinary identifier.
pub open spec fn keyword_kind(s: Seq<char>) -> Option<TokType> {
    if s == "and"@ {
        Option::Some(TokType::And)
    } else if s == "class"@ {
        Option::Some(TokType::Class)
    } else if s == "else"@ {
        Option::Some(TokType::Else)
    } else if s == "false"@ {
        Option::Some(TokType::False)
    } else if s == "for"@ {
        Option::Some(TokType::For)
    } else if s == "fun"@ {
        Option::Some(TokType::Fun)
    } else if s == "if"@ {
        Option::Some(TokType::If)
    } else if s == "nil"@ {
        Option::Some(TokType::Nil)
    } else if s == "or"@ {
        Option::Some(TokType::Or)
    } else if s == "print"@ {
        Option::Some(TokType::Print)
    } else if s == "return"@ {
        Option::Some(TokType::Return)
    } else if s == "super"@ {
        Option::Some(TokType::Super)
    } else if s == "this"@ {
        Option::Some(TokType::This)
    } else if s == "true"@ {
        Option::Some(TokType::True)
    } else if s == "var"@ {
        Option::Some(TokType::Var)
    } else if s == "while"@ {
        Option::Some(TokType::While)
    } else {
        Option::None
    }
}

/// The end of the maximal run of decimal digits beginning at `i`.
pub open spec fn digits_end(src: Seq<char>, i: int) -> int
    decreases src.len() - i,
{
    if 0 <= i < src.len() && char_digit(src[i]) {
        digits_end(src, i + 1)
    } else {
        i
    }
}

/// The end of the maximal run of alphanumeric characters beginning at `i`.
pub open spec fn alnum_end(src: Seq<char>, i: int) -> int
    decreases src.len() - i,
{
    if 0 <= i < src.len() && char_alnum(src[i]) {
        alnum_end(src, i + 1)
    } else {
        i
    }
}

/// The index of the first newline at or after `i`, or the end of the
/// source: where a line comment stops discarding.
pub open spec fn line_comment_end(src: Seq<char>, i: int) -> int
    decreases src.len() - i,
{
    if 0 <= i < src.len() && src[i] != '\n' {
        line_comment_end(src, i + 1)
    } else {
        i
    }
}

/// The index of the first closing quote at or after `i`, or the end of the
/// source where none closes the string.
pub open spec fn string_end(src: Seq<char>, i: int) -> int
    decreases src.len() - i,
{
    if 0 <= i < src.len() {
        if src[i] == '"' {
            i
        } else {
            string_end(src, i + 1)
        }
    } else {
        src.len() as int
    }
}

/// The position just past the first `*/` at or after `i`, or the end of the
/// source where the block comment never closes.
pub open spec fn block_comment_end(src: Seq<char>, i: int) -> int
    decreases src.len() - i,
{
    if 0 <= i && i + 1 < src.len() {
        if src[i] == '*' && src[i + 1] == '/' {
            i + 2
        } else {
            block_comment_end(src, i + 1)
        }
    } else {
        src.len() as int
    }
}

/// How many newline characters `src[i..j]` holds.
pub open spec fn nl_count(src: Seq<char>, i: int, j: int) -> nat
    decreases j - i,
{
    if i < j {
        nl_count(src, i, j - 1) + (if char_at(src, j - 1) == '\n' {
            1nat
        } else {
            0nat
        })
    } else {
        0nat
    }
}

/// What one scan step at position `i`, on line `line`, does: where it
/// leaves the cursor and the line counter, and the token or the error it
/// produces, if any.
pub struct ScanStep {
    pub next: int,
    pub line: nat,
    pub tok: Option<TokV>,
    pub err: Option<ScanErrV>,
}

/// One produced token, as a step result.
pub open spec fn step_tok(src: Seq<char>, start: int, next: int, line: nat, t: TokType) -> ScanStep {
    ScanStep {
        next,
        line,
        tok: Option::Some(
            TokV { token_type: t, lexeme: src.subrange(start, next), literal: Option::None, line },
        ),
        err: Option::None,
    }
}

/// One step that produces nothing (blank space or a comment).
pub open spec fn step_skip(next: int, line: nat) -> ScanStep {
    ScanStep { next, line, tok: Option::None, err: Option::None }
}

/// One failing step.
pub open spec fn step_err(next: int, line: nat, e: ScanErrV) -> ScanStep {
    ScanStep { next, line, tok: Option::None, err: Option::Some(e) }
}

/// The scan step for a string literal: consume through the next closing
/// quote, counting embedded newlines; reaching the end first is an
/// unterminated string, at the line the string began on.
pub open spec fn scan_step_string(src: Seq<char>, i: int, line: nat) -> ScanStep {
    let q = string_end(src, i + 1);
    if q >= src.len() {
        step_err(
            q,
            line,
            ScanErrV::UnterminatedString(
                CodeLocV { line, text: src.subrange(i, src.len() as int) },
            ),
        )
    } else {
        let nl = nl_count(src, i + 1, q);
        ScanStep {
            next: q + 1,
            line: (line + nl) as nat,
            tok: Option::Some(
                TokV {
                    token_type: TokType::String,
                    lexeme: src.subrange(i, q + 1),
                    literal: Option::Some(LitV::Str(src.subrange(i + 1, q))),
                    line: (line + nl) as nat,
                },
            ),
            err: Option::None,
        }
    }
}

/// The scan step for a number literal: a maximal digit run, then optionally
/// one dot followed by a digit and a further maximal run; the slice is read
/// as a 64-bit IEEE 754 value, and a slice that denotes none is an internal
/// invariant violation.
pub open spec fn scan_step_number(src: Seq<char>, i: int, line: nat) -> ScanStep {
    let e1 = digits_end(src, i + 1);
    let end = if char_at(src, e1) == '.' && char_digit(char_at(src, e1 + 1)) {
        digits_end(src, e1 + 1)
    } else {
        e1
    };
    let lexeme = src.subrange(i, end);
    match num_of_text(lexeme) {
        Option::Some(bits) => ScanStep {
            next: end,
            line,
            tok: Option::Some(
                TokV {
                    token_type: TokType::Number,
                    lexeme,
                    literal: Option::Some(LitV::Num(bits)),
                    line,
                },
            ),
            err: Option::None,
        },
        Option::None => step_err(
            end,
            line,
            ScanErrV::InvalidNumber(CodeLocV { line, text: lexeme }),
        ),
    }
}

/// The scan step for an identifier or keyword: a maximal alphanumeric run,
/// looked up in the keyword table.
pub open spec fn scan_step_ident(src: Seq<char>, i: int, line: nat) -> ScanStep {
    let end = alnum_end(src, i + 1);
    let kind = match keyword_kind(src.subrange(i, end)) {
        Option::Some(k) => k,
        Option::None => TokType::Identifier,
    };
    step_tok(src, i, end, line, kind)
}

/// A one-character lookahead operator: the two-character kind where the
/// next character is `=`, the bare kind otherwise.
pub open spec fn scan_step_lookahead(
    src: Seq<char>,
    i: int,
    line: nat,
    bare: TokType,
    with_eq: TokType,
) -> ScanStep {
    if char_at(src, i + 1) == '=' {
        step_tok(src, i, i + 2, line, with_eq)
    } else {
        step_tok(src, i, i + 1, line, bare)
    }
}

/// What the scanner does with the single character at `i`: the token it
/// emits, the text it discards, or the error it raises.
pub open spec fn scan_step(src: Seq<char>, i: int, line: nat) -> ScanStep {
    let c = char_at(src, i);
    if c == '\0' {
        step_err(i, line, ScanErrV::UnexpectedEof)
    } else if c == '(' {
        step_tok(src, i, i + 1, line, TokType::LeftParen)
    } else if c == ')' {
        step_tok(src, i, i + 1, line, TokType::RightParen)
    } else if c == '{' {
        step_tok(src, i, i + 1, line, TokType::LeftBrace)
    } else if c == '}' {
        step_tok(src, i, i + 1, line, TokType::RightBrace)
    } else if c == ',' {
        step_tok(src, i, i + 1, line, TokType::Comma)
    } else if c == '.' {
        step_tok(src, i, i + 1, line, TokType::Dot)
    } else if c == '-' {
        step_tok(src, i, i + 1, line, TokType::Minus)
    } else if c == '+' {
        step_tok(src, i, i + 1, line, TokType::Plus)
    } else if c == ';' {
        step_tok(src, i, i + 1, line, TokType::Semicolon)
    } else if c == '*' {
        step_tok(src, i, i + 1, line, TokType::Star)
    } else if c == '"' {
        scan_step_string(src, i, line)
    } else if c == '/' {
        if char_at(src, i + 1) == '/' {
            step_skip(line_comment_end(src, i + 2), line)
        } else if char_at(src, i + 1) == '*' {
            let end = block_comment_end(src, i + 2);
            step_skip(end, (line + nl_count(src, i + 2, end)) as nat)
        } else {
            step_tok(src, i, i + 1, line, TokType::Slash)
        }
    } else if c == '!' {
        scan_step_lookahead(src, i, line, TokType::Bang, TokType::BangEqual)
    } else if c == '=' {
        scan_step_lookahead(src, i, line, TokType::Equal, TokType::EqualEqual)
    } else if c == '<' {
        scan_step_lookahead(src, i, line, TokType::Less, TokType::LessEqual)
    } else if c == '>' {
        scan_step_lookahead(src, i, line, TokType::Greater, TokType::GreaterEqual)
    } else if c == '\r' || c == ' ' {
        step_skip(i + 1, line)
    } else if c == '\n' {
        step_skip(i + 1, (line + 1) as nat)
    } else if char_digit(c) {
        scan_step_number(src, i, line)
    } else if char_alpha(c) {
        scan_step_ident(src, i, line)
    } else {
        step_err(i + 1, line, ScanErrV::UnknownToken(CodeLocV { line, text: seq![c] }))
    }
}

/// The end-of-input token, with empty lexeme, on the final line reached.
pub open spec fn eof_tok(line: nat) -> TokV {
    TokV {
        token_type: TokType::Eof,
        lexeme: Seq::empty(),
        literal: Option::None,
        line,
    }
}

/// The token or nothing a step yields, as a sequence.
pub open spec fn step_toks(t: Option<TokV>) -> Seq<TokV> {
    match t {
        Option::Some(tok) => seq![tok],
        Option::None => Seq::empty(),
    }
}

/// What scanning the whole source from position `i` on line `line` yields:
/// the full token list ending in the end-of-input token, or the first scan
/// error, which is fatal for the whole scan.
pub open spec fn scan_all(src: Seq<char>, i: int, line: nat) -> Result<Seq<TokV>, ScanErrV>
    decreases src.len() - i,
{
    if i >= src.len() {
        Result::Ok(seq![eof_tok(line)])
    } else {
        let step = scan_step(src, i, line);
        match step.err {
            Option::Some(e) => Result::Err(e),
            Option::None => {
                let next = if i < step.next && step.next <= src.len() {
                    step.next
                } else {
                    i + 1
                };
                match scan_all(src, next, step.line) {
                    Result::Ok(rest) => Result::Ok(step_toks(step.tok) + rest),
                    Result::Err(e) => Result::Err(e),
                }
            },
        }
    }
}

/// The token kind an identifier-shaped lexeme stands for, from the fixed
/// keyword table, or None where it is an ordinary identifier.
fn keyword_lookup(value: &String) -> (r: Option<TokType>)
    ensures
        r == keyword_kind(value@),
{
    if *value == String::from_str("and") {
        Option::Some(TokType::And)
    } else if *value == String::from_str("class") {
        Option::Some(TokType::Class)
    } else if *value == String::from_str("else") {
        Option::Some(TokType::Else)
    } else if *value == String::from_str("false") {
        Option::Some(TokType::False)
    } else if *value == String::from_str("for") {
        Option::Some(TokType::For)
    } else if *value == String::from_str("fun") {
        Option::Some(TokType::Fun)
    } else if *value == String::from_str("if") {
        Option::Some(TokType::If)
    } else if *value == String::from_str("nil") {
        Option::Some(TokType::Nil)
    } else if *value == String::from_str("or") {
        Option::Some(TokType::Or)
    } else if *value == String::from_str("print") {
        Option::Some(TokType::Print)
    } else if *value == String::from_str("return") {
        Option::Some(TokType::Return)
    } else if *value == String::from_str("super") {
        Option::Some(TokType::Super)
    } else if *value == String::from_str("this") {
        Option::Some(TokType::This)
    } else if *value == String::from_str("true") {
        Option::Some(TokType::True)
    } else if *value == String::from_str("var") {
        Option::Some(TokType::Var)
    } else if *value == String::from_str("while") {
        Option::Some(TokType::While)
    } else {
        Option::None
    }
}

/// A maximal digit run neither moves backwards nor past the end.
pub proof fn lemma_digits_end(src: Seq<char>, i: int)
    requires
        0 <= i <= src.len(),
    ensures
        i <= digits_end(src, i) <= src.len(),
    decreases src.len() - i,
{
    if i < src.len() && char_digit(src[i]) {
        lemma_digits_end(src, i + 1);
    }
}

/// A maximal alphanumeric run neither moves backwards nor past the end.
pub proof fn lemma_alnum_end(src: Seq<char>, i: int)
    requires
        0 <= i <= src.len(),
    ensures
        i <= alnum_end(src, i) <= src.len(),
    decreases src.len() - i,
{
    if i < src.len() && char_alnum(src[i]) {
        lemma_alnum_end(src, i + 1);
    }
}

/// A line comment discards forwards, and at most to the end.
pub proof fn lemma_line_comment_end(src: Seq<char>, i: int)
    requires
        0 <= i <= src.len(),
    ensures
        i <= line_comment_end(src, i) <= src.len(),
    decreases src.len() - i,
{
    if i < src.len() && src[i] != '\n' {
        lemma_line_comment_end(src, i + 1);
    }
}

/// The closing quote is sought forwards, and at most to the end.
pub proof fn lemma_string_end(src: Seq<char>, i: int)
    requires
        0 <= i <= src.len(),
    ensures
        i <= string_end(src, i) <= src.len(),
    decreases src.len() - i,
{
    if i < src.len() && src[i] != '"' {
        lemma_string_end(src, i + 1);
    }
}

/// A block comment discards forwards, and at most to the end.
pub proof fn lemma_block_comment_end(src: Seq<char>, i: int)
    requires
        0 <= i <= src.len(),
    ensures
        i <= block_comment_end(src, i) <= src.len(),
    decreases src.len() - i,
{
    if i + 1 < src.len() && !(src[i] == '*' && src[i + 1] == '/') {
        lemma_block_comment_end(src, i + 1);
    }
}

#[derive(Debug)]
pub struct Scanner {
    pub source: Vec<char>,
    pub tokens: Vec<Tok>,
    /// The start index of the source of the current token. If a string
    /// token is being scanned for example, this could be a lot smaller
    /// than current.
    pub start: usize,
    /// The current index of the character in the source code being
    /// evaluated. Incremented on a per-character basis.
    pub current: usize,
    pub line: usize,
}

impl Scanner {
    pub fn new(source: &str) -> (r: Self)
        ensures
            r.source@ == source@,
            r.tokens@.len() == 0,
            r.start == 0,
            r.current == 0,
            r.line == 1,
    {
        Self { source: str_chars(source), tokens: Vec::new(), current: 0, start: 0, line: 1 }
    }

    // Return a bool to identify if the scanner's current position is at the
    // end of the source.
    fn is_at_end(&self) -> (r: bool)
        ensures
            r == (self.current >= self.source@.len()),
    {
        self.current >= self.source.len()
    }

    /// Peek at a specific index.
    fn peek_at(&self, index: usize) -> (c: char)
        ensures
            c == char_at(self.source@, index as int),
    {
        if index < self.source.len() {
            self.source[index]
        } else {
            '\0'
        }
    }

    /// The char found at self.current. Does not advance. NUL if at the end.
    fn peek(&self) -> (c: char)
        ensures
            c == char_at(self.source@, self.current as int),
    {
        self.peek_at(self.current)
    }

    /// Peek and advance the current index by 1.
    /// Returns the just consumed character, or None at the end.
    fn advance(&mut self) -> (r: Option<char>)
        ensures
            final(self).source@ == old(self).source@,
            final(self).tokens@ == old(self).tokens@,
            final(self).start == old(self).start,
            final(self).line == old(self).line,
            char_at(final(self).source@, old(self).current as int) == '\0' ==> r is None
                && final(self).current == old(self).current,
            char_at(final(self).source@, old(self).current as int) != '\0' ==> r == Option::Some(
                char_at(final(self).source@, old(self).current as int),
            ) && final(self).current == old(self).current + 1,
    {
        let character = self.peek();
        if character == '\0' {
            return Option::None;
        }
        proof {
            vstd::std_specs::vec::axiom_spec_len(&self.source);
        }
        self.current = self.current + 1;
        Option::Some(character)
    }

    /// Returns whether the given character stands at the current position;
    /// advances past it exactly when it does.
    fn consume(&mut self, character: char) -> (r: bool)
        ensures
            final(self).source@ == old(self).source@,
            final(self).tokens@ == old(self).tokens@,
            final(self).start == old(self).start,
            final(self).line == old(self).line,
            r == (old(self).current < final(self).source@.len() && final(self).source@[old(self).current as int]
                == character),
            final(self).current == old(self).current + (if r {
                1int
            } else {
                0int
            }),
    {
        if self.is_at_end() {
            return false;
        }
        if self.source[self.current] != character {
            return false;
        }
        proof {
            vstd::std_specs::vec::axiom_spec_len(&self.source);
        }
        self.current = self.current + 1;
        true
    }

    /// The slice of the source between two indices, as a string.
    fn get_source_slice(&self, start: usize, end: usize) -> (s: String)
        requires
            start <= end <= self.source@.len(),
        ensures
            s@ == self.source@.subrange(start as int, end as int),
    {
        chars_string(&self.source, start, end)
    }

    /// Appends one token whose lexeme is the current one, on the current
    /// line, and hands its kind back.
    fn add_token(&mut self, token_type: TokType, literal_type: Option<Lit>) -> (r: TokType)
        requires
            old(self).start <= old(self).current <= old(self).source@.len(),
        ensures
            final(self).source@ == old(self).source@,
            final(self).start == old(self).start,
            final(self).current == old(self).current,
            final(self).line == old(self).line,
            r == token_type,
            toks_v(final(self).tokens@) == toks_v(old(self).tokens@) + seq![
                TokV {
                    token_type,
                    lexeme: final(self).source@.subrange(final(self).start as int, final(self).current as int),
                    literal: crate::literal_type::opt_lit_v(literal_type),
                    line: final(self).line as nat,
                },
            ],
    {
        let lexeme = self.get_source_slice(self.start, self.current);
        let token = Tok { token_type, lexeme, literal: literal_type, line: self.line };
        let ghost before = self.tokens@;
        self.tokens.push(token);
        proof {
            assert(toks_v(self.tokens@) =~= toks_v(before) + seq![self.tokens@.last()@]);
        }
        token_type
    }

    /// Discards characters through the end of the line.
    #[verifier::loop_isolation(false)]
    fn skip_comment(&mut self) -> (r: TokType)
        requires
            old(self).current <= old(self).source@.len(),
        ensures
            final(self).source@ == old(self).source@,
            final(self).tokens@ == old(self).tokens@,
            final(self).start == old(self).start,
            final(self).line == old(self).line,
            final(self).current == line_comment_end(final(self).source@, old(self).current as int),
            old(self).current <= final(self).current <= final(self).source@.len(),
            r == TokType::NoToken,
    {
        proof {
            vstd::std_specs::vec::axiom_spec_len(&self.source);
            lemma_line_comment_end(self.source@, self.current as int);
        }
        while self.peek() != '\n' && !self.is_at_end()
            invariant
                self.source@ == old(self).source@,
                self.tokens@ == old(self).tokens@,
                self.start == old(self).start,
                self.line == old(self).line,
                old(self).current <= self.current <= self.source@.len(),
                line_comment_end(self.source@, self.current as int) == line_comment_end(
                    self.source@,
                    old(self).current as int,
                ),
            decreases self.source@.len() - self.current,
        {
            self.current = self.current + 1;
        }
        TokType::NoToken
    }

    /// Discards characters through the first subsequent `*/`, or through
    /// the end of the source, counting the newlines passed over.
    #[verifier::loop_isolation(false)]
    fn skip_block_comment(&mut self) -> (r: TokType)
        requires
            old(self).current <= old(self).source@.len(),
            old(self).line as int + (old(self).source@.len() - old(self).current)
                <= usize::MAX as int,
        ensures
            final(self).source@ == old(self).source@,
            final(self).tokens@ == old(self).tokens@,
            final(self).start == old(self).start,
            final(self).current == block_comment_end(final(self).source@, old(self).current as int),
            old(self).current <= final(self).current <= final(self).source@.len(),
            final(self).line as nat == old(self).line as nat + nl_count(
                final(self).source@,
                old(self).current as int,
                final(self).current as int,
            ),
            final(self).line as int <= old(self).line as int + (final(self).current as int - old(
                self,
            ).current as int),
            r == TokType::NoToken,
    {
        proof {
            vstd::std_specs::vec::axiom_spec_len(&self.source);
            lemma_block_comment_end(self.source@, self.current as int);
        }
        while !(self.is_at_end() || (self.peek() == '*' && self.peek_at(self.current + 1) == '/'))
            invariant
                self.source@ == old(self).source@,
                self.tokens@ == old(self).tokens@,
                self.start == old(self).start,
                old(self).current <= self.current <= self.source@.len(),
                self.line as nat == old(self).line as nat + nl_count(
                    self.source@,
                    old(self).current as int,
                    self.current as int,
                ),
                self.line as int <= old(self).line as int + (self.current as int
                    - old(self).current as int),
                block_comment_end(self.source@, self.current as int) == block_comment_end(
                    self.source@,
                    old(self).current as int,
                ),
            decreases self.source@.len() - self.current,
        {
            if self.peek() == '\n' {
                self.line = self.line + 1;
            }
            self.current = self.current + 1;
            proof {
                assert(nl_count(self.source@, old(self).current as int, self.current as int)
                    == nl_count(self.source@, old(self).current as int, self.current as int - 1)
                    + (if char_at(self.source@, self.current as int - 1) == '\n' {
                    1nat
                } else {
                    0nat
                }));
            }
        }
        if !self.is_at_end() {
            let ghost cur = self.current as int;
            self.current = self.current + 2;
            proof {
                assert(nl_count(self.source@, old(self).current as int, cur + 1) == nl_count(
                    self.source@,
                    old(self).current as int,
                    cur,
                ));
                assert(nl_count(self.source@, old(self).current as int, cur + 2) == nl_count(
                    self.source@,
                    old(self).current as int,
                    cur + 1,
                ));
            }
        }
        TokType::NoToken
    }

    /// Collates the characters up to the next closing quote into a string
    /// token; reaching the end first is an unterminated string, reported
    /// at the line the string began on.
    #[verifier::loop_isolation(false)]
    fn scan_string(&mut self) -> (r: Result<TokType, ScannerError>)
        requires
            old(self).current == old(self).start + 1,
            old(self).start < old(self).source@.len(),
            old(self).line as int + (old(self).source@.len() - old(self).current)
                <= usize::MAX as int,
        ensures
            final(self).source@ == old(self).source@,
            ({
                let step = scan_step_string(
                    old(self).source@,
                    old(self).start as int,
                    old(self).line as nat,
                );
                match step.err {
                    Option::Some(e) => match r {
                        Result::Err(re) => re@ == e,
                        Result::Ok(_) => false,
                    },
                    Option::None => {
                        &&& r is Ok
                        &&& final(self).start == old(self).start
                        &&& final(self).current == step.next
                        &&& old(self).current < final(self).current <= final(self).source@.len()
                        &&& final(self).line as nat == step.line
                        &&& final(self).line as int <= old(self).line as int + (final(self).current as int
                            - old(self).current as int)
                        &&& toks_v(final(self).tokens@) == toks_v(old(self).tokens@) + step_toks(step.tok)
                    },
                }
            }),
    {
        let start_line = self.line;
        proof {
            vstd::std_specs::vec::axiom_spec_len(&self.source);
            lemma_string_end(self.source@, self.current as int);
        }
        while self.peek() != '"' && !self.is_at_end()
            invariant
                self.source@ == old(self).source@,
                self.tokens@ == old(self).tokens@,
                self.start == old(self).start,
                old(self).current <= self.current <= self.source@.len(),
                start_line == old(self).line,
                self.line as nat == old(self).line as nat + nl_count(
                    self.source@,
                    old(self).current as int,
                    self.current as int,
                ),
                self.line as int <= old(self).line as int + (self.current as int
                    - old(self).current as int),
                string_end(self.source@, self.current as int) == string_end(
                    self.source@,
                    old(self).current as int,
                ),
            decreases self.source@.len() - self.current,
        {
            if self.peek() == '\n' {
                self.line = self.line + 1;
            }
            self.current = self.current + 1;
            proof {
                assert(nl_count(self.source@, old(self).current as int, self.current as int)
                    == nl_count(self.source@, old(self).current as int, self.current as int - 1)
                    + (if char_at(self.source@, self.current as int - 1) == '\n' {
                    1nat
                } else {
                    0nat
                }));
            }
        }
        if self.is_at_end() {
            let snippet = self.get_source_slice(self.start, self.source.len());
            return Result::Err(
                ScannerError::UnterminatedString(
                    CodeLocation { line: start_line, display: DbgDisplay::from(snippet) },
                ),
            );
        }
        // Consume the closing quote.
        self.current = self.current + 1;
        let value = self.get_source_slice(self.start + 1, self.current - 1);
        let added = self.add_token(TokType::String, Option::Some(Lit::String(value)));
        Result::Ok(added)
    }

    /// Consumes a maximal run of digits, then optionally one dot followed
    /// by a digit and a further maximal run, and reads the slice as a
    /// number; a slice that denotes none is an internal invariant
    /// violation.
    #[verifier::loop_isolation(false)]
    fn scan_number(&mut self) -> (r: Result<TokType, ScannerError>)
        requires
            old(self).current == old(self).start + 1,
            old(self).start < old(self).source@.len(),
            old(self).source@.len() < usize::MAX,
        ensures
            final(self).source@ == old(self).source@,
            ({
                let step = scan_step_number(
                    old(self).source@,
                    old(self).start as int,
                    old(self).line as nat,
                );
                match step.err {
                    Option::Some(e) => match r {
                        Result::Err(re) => re@ == e,
                        Result::Ok(_) => false,
                    },
                    Option::None => {
                        &&& r is Ok
                        &&& final(self).start == old(self).start
                        &&& final(self).current == step.next
                        &&& old(self).current <= final(self).current <= final(self).source@.len()
                        &&& final(self).line == old(self).line
                        &&& final(self).line as nat == step.line
                        &&& toks_v(final(self).tokens@) == toks_v(old(self).tokens@) + step_toks(step.tok)
                    },
                }
            }),
    {
        proof {
            lemma_digits_end(self.source@, self.current as int);
        }
        while is_digit(self.peek())
            invariant
                self.source@ == old(self).source@,
                self.tokens@ == old(self).tokens@,
                self.start == old(self).start,
                self.line == old(self).line,
                old(self).current <= self.current <= self.source@.len(),
                digits_end(self.source@, self.current as int) == digits_end(
                    self.source@,
                    old(self).current as int,
                ),
            decreases self.source@.len() - self.current,
        {
            self.current = self.current + 1;
        }
        let peek_next = self.peek_at(self.current + 1);
        if self.peek() == '.' && is_digit(peek_next) {
            self.current = self.current + 1;
            proof {
                lemma_digits_end(self.source@, self.current as int);
            }
            while is_digit(self.peek())
                invariant
                    self.source@ == old(self).source@,
                    self.tokens@ == old(self).tokens@,
                    self.start == old(self).start,
                    self.line == old(self).line,
                    old(self).current < self.current <= self.source@.len(),
                    digits_end(self.source@, self.current as int) == digits_end(
                        self.source@,
                        digits_end(self.source@, old(self).current as int) + 1,
                    ),
                decreases self.source@.len() - self.current,
            {
                self.current = self.current + 1;
            }
        }
        let value = self.get_source_slice(self.start, self.current);
        match parse_string(value.as_str()) {
            Option::Some(bits) => {
                let added = self.add_token(TokType::Number, Option::Some(Lit::Number(bits)));
                Result::Ok(added)
            },
            Option::None => Result::Err(
                ScannerError::InvalidNumber(
                    CodeLocation { line: self.line, display: DbgDisplay::from(value) },
                ),
            ),
        }
    }

    /// Consumes a maximal alphanumeric run, looks the slice up in the
    /// keyword table, and emits the keyword's kind on a hit or an
    /// identifier on a miss.
    #[verifier::loop_isolation(false)]
    fn scan_ident(&mut self) -> (r: Result<TokType, ScannerError>)
        requires
            old(self).current == old(self).start + 1,
            old(self).start < old(self).source@.len(),
        ensures
            final(self).source@ == old(self).source@,
            ({
                let step = scan_step_ident(
                    old(self).source@,
                    old(self).start as int,
                    old(self).line as nat,
                );
                &&& r is Ok
                &&& final(self).start == old(self).start
                &&& final(self).current == step.next
                &&& old(self).current <= final(self).current <= final(self).source@.len()
                &&& final(self).line == old(self).line
                &&& final(self).line as nat == step.line
                &&& toks_v(final(self).tokens@) == toks_v(old(self).tokens@) + step_toks(step.tok)
            }),
    {
        proof {
            vstd::std_specs::vec::axiom_spec_len(&self.source);
            lemma_alnum_end(self.source@, self.current as int);
        }
        while !self.is_at_end() && is_alphanumeric(self.peek())
            invariant
                self.source@ == old(self).source@,
                self.tokens@ == old(self).tokens@,
                self.start == old(self).start,
                self.line == old(self).line,
                old(self).current <= self.current <= self.source@.len(),
                alnum_end(self.source@, self.current as int) == alnum_end(
                    self.source@,
                    old(self).current as int,
                ),
            decreases self.source@.len() - self.current,
        {
            self.current = self.current + 1;
        }
        let value = self.get_source_slice(self.start, self.current);
        match keyword_lookup(&value) {
            Option::Some(token_type) => Result::Ok(self.add_token(token_type, Option::None)),
            Option::None => Result::Ok(self.add_token(TokType::Identifier, Option::None)),
        }
    }

    /// One scan step: classifies the character at the current position and
    /// emits its token, discards it, or reports it.
    fn scan_token(&mut self) -> (r: Result<TokType, ScannerError>)
        requires
            old(self).start == old(self).current,
            old(self).current < old(self).source@.len(),
            old(self).source@.len() < usize::MAX,
            old(self).line as int + (old(self).source@.len() - old(self).current)
                <= usize::MAX as int,
        ensures
            final(self).source@ == old(self).source@,
            ({
                let step = scan_step(
                    old(self).source@,
                    old(self).current as int,
                    old(self).line as nat,
                );
                match step.err {
                    Option::Some(e) => match r {
                        Result::Err(re) => re@ == e,
                        Result::Ok(_) => false,
                    },
                    Option::None => {
                        &&& r is Ok
                        &&& final(self).current == step.next
                        &&& old(self).current < final(self).current <= final(self).source@.len()
                        &&& final(self).line as nat == step.line
                        &&& final(self).line as int <= old(self).line as int + (final(self).current as int
                            - old(self).current as int)
                        &&& toks_v(final(self).tokens@) == toks_v(old(self).tokens@) + step_toks(step.tok)
                    },
                }
            }),
    {
        let character = match self.advance() {
            Option::Some(c) => c,
            Option::None => {
                return Result::Err(ScannerError::UnexpectedEof);
            },
        };
        match character {
            '(' => Result::Ok(self.add_token(TokType::LeftParen, Option::None)),
            ')' => Result::Ok(self.add_token(TokType::RightParen, Option::None)),
            '{' => Result::Ok(self.add_token(TokType::LeftBrace, Option::None)),
            '}' => Result::Ok(self.add_token(TokType::RightBrace, Option::None)),
            ',' => Result::Ok(self.add_token(TokType::Comma, Option::None)),
            '.' => Result::Ok(self.add_token(TokType::Dot, Option::None)),
            '-' => Result::Ok(self.add_token(TokType::Minus, Option::None)),
            '+' => Result::Ok(self.add_token(TokType::Plus, Option::None)),
            ';' => Result::Ok(self.add_token(TokType::Semicolon, Option::None)),
            '*' => Result::Ok(self.add_token(TokType::Star, Option::None)),
            '"' => self.scan_string(),
            '/' => {
                proof {
                    assert(toks_v(old(self).tokens@) + Seq::<TokV>::empty() =~= toks_v(
                        old(self).tokens@,
                    ));
                }
                if self.consume('/') {
                    Result::Ok(self.skip_comment())
                } else if self.consume('*') {
                    Result::Ok(self.skip_block_comment())
                } else {
                    Result::Ok(self.add_token(TokType::Slash, Option::None))
                }
            },
            '!' => {
                let token_type = if self.consume('=') {
                    TokType::BangEqual
                } else {
                    TokType::Bang
                };
                Result::Ok(self.add_token(token_type, Option::None))
            },
            '=' => {
                let token_type = if self.consume('=') {
                    TokType::EqualEqual
                } else {
                    TokType::Equal
                };
                Result::Ok(self.add_token(token_type, Option::None))
            },
            '<' => {
                let token_type = if self.consume('=') {
                    TokType::LessEqual
                } else {
                    TokType::Less
                };
                Result::Ok(self.add_token(token_type, Option::None))
            },
            '>' => {
                let token_type = if self.consume('=') {
                    TokType::GreaterEqual
                } else {
                    TokType::Greater
                };
                Result::Ok(self.add_token(token_type, Option::None))
            },
            '\r' | ' ' => {
                proof {
                    assert(toks_v(old(self).tokens@) + Seq::<TokV>::empty() =~= toks_v(
                        old(self).tokens@,
                    ));
                }
                Result::Ok(TokType::NoToken)
            },
            '\n' => {
                proof {
                    assert(toks_v(old(self).tokens@) + Seq::<TokV>::empty() =~= toks_v(
                        old(self).tokens@,
                    ));
                }
                self.line = self.line + 1;
                Result::Ok(TokType::NoToken)
            },
            any_char => {
                if is_digit(any_char) {
                    self.scan_number()
                } else if is_alpha(character) {
                    self.scan_ident()
                } else {
                    let mut text: String = String::new();
                    push_char(&mut text, any_char);
                    proof {
                        assert(text@ =~= seq![any_char]);
                    }
                    Result::Err(
                        ScannerError::UnknownToken(
                            CodeLocation { line: self.line, display: DbgDisplay::from(text) },
                        ),
                    )
                }
            },
        }
    }

    /// Scans the whole remaining source: loops over every character, and
    /// on success appends the end-of-input token and hands the full token
    /// list back.
    #[verifier::loop_isolation(false)]
    pub fn scan_tokens(&mut self) -> (r: Result<Vec<Tok>, ScannerError>)
        requires
            old(self).current <= old(self).source@.len(),
            old(self).source@.len() < usize::MAX,
            old(self).line as int + (old(self).source@.len() - old(self).current)
                <= usize::MAX as int,
        ensures
            final(self).source@ == old(self).source@,
            match r {
                Result::Ok(v) => match scan_all(
                    old(self).source@,
                    old(self).current as int,
                    old(self).line as nat,
                ) {
                    Result::Ok(ts) => toks_v(final(self).tokens@) == toks_v(old(self).tokens@) + ts
                        && toks_v(v@) == toks_v(final(self).tokens@),
                    Result::Err(_) => false,
                },
                Result::Err(e) => scan_all(
                    old(self).source@,
                    old(self).current as int,
                    old(self).line as nat,
                ) == Result::<Seq<TokV>, ScanErrV>::Err(e@),
            },
    {
        let ghost src = old(self).source@;
        let ghost c0 = old(self).current as int;
        let ghost l0 = old(self).line as nat;
        let ghost n0 = old(self).tokens@.len() as int;
        while !self.is_at_end()
            invariant
                self.source@ == src,
                self.current <= self.source@.len(),
                self.source@.len() < usize::MAX,
                self.line as int + (self.source@.len() - self.current) <= usize::MAX as int,
                self.tokens@.len() >= n0,
                toks_v(self.tokens@).take(n0) == toks_v(old(self).tokens@),
                match scan_all(src, self.current as int, self.line as nat) {
                    Result::Ok(rest) => scan_all(src, c0, l0) == Result::<
                        Seq<TokV>,
                        ScanErrV,
                    >::Ok(toks_v(self.tokens@).skip(n0) + rest),
                    Result::Err(e) => scan_all(src, c0, l0) == Result::<
                        Seq<TokV>,
                        ScanErrV,
                    >::Err(e),
                },
            decreases self.source@.len() - self.current,
        {
            self.start = self.current;
            let ghost cur = self.current as int;
            let ghost line_before = self.line as nat;
            let ghost toks_before = toks_v(self.tokens@);
            let step_result = self.scan_token();
            proof {
                let step = scan_step(src, cur, line_before);
                assert(scan_all(src, cur, line_before) == (if cur >= src.len() {
                    Result::<Seq<TokV>, ScanErrV>::Ok(seq![eof_tok(line_before)])
                } else {
                    match step.err {
                        Option::Some(e) => Result::<Seq<TokV>, ScanErrV>::Err(e),
                        Option::None => {
                            let next = if cur < step.next && step.next <= src.len() {
                                step.next
                            } else {
                                cur + 1
                            };
                            match scan_all(src, next, step.line) {
                                Result::Ok(rest) => Result::<Seq<TokV>, ScanErrV>::Ok(
                                    step_toks(step.tok) + rest,
                                ),
                                Result::Err(e) => Result::<Seq<TokV>, ScanErrV>::Err(e),
                            }
                        },
                    }
                }));
            }
            match step_result {
                Result::Ok(_) => {
                    proof {
                        let step = scan_step(src, cur, line_before);
                        assert(toks_v(self.tokens@) == toks_before + step_toks(step.tok));
                        assert(toks_v(self.tokens@).take(n0) =~= toks_before.take(n0));
                        assert(toks_v(self.tokens@).skip(n0) =~= toks_before.skip(n0) + step_toks(
                            step.tok,
                        ));
                        match scan_all(src, self.current as int, self.line as nat) {
                            Result::Ok(rest) => {
                                assert((toks_before.skip(n0) + step_toks(step.tok)) + rest
                                    =~= toks_before.skip(n0) + (step_toks(step.tok) + rest));
                            },
                            Result::Err(_) => {},
                        }
                    }
                },
                Result::Err(error) => {
                    return Result::Err(error);
                },
            }
        }
        let ghost line_final = self.line as nat;
        proof {
            assert(scan_all(src, self.current as int, line_final) == Result::<
                Seq<TokV>,
                ScanErrV,
            >::Ok(seq![eof_tok(line_final)]));
        }
        let ghost toks_before = toks_v(self.tokens@);
        self.tokens.push(
            Tok {
                token_type: TokType::Eof,
                lexeme: String::new(),
                literal: Option::None,
                line: self.line,
            },
        );
        proof {
            assert(toks_v(self.tokens@) =~= toks_before + seq![eof_tok(line_final)]);
            assert(toks_v(self.tokens@).take(n0) =~= toks_before.take(n0));
            assert(toks_v(self.tokens@).skip(n0) =~= toks_before.skip(n0) + seq![
                eof_tok(line_final),
            ]);
            assert(toks_v(self.tokens@) =~= toks_v(self.tokens@).take(n0) + toks_v(
                self.tokens@,
            ).skip(n0));
        }
        let out = clone_toks(&self.tokens);
        Result::Ok(out)
    }
}

} // verus!
