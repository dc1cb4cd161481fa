//! Where in the source an error arose: the line, and a rendered snippet of
//! the offending input.

use vstd::prelude::*;
use vstd::string::StringExecFns;

use crate::dbg_display::DbgDisplay;
use crate::util::dec_rep;
use crate::util::usize_string;

verus! {

#[derive(Debug, PartialEq, Clone)]
pub struct CodeLocation {
    pub line: usize,
    pub display: DbgDisplay,
}

/// The mathematical reading of a `CodeLocation`.
pub struct CodeLocV {
    pub line: nat,
    pub text: Seq<char>,
}

impl View for CodeLocation {
    type V = CodeLocV;

    open spec fn view(&self) -> CodeLocV {
        CodeLocV { line: self.line as nat, text: self.display@ }
    }
}

/// The rendering of a location: a fresh line, the snippet, then the line
/// number in decimal.
pub open spec fn code_loc_text(l: CodeLocV) -> Seq<char> {
    "\nAt "@ + l.text + ", line "@ + dec_rep(l.line)
}

impl CodeLocation {
    /// The rendering of this location.
    pub fn render(&self) -> (r: String)
        ensures
            r@ == code_loc_text(self@),
    {
        let mut s: String = String::from_str("\nAt ");
        s.append(self.display.text.as_str());
        s.append(", line ");
        let line: String = usize_string(self.line);
        s.append(line.as_str());
        s
    }
}

} // verus!
