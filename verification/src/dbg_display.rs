//! A snippet of the offending input, rendered to text when the error is
//! made, so that an error value carries what it needs to be displayed.

use vstd::prelude::*;

verus! {

#[derive(Debug, PartialEq, Clone)]
pub struct DbgDisplay {
    pub text: String,
}

impl View for DbgDisplay {
    type V = Seq<char>;

    open spec fn view(&self) -> Seq<char> {
        self.text@
    }
}

impl DbgDisplay {
    pub fn from(text: String) -> (d: DbgDisplay)
        ensures
            d@ == text@,
    {
        DbgDisplay { text }
    }
}

} // verus!
