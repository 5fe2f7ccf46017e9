//! Account identifiers of the host ledger.

use vstd::prelude::*;
use vstd::string::*;

verus! {

/// An account identifier that the host ledger has validated. Two of them are
/// the same principal exactly when their texts are equal.
#[derive(Debug, PartialEq, Eq)]
pub struct Addr {
    text: String,
}

impl View for Addr {
    type V = Seq<char>;

    /// The text of the identifier.
    closed spec fn view(&self) -> Seq<char> {
        self.text@
    }
}

impl DeepView for Addr {
    type V = Seq<char>;

    open spec fn deep_view(&self) -> Seq<char> {
        self@
    }
}

impl Clone for Addr {
    fn clone(&self) -> (copy: Self)
        ensures
            copy@ == self@,
    {
        Addr { text: self.text.clone() }
    }
}

impl Addr {
    /// Takes `text` as an identifier without validating it: the host ledger
    /// validates identifiers before they reach this library.
    pub fn unchecked(text: String) -> (addr: Self)
        ensures
            addr@ == text@,
    {
        Addr { text }
    }

    /// The text of the identifier.
    pub fn as_str(&self) -> (text: &str)
        ensures
            text@ == self@,
    {
        self.text.as_str()
    }

    /// The text of the identifier, as an owned string.
    pub fn into_string(self) -> (text: String)
        ensures
            text@ == self@,
    {
        self.text
    }

    /// Whether `self` and `other` are the same principal.
    pub fn same(&self, other: &Addr) -> (equal: bool)
        ensures
            equal == (self@ == other@),
    {
        self.text == other.text
    }
}

} // verus!
