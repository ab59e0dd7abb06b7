//! Identifiers that the user writes into an attribute.

use vstd::prelude::*;
use vstd::string::*;

verus! {

/// An identifier that the Rust parser accepted as it was written: a value
/// exists only for a text that parsed as exactly that identifier, so that
/// generated items can be named by it.
#[derive(Debug, PartialEq, Eq)]
pub struct Name {
    text: String,
}

impl View for Name {
    type V = Seq<char>;

    closed spec fn view(&self) -> Seq<char> {
        self.text@
    }
}

/// Trusted: `syn::parse_str::<syn::Ident>`, which lexes `source` and
/// accepts it if it is one identifier that is no keyword, with nothing
/// after it. The identifier comes back as its own text. Which lexer reads
/// the text depends on where the call is made, the compiler's during a
/// macro expansion and the token crate's own elsewhere, so nothing is
/// claimed of the result.
#[verifier::external_body]
fn parse_ident(source: &str) -> (parsed: Option<String>) {
    syn::parse_str::<syn::Ident>(source).ok().map(|ident| ident.to_string())
}

impl Name {
    /// Reads `source` as an identifier. A name that comes back has `source`
    /// as its text; whether one comes back is for the Rust parser to say.
    pub fn new(source: &str) -> (name: Option<Name>)
        ensures
            name matches Some(n) ==> n@ == source@,
    {
        Name::accept(source, parse_ident(source))
    }

    /// The name for `source`, given what the Rust parser read out of it:
    /// the name whose text is `source` where the parser read an identifier
    /// and that identifier is `source` itself, letter for letter. A text
    /// that the parser refused gives no name, and neither does one in which
    /// it found an identifier among blanks or comments.
    pub fn accept(source: &str, parsed: Option<String>) -> (name: Option<Name>)
        ensures
            name is Some <==> parsed is Some && parsed->Some_0@ == source@,
            name matches Some(n) ==> n@ == source@,
    {
        match parsed {
            Some(text) => {
                if text == String::from_str(source) {
                    Some(Name { text })
                } else {
                    None
                }
            },
            None => None,
        }
    }

    /// The identifier's text.
    pub fn as_str(&self) -> (text: &str)
        ensures
            text@ == self@,
    {
        self.text.as_str()
    }
}

impl Clone for Name {
    fn clone(&self) -> (copy: Self)
        ensures
            copy@ == self@,
    {
        Name { text: self.text.clone() }
    }
}

} // verus!
