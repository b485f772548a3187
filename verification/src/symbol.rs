//! Symbol tags: the instrument identifier attached to every stored point.

use vstd::prelude::*;

verus! {

/// The error returned when a symbol tag is constructed from an empty string.
#[derive(Clone, Copy, PartialEq, Eq, Structural, Debug)]
pub struct EmptySymbolError {}

/// A non-empty string naming the instrument a bar or point belongs to.
///
/// The text is untrusted input (it usually comes straight from the command
/// line).  The tag itself places no further restriction on it; the query
/// builder escapes it before embedding it in query text, so quotes and
/// backslashes in a symbol never alter query structure.
pub struct SymbolTag {
    text: String,
}

impl View for SymbolTag {
    type V = Seq<char>;

    closed spec fn view(&self) -> Seq<char> {
        self.text@
    }
}

impl SymbolTag {
    /// The invariant every constructed tag satisfies.
    pub open spec fn wf(&self) -> bool {
        self@.len() > 0
    }

    /// Accepts any non-empty string; rejects the empty one.
    pub fn new(text: String) -> (r: Result<SymbolTag, EmptySymbolError>)
        ensures
            r is Ok <==> text@.len() > 0,
            r matches Ok(tag) ==> tag@ == text@ && tag.wf(),
    {
        if text.as_str().is_empty() {
            Err(EmptySymbolError {})
        } else {
            Ok(SymbolTag { text })
        }
    }

    /// Whether two tags name the same instrument.
    pub fn eq_tag(&self, other: &SymbolTag) -> (r: bool)
        ensures
            r == (self@ == other@),
    {
        self.text.eq(&other.text)
    }

    /// The tag's text, for display and for embedding (escaped) in queries.
    pub fn as_str(&self) -> (r: &str)
        ensures
            r@ == self@,
    {
        self.text.as_str()
    }
}

impl Clone for SymbolTag {
    fn clone(&self) -> (r: Self)
        ensures
            r@ == self@,
    {
        SymbolTag { text: self.text.clone() }
    }
}

} // verus!
