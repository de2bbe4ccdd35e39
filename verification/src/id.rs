use vstd::prelude::*;

use crate::errors::Error;

verus! {

/// A character that may open an identifier: an ASCII letter or an underscore.
pub open spec fn is_id_start_char(c: char) -> bool {
    ||| 'a' <= c && c <= 'z'
    ||| 'A' <= c && c <= 'Z'
    ||| c == '_'
}

/// A character that may continue an identifier: an ASCII letter, an ASCII
/// digit, or an underscore.
pub open spec fn is_id_char(c: char) -> bool {
    ||| is_id_start_char(c)
    ||| '0' <= c && c <= '9'
}

/// A valid identifier: non-empty, opened by a letter or underscore, and
/// continued by letters, digits, or underscores (the regular expression
/// `[A-Za-z_][A-Za-z0-9_]*`).
pub open spec fn is_valid_id(s: Seq<char>) -> bool {
    &&& s.len() > 0
    &&& is_id_start_char(s[0])
    &&& forall|i: int| 0 < i < s.len() ==> is_id_char(#[trigger] s[i])
}

/// `Id` is a Graphviz `ID`: a name usable unquoted in DOT syntax.
///
/// Constructed only through [`Id::new`], which rejects any candidate that
/// does not match `[A-Za-z_][A-Za-z0-9_]*`. (This format is a strict subset
/// of the `ID` format defined by the DOT language.)
#[derive(Clone)]
pub struct Id {
    name: String,
}

impl View for Id {
    type V = Seq<char>;

    closed spec fn view(&self) -> Seq<char> {
        self.name@
    }
}

impl Id {
    /// Creates an `Id` named `name`.
    ///
    /// Succeeds exactly when the input is a non-empty string made up of
    /// alphanumeric or underscore characters, not beginning with a digit.
    /// Passing an invalid string (containing spaces, brackets, quotes, ...)
    /// returns `Err(Error::InvalidId)`.
    pub fn new(name: &str) -> (r: Result<Id, Error>)
        ensures
            is_valid_id(name@) <==> r is Ok,
            r matches Ok(id) ==> id@ == name@,
            r matches Err(e) ==> e is InvalidId,
    {
        let len = name.unicode_len();
        if len == 0 {
            return Err(Error::InvalidId);
        }
        let first = name.get_char(0);
        if !exec_is_id_start_char(first) {
            return Err(Error::InvalidId);
        }
        let mut i: usize = 1;
        while i < len
            invariant
                1 <= i <= len,
                len == name@.len(),
                is_id_start_char(name@[0]),
                forall|j: int| 0 < j < i ==> is_id_char(#[trigger] name@[j]),
            decreases len - i,
        {
            if !exec_is_id_char(name.get_char(i)) {
                return Err(Error::InvalidId);
            }
            i += 1;
        }
        Ok(Id { name: name.to_owned() })
    }

    /// The identifier, exactly as it was accepted.
    pub fn as_slice(&self) -> (r: &str)
        ensures
            r@ == self@,
    {
        self.name.as_str()
    }
}

/// A candidate that contains any character outside letters, digits and the
/// underscore (a space, a bracket, a quote, ...), or that begins with a
/// digit, is never a valid identifier — so [`Id::new`] rejects it.
pub proof fn lemma_invalid_id_rejected(s: Seq<char>)
    requires
        (exists|i: int| 0 <= i < s.len() && !is_id_char(#[trigger] s[i])) || (s.len() > 0 && '0'
            <= s[0] && s[0] <= '9'),
    ensures
        !is_valid_id(s),
{
    if exists|i: int| 0 <= i < s.len() && !is_id_char(#[trigger] s[i]) {
        let i = choose|i: int| 0 <= i < s.len() && !is_id_char(#[trigger] s[i]);
        if is_valid_id(s) {
            if i == 0 {
                assert(is_id_start_char(s[0]));
            } else {
                assert(is_id_char(s[i]));
            }
        }
    }
}

fn exec_is_id_start_char(c: char) -> (r: bool)
    ensures
        r == is_id_start_char(c),
{
    c == '_' || (c >= 'a' && c <= 'z') || (c >= 'A' && c <= 'Z')
}

fn exec_is_id_char(c: char) -> (r: bool)
    ensures
        r == is_id_char(c),
{
    exec_is_id_start_char(c) || (c >= '0' && c <= '9')
}

} // verus!
