//! Telling a statement that reads from one that writes, by its first word.

use vstd::prelude::*;
use vstd::string::StrSliceExecFns;

verus! {

/// What a statement does to the store.
#[derive(Clone, Copy, Debug, PartialEq, Eq, Structural)]
pub enum StatementKind {
    /// The statement produces rows.
    Read,
    /// The statement changes the store and produces no rows.
    Write,
}

/// The text that `str::trim` returns for a text.
pub uninterp spec fn trimmed(text: Seq<char>) -> Seq<char>;

/// The text that `str::to_uppercase` returns for a text.
pub uninterp spec fn uppercased(text: Seq<char>) -> Seq<char>;

/// Calls `str::trim`, which returns the text without the white space at its
/// start and at its end. The contract only names that result.
#[verifier::external_body]
fn trim_text(text: &str) -> (out: &str)
    ensures
        out@ == trimmed(text@),
{
    text.trim()
}

/// Calls `str::to_uppercase`, which returns the text with each character
/// replaced by its upper-case form. The contract only names that result.
#[verifier::external_body]
fn uppercase_text(text: &str) -> (out: String)
    ensures
        out@ == uppercased(text@),
{
    text.to_uppercase()
}

/// The keyword that a reading statement begins with.
pub open spec fn read_keyword() -> Seq<char> {
    seq!['S', 'E', 'L', 'E', 'C', 'T']
}

/// Whether a text begins with the read keyword, letter for letter.
pub open spec fn begins_with_read_keyword(text: Seq<char>) -> bool {
    read_keyword().is_prefix_of(text)
}

/// The kind of a statement: it reads if its text, trimmed and put in upper
/// case, begins with the read keyword, and writes otherwise.
pub open spec fn kind_of(query: Seq<char>) -> StatementKind {
    if begins_with_read_keyword(uppercased(trimmed(query))) {
        StatementKind::Read
    } else {
        StatementKind::Write
    }
}

/// Tests whether a text begins with the read keyword, letter for letter.
pub fn has_read_keyword(text: &str) -> (yes: bool)
    ensures
        yes == begins_with_read_keyword(text@),
{
    let keyword = "SELECT";
    proof {
        reveal_strlit("SELECT");
        assert(keyword@ =~= read_keyword());
    }
    if text.unicode_len() < 6 {
        return false;
    }
    let mut i: usize = 0;
    while i < 6
        invariant
            i <= 6,
            keyword@ == read_keyword(),
            text@.len() >= 6,
            forall|k: int| 0 <= k < i ==> text@[k] == read_keyword()[k],
        decreases 6 - i,
    {
        if text.get_char(i) != keyword.get_char(i) {
            return false;
        }
        i += 1;
    }
    assert(text@.subrange(0, 6) =~= read_keyword());
    true
}

/// Classifies a statement by its leading keyword, whatever the case of its
/// letters and the white space around it.
pub fn classify(query: &str) -> (kind: StatementKind)
    ensures
        kind == kind_of(query@),
{
    let upper = uppercase_text(trim_text(query));
    if has_read_keyword(upper.as_str()) {
        StatementKind::Read
    } else {
        StatementKind::Write
    }
}

} // verus!
