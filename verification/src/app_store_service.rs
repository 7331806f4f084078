//! The one computation of the remote-catalog service that belongs to the
//! core: picking the download link out of a fetched text.  The fetching
//! itself is an external collaborator driven by the unverified shell.

use vstd::prelude::*;
use vstd::string::*;

use crate::text::{eol_from, lemma_eol_from_props};

verus! {

/// The first line of `text`: everything before the first newline, or the
/// whole text when it holds none.  This is the download link in a fetched
/// catalog answer.
pub fn extract_first_link(text: String) -> (r: Result<String, String>)
    ensures
        r matches Ok(l) ==> l@ == text@.subrange(0, eol_from(text@, 0)),
        r is Ok,
{
    let s = text.as_str();
    let n = s.unicode_len();
    proof {
        lemma_eol_from_props(s@, 0);
    }
    let mut j: usize = 0;
    while j < n && s.get_char(j) != '\n'
        invariant
            n == s@.len(),
            j <= n,
            eol_from(s@, 0) == eol_from(s@, j as int),
        decreases n - j,
    {
        j += 1;
    }
    assert(eol_from(s@, j as int) == j as int);
    let first = s.substring_char(0, j);
    Ok(String::from_str(first))
}

} // verus!
