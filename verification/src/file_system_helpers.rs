//! Path-level decisions: file-name extraction, path joining, and the
//! recognition of descriptor and image files.  Paths are modeled as plain
//! strings with `/` separators; the unverified shell hands them in and
//! carries the answers out.

use vstd::prelude::*;
use vstd::string::*;

use crate::error::AppError;
use crate::text::matches_at;

verus! {

/// The position right after the last `/` of `p`, or `0` when `p` holds
/// none.
pub open spec fn cut_pos(p: Seq<char>) -> int
    decreases p.len(),
{
    if p.len() == 0 {
        0
    } else if p[p.len() - 1] == '/' {
        p.len() as int
    } else {
        cut_pos(p.take(p.len() - 1))
    }
}

/// The file name of `p`: everything after its last `/`.
pub open spec fn file_name_of(p: Seq<char>) -> Seq<char> {
    p.skip(cut_pos(p))
}

pub proof fn lemma_cut_pos_bounds(p: Seq<char>)
    ensures
        0 <= cut_pos(p) <= p.len(),
    decreases p.len(),
{
    if p.len() > 0 && p[p.len() - 1] != '/' {
        lemma_cut_pos_bounds(p.take(p.len() - 1));
    }
}

/// `a` and `b` joined by a single `/`.
pub open spec fn slash_join(a: Seq<char>, b: Seq<char>) -> Seq<char> {
    a + seq!['/'] + b
}

/// Joins a directory and a name with a single `/`.
pub fn join_path(dir: &str, name: &str) -> (r: String)
    ensures
        r@ == slash_join(dir@, name@),
{
    let mut r = String::from_str(dir);
    r.append("/");
    r.append(name);
    proof {
        reveal_strlit("/");
        assert("/"@ =~= seq!['/']);
        assert(r@ =~= slash_join(dir@, name@));
    }
    r
}

/// The part of `file_path` after its last `/`, or an error when that is
/// empty (an empty path, or one ending in `/`).
pub fn get_file_name(file_path: &String) -> (r: Result<String, String>)
    ensures
        r is Ok <==> cut_pos(file_path@) < file_path@.len(),
        r matches Ok(n) ==> n@ == file_name_of(file_path@) && n@.len() > 0,
{
    let s = file_path.as_str();
    let n = s.unicode_len();
    proof {
        lemma_cut_pos_bounds(s@);
    }
    let mut j: usize = n;
    assert(s@.take(n as int) =~= s@);
    while j > 0 && s.get_char(j - 1) != '/'
        invariant
            n == s@.len(),
            j <= n,
            cut_pos(s@) == cut_pos(s@.take(j as int)),
        decreases j,
    {
        assert(s@.take(j as int)[j - 1] == s@[j - 1]);
        assert(s@.take(j as int).take(j - 1) =~= s@.take(j - 1));
        j -= 1;
    }
    proof {
        if j > 0 {
            assert(s@.take(j as int)[j - 1] == s@[j - 1]);
        }
        assert(cut_pos(s@) == j as int);
    }
    if j == n {
        return Err(String::from_str("Failed to get file name"));
    }
    let name = s.substring_char(j, n);
    assert(name@ =~= file_name_of(s@));
    Ok(String::from_str(name))
}

/// `s` ends with `suffix`.
pub open spec fn ends_with_seq(s: Seq<char>, suffix: Seq<char>) -> bool {
    suffix.len() <= s.len() && matches_at(s, suffix, s.len() - suffix.len())
}

/// True when `s` ends with `suffix`.
pub fn ends_with(s: &str, suffix: &str) -> (r: bool)
    ensures
        r == ends_with_seq(s@, suffix@),
{
    let n = s.unicode_len();
    let m = suffix.unicode_len();
    if m > n {
        return false;
    }
    crate::text::starts_with_at(s, suffix, n - m)
}

/// A descriptor file: its name ends in `.desktop`.
pub open spec fn is_desktop_file_name(s: Seq<char>) -> bool {
    ends_with_seq(s, ".desktop"@)
}

/// The first entry of the listing whose name ends in `.desktop`, or an
/// error when there is none.
pub fn find_desktop_file_in_dir(entries: &Vec<String>) -> (r: Result<usize, AppError>)
    ensures
        r matches Ok(i) ==> i < entries@.len() && is_desktop_file_name(entries@[i as int]@)
            && forall|j: int| 0 <= j < i ==> !is_desktop_file_name(entries@[j]@),
        r is Err <==> forall|j: int|
            0 <= j < entries@.len() ==> !is_desktop_file_name(entries@[j]@),
        r is Err ==> r == Err::<usize, AppError>(AppError::ExtractionFailed),
{
    let n = entries.len();
    let mut i: usize = 0;
    while i < n
        invariant
            n == entries@.len(),
            i <= n,
            forall|j: int| 0 <= j < i ==> !is_desktop_file_name(entries@[j]@),
        decreases n - i,
    {
        if ends_with(entries[i].as_str(), ".desktop") {
            return Ok(i);
        }
        i += 1;
    }
    Err(AppError::ExtractionFailed)
}

/// An image file: its name ends in `.png`, `.jpg`, `.jpeg` or `.svg`.
pub open spec fn is_image_file_name(s: Seq<char>) -> bool {
    ends_with_seq(s, ".png"@) || ends_with_seq(s, ".jpg"@) || ends_with_seq(s, ".jpeg"@)
        || ends_with_seq(s, ".svg"@)
}

/// True when the name denotes an image file the icon scan keeps.
pub fn is_image_file(name: &String) -> (r: bool)
    ensures
        r == is_image_file_name(name@),
{
    let s = name.as_str();
    ends_with(s, ".png") || ends_with(s, ".jpg") || ends_with(s, ".jpeg") || ends_with(s, ".svg")
}

} // verus!
