//! Character-level text model: substring matching, line structure, key/value
//! extraction, substring replacement, trimming and joining.
//!
//! Every executable function here is specified against a small set of spec
//! functions over `Seq<char>`; the descriptor parser and the pipeline plans
//! are stated in terms of these.

use vstd::prelude::*;
use vstd::string::*;

verus! {

/// `pat` occurs in `s` starting at index `i`.
pub open spec fn matches_at(s: Seq<char>, pat: Seq<char>, i: int) -> bool {
    &&& 0 <= i
    &&& i + pat.len() <= s.len()
    &&& forall|j: int| 0 <= j < pat.len() ==> s[i + j] == pat[j]
}

/// `pat` occurs somewhere in `s`.
pub open spec fn contains_seq(s: Seq<char>, pat: Seq<char>) -> bool {
    exists|i: int| matches_at(s, pat, i)
}

/// Index `i` begins a line of `s`: it is the start of the text or follows a
/// newline.
pub open spec fn line_start(s: Seq<char>, i: int) -> bool {
    i == 0 || s[i - 1] == '\n'
}

/// A line of `s` begins at `i` with the key pattern `kp` (a key name followed
/// by `=`).
pub open spec fn keyline_at(s: Seq<char>, kp: Seq<char>, i: int) -> bool {
    line_start(s, i) && matches_at(s, kp, i)
}

/// The first index at or after `i` where a line of `s` begins with `kp`.
pub open spec fn first_keyline_from(s: Seq<char>, kp: Seq<char>, i: int) -> Option<int>
    decreases s.len() - i,
{
    if i < 0 || i >= s.len() {
        None
    } else if keyline_at(s, kp, i) {
        Some(i)
    } else {
        first_keyline_from(s, kp, i + 1)
    }
}

/// The index of the first newline of `s` at or after `i`, or `s.len()` if
/// there is none.
pub open spec fn eol_from(s: Seq<char>, i: int) -> int
    decreases s.len() - i,
{
    if i < 0 || i >= s.len() {
        s.len() as int
    } else if s[i] == '\n' {
        i
    } else {
        eol_from(s, i + 1)
    }
}

/// The value of the first line of `s` that begins with the key pattern `kp`:
/// the characters between the pattern and the end of that line.
pub open spec fn parsed_field(s: Seq<char>, kp: Seq<char>) -> Option<Seq<char>> {
    match first_keyline_from(s, kp, 0) {
        Some(i) => Some(s.subrange(i + kp.len(), eol_from(s, i + kp.len()))),
        None => None,
    }
}

pub proof fn lemma_first_keyline_from_props(s: Seq<char>, kp: Seq<char>, i: int)
    requires
        0 <= i,
    ensures
        match first_keyline_from(s, kp, i) {
            Some(f) => i <= f < s.len() && keyline_at(s, kp, f) && forall|j: int|
                i <= j < f ==> !keyline_at(s, kp, j),
            None => forall|j: int| i <= j < s.len() ==> !keyline_at(s, kp, j),
        },
    decreases s.len() - i,
{
    if i >= s.len() {
    } else if keyline_at(s, kp, i) {
    } else {
        lemma_first_keyline_from_props(s, kp, i + 1);
    }
}

pub proof fn lemma_first_keyline_from_some(s: Seq<char>, kp: Seq<char>, i: int, f: int)
    requires
        0 <= i <= f < s.len(),
        keyline_at(s, kp, f),
        forall|j: int| i <= j < f ==> !keyline_at(s, kp, j),
    ensures
        first_keyline_from(s, kp, i) == Some(f),
    decreases s.len() - i,
{
    if i == f {
    } else {
        lemma_first_keyline_from_some(s, kp, i + 1, f);
    }
}

pub proof fn lemma_first_keyline_from_none(s: Seq<char>, kp: Seq<char>, i: int)
    requires
        0 <= i,
        forall|j: int| i <= j < s.len() ==> !keyline_at(s, kp, j),
    ensures
        first_keyline_from(s, kp, i) is None,
    decreases s.len() - i,
{
    if i < s.len() {
        lemma_first_keyline_from_none(s, kp, i + 1);
    }
}

pub proof fn lemma_eol_from_props(s: Seq<char>, i: int)
    requires
        0 <= i <= s.len(),
    ensures
        i <= eol_from(s, i) <= s.len(),
        eol_from(s, i) == s.len() || s[eol_from(s, i)] == '\n',
        forall|m: int| i <= m < eol_from(s, i) ==> s[m] != '\n',
    decreases s.len() - i,
{
    if i < s.len() && s[i] != '\n' {
        lemma_eol_from_props(s, i + 1);
    }
}

/// Characterizes `eol_from` by its defining properties.
pub proof fn lemma_eol_from_is(s: Seq<char>, i: int, e: int)
    requires
        0 <= i <= e <= s.len(),
        e == s.len() || s[e] == '\n',
        forall|m: int| i <= m < e ==> s[m] != '\n',
    ensures
        eol_from(s, i) == e,
    decreases s.len() - i,
{
    if i < s.len() && s[i] != '\n' {
        lemma_eol_from_is(s, i + 1, e);
    }
}

/// `pat` occurs at `i` in `s` exactly when it occurs wholly within the first
/// part or bridges into `t`; bridging is impossible when the first part ends
/// with a newline that `pat` lacks.  Stated in the form the serializer needs:
/// appending text to a newline-terminated prefix neither creates nor destroys
/// key lines within the prefix.
pub proof fn lemma_keyline_at_append(s: Seq<char>, t: Seq<char>, kp: Seq<char>, j: int)
    requires
        s.len() == 0 || s[s.len() - 1] == '\n',
        kp.len() > 0,
        forall|m: int| 0 <= m < kp.len() ==> kp[m] != '\n',
        0 <= j < s.len(),
    ensures
        keyline_at(s + t, kp, j) == keyline_at(s, kp, j),
{
    assert(forall|x: int| 0 <= x < s.len() ==> (s + t)[x] == s[x]);
    if j + kp.len() <= s.len() {
        assert(matches_at(s + t, kp, j) ==> matches_at(s, kp, j)) by {
            if matches_at(s + t, kp, j) {
                assert(forall|m: int| 0 <= m < kp.len() ==> s[j + m] == (s + t)[j + m] == #[trigger] kp[m]);
            }
        }
        assert(matches_at(s, kp, j) ==> matches_at(s + t, kp, j)) by {
            if matches_at(s, kp, j) {
                assert(forall|m: int| 0 <= m < kp.len() ==> (s + t)[j + m] == s[j + m] == #[trigger] kp[m]);
            }
        }
    } else {
        // The span would cross the final newline of `s`, which `kp` cannot
        // match.
        assert(!matches_at(s, kp, j));
        if matches_at(s + t, kp, j) {
            let off = s.len() - 1 - j;
            assert(0 <= off < kp.len());
            assert((s + t)[j + off] == s[s.len() - 1]);
            assert(kp[off] == '\n');
            assert(false);
        }
    }
}

/// After a newline-terminated prefix, the only line start inside an appended
/// single line is its first character.
pub proof fn lemma_no_keyline_in_tail(s: Seq<char>, l: Seq<char>, kp: Seq<char>, j: int)
    requires
        l.len() > 0,
        l[l.len() - 1] == '\n',
        forall|m: int| 0 <= m < l.len() - 1 ==> l[m] != '\n',
        s.len() < j < s.len() + l.len(),
    ensures
        !keyline_at(s + l, kp, j),
{
    if keyline_at(s + l, kp, j) {
        assert(line_start(s + l, j));
        assert((s + l)[j - 1] == l[j - 1 - s.len()]);
        assert(l[j - 1 - s.len()] == '\n');
        assert(j - 1 - s.len() == l.len() - 1);
        assert(j == s.len() + l.len());
        assert(false);
    }
}

/// The effect on `parsed_field` of appending one line `l` to a
/// newline-terminated text `s`: an already-found field is unchanged, an
/// absent field is found exactly when the new line starts with the key.
pub proof fn lemma_parsed_field_append(s: Seq<char>, l: Seq<char>, kp: Seq<char>)
    requires
        s.len() == 0 || s[s.len() - 1] == '\n',
        l.len() > 0,
        l[l.len() - 1] == '\n',
        forall|m: int| 0 <= m < l.len() - 1 ==> l[m] != '\n',
        kp.len() > 0,
        forall|m: int| 0 <= m < kp.len() ==> kp[m] != '\n',
    ensures
        parsed_field(s, kp) is Some ==> parsed_field(s + l, kp) == parsed_field(s, kp),
        parsed_field(s, kp) is None && matches_at(l, kp, 0) ==> parsed_field(s + l, kp)
            == Some(l.subrange(kp.len() as int, l.len() - 1)),
        parsed_field(s, kp) is None && !matches_at(l, kp, 0) ==> parsed_field(s + l, kp) is None,
{
    let sl = s + l;
    lemma_first_keyline_from_props(s, kp, 0);
    assert(forall|j: int| 0 <= j < s.len() ==> keyline_at(sl, kp, j) == keyline_at(s, kp, j)) by {
        assert forall|j: int| 0 <= j < s.len() implies keyline_at(sl, kp, j) == keyline_at(
            s,
            kp,
            j,
        ) by {
            lemma_keyline_at_append(s, l, kp, j);
        }
    }
    assert(forall|j: int| s.len() < j < sl.len() ==> !keyline_at(sl, kp, j)) by {
        assert forall|j: int| s.len() < j < sl.len() implies !keyline_at(sl, kp, j) by {
            lemma_no_keyline_in_tail(s, l, kp, j);
        }
    }
    // The position right after `s` always begins a line of `sl`, and matches
    // `kp` exactly when `l` starts with it.
    assert(line_start(sl, s.len() as int));
    assert(matches_at(sl, kp, s.len() as int) == matches_at(l, kp, 0)) by {
        if matches_at(l, kp, 0) {
            assert(forall|m: int| 0 <= m < kp.len() ==> sl[s.len() + m] == l[m] == #[trigger] kp[m]);
        }
        if matches_at(sl, kp, s.len() as int) {
            assert(forall|m: int| 0 <= m < kp.len() ==> l[m] == sl[s.len() + m] == #[trigger] kp[m]);
        }
    }
    match first_keyline_from(s, kp, 0) {
        Some(f) => {
            lemma_first_keyline_from_some(sl, kp, 0, f);
            let p = f + kp.len();
            // The key match cannot cover the final newline of `s`.
            assert(p <= s.len());
            assert(p < s.len()) by {
                if p == s.len() {
                    assert(s[f + (kp.len() - 1)] == kp[kp.len() - 1]);
                    assert(s[s.len() - 1] == '\n');
                    assert(false);
                }
            }
            lemma_eol_from_props(s, p);
            let e = eol_from(s, p);
            assert(e < s.len()) by {
                if e == s.len() {
                    assert(s[s.len() - 1] != '\n');
                    assert(false);
                }
            }
            assert(eol_from(sl, p) == e) by {
                assert(forall|x: int| 0 <= x < s.len() ==> sl[x] == s[x]);
                lemma_eol_from_is(sl, p, e);
            }
            assert(sl.subrange(p, e) =~= s.subrange(p, e));
        },
        None => {
            if matches_at(l, kp, 0) {
                lemma_first_keyline_from_some(sl, kp, 0, s.len() as int);
                let p = s.len() + kp.len();
                // `kp` cannot include the final newline of `l`.
                assert(kp.len() < l.len()) by {
                    if kp.len() == l.len() {
                        assert(l[l.len() - 1] == kp[kp.len() - 1]);
                        assert(false);
                    }
                }
                let e = s.len() + l.len() - 1;
                assert(eol_from(sl, p as int) == e) by {
                    assert(forall|x: int| s.len() <= x < sl.len() ==> sl[x] == l[x - s.len()]);
                    assert(sl[e] == '\n');
                    assert(forall|m: int| p <= m < e ==> sl[m] != '\n');
                    lemma_eol_from_is(sl, p as int, e);
                }
                assert(sl.subrange(p as int, e) =~= l.subrange(kp.len() as int, l.len() - 1));
            } else {
                lemma_first_keyline_from_none(sl, kp, 0);
            }
        },
    }
}

/// Whether `pat` occurs at `i` is unchanged by viewing the tail of `s` from
/// `i` instead.
pub proof fn lemma_matches_at_skip(s: Seq<char>, pat: Seq<char>, i: int)
    requires
        0 <= i <= s.len(),
    ensures
        matches_at(s, pat, i) == matches_at(s.skip(i), pat, 0),
{
    if matches_at(s, pat, i) {
        assert(forall|j: int| 0 <= j < pat.len() ==> s.skip(i)[j] == s[i + j] == #[trigger] pat[j]);
    }
    if matches_at(s.skip(i), pat, 0) {
        assert(forall|j: int| 0 <= j < pat.len() ==> s[i + j] == s.skip(i)[j] == #[trigger] pat[j]);
    }
}

/// True when `pat` occurs in `s` starting at `i`.
pub fn starts_with_at(s: &str, pat: &str, i: usize) -> (r: bool)
    ensures
        r == matches_at(s@, pat@, i as int),
{
    let n = s.unicode_len();
    let m = pat.unicode_len();
    if i > n || m > n - i {
        return false;
    }
    let mut j: usize = 0;
    while j < m
        invariant
            i + m <= n,
            n == s@.len(),
            m == pat@.len(),
            j <= m,
            forall|k: int| 0 <= k < j ==> s@[i + k] == pat@[k],
        decreases m - j,
    {
        if s.get_char(i + j) != pat.get_char(j) {
            assert(s@[i + j as int] != pat@[j as int]);
            return false;
        }
        j += 1;
    }
    true
}

/// True when `pat` occurs somewhere in `s`.
pub fn contains_str(s: &str, pat: &str) -> (r: bool)
    ensures
        r == contains_seq(s@, pat@),
{
    let n = s.unicode_len();
    let m = pat.unicode_len();
    if m > n {
        assert(forall|i: int| !matches_at(s@, pat@, i));
        return false;
    }
    let mut i: usize = 0;
    while i <= n - m
        invariant
            m <= n,
            n == s@.len(),
            m == pat@.len(),
            i <= n - m + 1,
            forall|j: int| 0 <= j < i ==> !matches_at(s@, pat@, j),
        decreases n + 1 - i,
    {
        if starts_with_at(s, pat, i) {
            assert(matches_at(s@, pat@, i as int));
            return true;
        }
        i += 1;
    }
    assert(forall|j: int| i <= j ==> !matches_at(s@, pat@, j));
    false
}

/// The value of the first line of `s` beginning with the key pattern `kp`,
/// or `None` when no line does.
pub fn parse_field(s: &str, kp: &str) -> (r: Option<String>)
    ensures
        match r {
            Some(v) => parsed_field(s@, kp@) == Some(v@),
            None => parsed_field(s@, kp@) is None,
        },
{
    let n = s.unicode_len();
    let klen = kp.unicode_len();
    let mut i: usize = 0;
    while i < n
        invariant
            n == s@.len(),
            klen == kp@.len(),
            i <= n,
            first_keyline_from(s@, kp@, 0) == first_keyline_from(s@, kp@, i as int),
        decreases n - i,
    {
        let at_line_start = i == 0 || s.get_char(i - 1) == '\n';
        if at_line_start && starts_with_at(s, kp, i) {
            assert(keyline_at(s@, kp@, i as int));
            assert(first_keyline_from(s@, kp@, i as int) == Some(i as int));
            let vstart = i + klen;
            let mut j: usize = vstart;
            while j < n && s.get_char(j) != '\n'
                invariant
                    n == s@.len(),
                    vstart <= j <= n,
                    eol_from(s@, vstart as int) == eol_from(s@, j as int),
                decreases n - j,
            {
                j += 1;
            }
            assert(eol_from(s@, j as int) == j as int);
            let v = s.substring_char(vstart, j);
            return Some(String::from_str(v));
        }
        assert(!keyline_at(s@, kp@, i as int));
        assert(first_keyline_from(s@, kp@, i as int) == first_keyline_from(s@, kp@, i + 1));
        i += 1;
    }
    assert(first_keyline_from(s@, kp@, i as int) is None);
    None
}

/// `s` with every occurrence of `from` replaced by `to`, scanning left to
/// right over non-overlapping occurrences; when `from` is empty the text is
/// returned unchanged.
pub open spec fn replaced(s: Seq<char>, from: Seq<char>, to: Seq<char>) -> Seq<char>
    decreases s.len(),
{
    if from.len() == 0 || s.len() == 0 {
        s
    } else if matches_at(s, from, 0) {
        to + replaced(s.skip(from.len() as int), from, to)
    } else {
        seq![s[0]] + replaced(s.skip(1), from, to)
    }
}

/// `s` with every occurrence of `from` replaced by `to`.
pub fn replace_all(s: &str, from: &str, to: &str) -> (r: String)
    ensures
        r@ == replaced(s@, from@, to@),
{
    let n = s.unicode_len();
    let flen = from.unicode_len();
    if flen == 0 {
        let r = String::from_str(s);
        return r;
    }
    let mut res = String::new();
    let mut i: usize = 0;
    assert(s@.skip(0) =~= s@);
    assert(res@ + replaced(s@, from@, to@) =~= replaced(s@, from@, to@));
    while i < n
        invariant
            n == s@.len(),
            flen == from@.len(),
            flen > 0,
            i <= n,
            replaced(s@, from@, to@) == res@ + replaced(s@.skip(i as int), from@, to@),
        decreases n - i,
    {
        let ghost tail = s@.skip(i as int);
        proof {
            lemma_matches_at_skip(s@, from@, i as int);
        }
        if starts_with_at(s, from, i) {
            assert(matches_at(tail, from@, 0));
            assert(tail.skip(flen as int) =~= s@.skip(i + flen as int));
            assert(replaced(tail, from@, to@) == to@ + replaced(
                s@.skip(i + flen as int),
                from@,
                to@,
            ));
            res.append(to);
            i += flen;
        } else {
            assert(tail.skip(1) =~= s@.skip(i + 1));
            assert(tail[0] == s@[i as int]);
            assert(replaced(tail, from@, to@) == seq![s@[i as int]] + replaced(
                s@.skip(i + 1),
                from@,
                to@,
            ));
            let c = s.substring_char(i, i + 1);
            assert(c@ =~= seq![s@[i as int]]);
            res.append(c);
            i += 1;
        }
    }
    assert(s@.skip(n as int).len() == 0);
    assert(res@ + s@.skip(n as int) =~= res@);
    res
}

/// The whitespace the library strips from field values: space, tab, carriage
/// return and newline.
pub open spec fn is_wspace(c: char) -> bool {
    c == ' ' || c == '\t' || c == '\r' || c == '\n'
}

/// `s` without its leading whitespace.
pub open spec fn trim_front(s: Seq<char>) -> Seq<char>
    decreases s.len(),
{
    if s.len() > 0 && is_wspace(s[0]) {
        trim_front(s.skip(1))
    } else {
        s
    }
}

/// `s` without its trailing whitespace.
pub open spec fn trim_back(s: Seq<char>) -> Seq<char>
    decreases s.len(),
{
    if s.len() > 0 && is_wspace(s[s.len() - 1]) {
        trim_back(s.take(s.len() - 1))
    } else {
        s
    }
}

/// `s` without leading and trailing whitespace.
pub open spec fn trimmed(s: Seq<char>) -> Seq<char> {
    trim_back(trim_front(s))
}

/// True when `c` is whitespace the library strips.
pub fn wspace(c: char) -> (r: bool)
    ensures
        r == is_wspace(c),
{
    c == ' ' || c == '\t' || c == '\r' || c == '\n'
}

/// `s` without leading and trailing whitespace.
pub fn trim(s: &str) -> (r: String)
    ensures
        r@ == trimmed(s@),
{
    let n = s.unicode_len();
    let mut a: usize = 0;
    assert(s@.skip(0) =~= s@);
    while a < n && wspace(s.get_char(a))
        invariant
            n == s@.len(),
            a <= n,
            trim_front(s@) == trim_front(s@.skip(a as int)),
        decreases n - a,
    {
        assert(s@.skip(a as int)[0] == s@[a as int]);
        assert(s@.skip(a as int).skip(1) =~= s@.skip(a + 1));
        a += 1;
    }
    assert(trim_front(s@) =~= s@.skip(a as int)) by {
        if a < n {
            assert(s@.skip(a as int)[0] == s@[a as int]);
        }
    }
    let ghost t = s@.skip(a as int);
    let mut b: usize = n;
    while b > a && wspace(s.get_char(b - 1))
        invariant
            n == s@.len(),
            a <= b <= n,
            t == s@.skip(a as int),
            trim_back(t) == trim_back(s@.subrange(a as int, b as int)),
        decreases b,
    {
        assert(s@.subrange(a as int, b as int).len() == b - a);
        assert(s@.subrange(a as int, b as int)[b - a - 1] == s@[b - 1]);
        assert(s@.subrange(a as int, b as int).take(b - a - 1) =~= s@.subrange(
            a as int,
            b - 1,
        ));
        b -= 1;
    }
    assert(trim_back(t) =~= s@.subrange(a as int, b as int)) by {
        if b > a {
            assert(s@.subrange(a as int, b as int)[b - a - 1] == s@[b - 1]);
        }
    }
    let r = s.substring_char(a, b);
    String::from_str(r)
}

/// The given parts joined by single semicolons: empty for no parts, the part
/// itself for one.
pub open spec fn join_semi(parts: Seq<Seq<char>>) -> Seq<char>
    decreases parts.len(),
{
    if parts.len() == 0 {
        Seq::empty()
    } else if parts.len() == 1 {
        parts[0]
    } else {
        parts[0] + seq![';'] + join_semi(parts.skip(1))
    }
}

/// The views of the strings in `v`.
pub open spec fn views_of(v: Seq<String>) -> Seq<Seq<char>> {
    v.map_values(|s: String| s@)
}

/// The given strings joined by single semicolons.
pub fn join_with_semicolons(parts: &Vec<String>) -> (r: String)
    ensures
        r@ == join_semi(views_of(parts@)),
{
    let mut res = String::new();
    let n = parts.len();
    if n == 0 {
        assert(res@ =~= join_semi(views_of(parts@)));
        return res;
    }
    let mut i: usize = 0;
    assert(views_of(parts@).skip(0) =~= views_of(parts@));
    assert(res@ + join_semi(views_of(parts@)) =~= join_semi(views_of(parts@)));
    while i < n - 1
        invariant
            n == parts@.len(),
            n >= 1,
            i <= n - 1,
            join_semi(views_of(parts@)) == res@ + join_semi(views_of(parts@).skip(i as int)),
        decreases n - i,
    {
        let ghost before = views_of(parts@).skip(i as int);
        assert(before.len() == n - i);
        assert(before[0] == parts@[i as int]@);
        assert(before.skip(1) =~= views_of(parts@).skip(i + 1));
        assert(join_semi(before) == before[0] + seq![';'] + join_semi(before.skip(1)));
        res.append(parts[i].as_str());
        res.append(";");
        proof {
            reveal_strlit(";");
            assert(";"@ =~= seq![';']);
        }
        i += 1;
    }
    let ghost last = views_of(parts@).skip(i as int);
    assert(last.len() == 1);
    assert(last[0] == parts@[i as int]@);
    assert(join_semi(last) == last[0]);
    res.append(parts[i].as_str());
    res
}

} // verus!
