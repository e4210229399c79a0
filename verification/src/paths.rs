//! Which file paths count as openable message files.
//!
//! The backend recognizes exactly two file extensions, `msg` and `eml`,
//! matched case-insensitively. A path is recognized when its file name ends
//! in a dot followed by one of the two extensions, and the dot is not the
//! first character of the file name (a file named `.msg` has no extension).
//! Both `/` and `\` are treated as path separators.

use vstd::prelude::*;

verus! {

/// A character that separates path components.
pub open spec fn is_separator(c: char) -> bool {
    c == '/' || c == '\\'
}

/// The three characters of an extension spell `msg`, in any letter case.
pub open spec fn is_msg_ext(e: Seq<char>) -> bool {
    &&& e.len() == 3
    &&& (e[0] == 'm' || e[0] == 'M')
    &&& (e[1] == 's' || e[1] == 'S')
    &&& (e[2] == 'g' || e[2] == 'G')
}

/// The three characters of an extension spell `eml`, in any letter case.
pub open spec fn is_eml_ext(e: Seq<char>) -> bool {
    &&& e.len() == 3
    &&& (e[0] == 'e' || e[0] == 'E')
    &&& (e[1] == 'm' || e[1] == 'M')
    &&& (e[2] == 'l' || e[2] == 'L')
}

/// The extension is one of the two recognized ones, in any letter case.
pub open spec fn is_recognized_ext(e: Seq<char>) -> bool {
    is_msg_ext(e) || is_eml_ext(e)
}

/// The path names a file with a recognized extension: it ends in `.` followed
/// by three extension characters, and the character before the dot belongs to
/// the file name (so a bare `.msg` or `dir/.eml` is not recognized).
pub open spec fn recognized_path(p: Seq<char>) -> bool {
    &&& p.len() >= 5
    &&& p[p.len() - 4] == '.'
    &&& !is_separator(p[p.len() - 5])
    &&& is_recognized_ext(p.subrange(p.len() - 3, p.len() as int))
}

/// An ASCII uppercase letter.
pub open spec fn is_ascii_upper(c: char) -> bool {
    'A' as int <= c as int <= 'Z' as int
}

/// An ASCII lowercase letter.
pub open spec fn is_ascii_lower(c: char) -> bool {
    'a' as int <= c as int <= 'z' as int
}

/// The two characters are the same up to ASCII letter case: equal outright,
/// or the upper- and lowercase form of one ASCII letter.
pub open spec fn same_ignoring_ascii_case(a: char, b: char) -> bool {
    ||| a == b
    ||| (is_ascii_upper(a) && is_ascii_lower(b) && a as int + 32 == b as int)
    ||| (is_ascii_lower(a) && is_ascii_upper(b) && b as int + 32 == a as int)
}

/// Law: path recognition is case-insensitive. Two paths whose characters
/// agree up to ASCII letter case are accepted or rejected together.
pub proof fn lemma_recognition_case_insensitive(p: Seq<char>, q: Seq<char>)
    requires
        p.len() == q.len(),
        forall|i: int| 0 <= i < p.len() ==> same_ignoring_ascii_case(p[i], q[i]),
    ensures
        recognized_path(p) == recognized_path(q),
{
    if p.len() >= 5 {
        let n = p.len() as int;
        assert(same_ignoring_ascii_case(p[n - 4], q[n - 4]));
        assert(same_ignoring_ascii_case(p[n - 5], q[n - 5]));
        let pe = p.subrange(n - 3, n);
        let qe = q.subrange(n - 3, n);
        assert forall|j: int| 0 <= j < 3 implies same_ignoring_ascii_case(pe[j], qe[j]) by {
            assert(pe[j] == p[n - 3 + j]);
            assert(qe[j] == q[n - 3 + j]);
        }
        assert(same_ignoring_ascii_case(pe[0], qe[0]));
        assert(same_ignoring_ascii_case(pe[1], qe[1]));
        assert(same_ignoring_ascii_case(pe[2], qe[2]));
    }
}

/// Decides whether a path names an openable message file.
pub fn is_recognized_path(path: &str) -> (r: bool)
    ensures
        r == recognized_path(path@),
{
    let n = path.unicode_len();
    if n < 5 {
        return false;
    }
    if path.get_char(n - 4) != '.' {
        return false;
    }
    let before = path.get_char(n - 5);
    if before == '/' || before == '\\' {
        return false;
    }
    let c0 = path.get_char(n - 3);
    let c1 = path.get_char(n - 2);
    let c2 = path.get_char(n - 1);
    proof {
        let e = path@.subrange(n - 3, n as int);
        assert(e[0] == path@[n - 3]);
        assert(e[1] == path@[n - 2]);
        assert(e[2] == path@[n - 1]);
    }
    ((c0 == 'm' || c0 == 'M') && (c1 == 's' || c1 == 'S') && (c2 == 'g' || c2 == 'G')) || (
    (c0 == 'e' || c0 == 'E') && (c1 == 'm' || c1 == 'M') && (c2 == 'l' || c2 == 'L'))
}

} // verus!
