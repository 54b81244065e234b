//! Unix path text: joining paths the way `Path::join` does, and telling
//! absolute paths apart.
use vstd::prelude::*;

verus! {

/// `Path::is_absolute` on Unix: the path starts at the root.
pub open spec fn is_absolute(p: Seq<char>) -> bool {
    p.len() > 0 && p[0] == '/'
}

/// `Path::join` on Unix: an absolute `rhs` replaces `lhs`; otherwise `rhs` is
/// appended, with a `/` between them unless `lhs` is empty or already ends
/// in one.
pub open spec fn join(lhs: Seq<char>, rhs: Seq<char>) -> Seq<char> {
    if is_absolute(rhs) {
        rhs
    } else if lhs.len() > 0 && lhs.last() != '/' {
        lhs + seq!['/'] + rhs
    } else {
        lhs + rhs
    }
}

/// `Path::is_absolute`.
pub fn is_absolute_path(p: &str) -> (r: bool)
    ensures
        r == is_absolute(p@),
{
    p.unicode_len() > 0 && p.get_char(0) == '/'
}

/// `Path::join`, rendered as a string.
pub fn join_path(lhs: &str, rhs: &str) -> (r: String)
    ensures
        r@ == join(lhs@, rhs@),
{
    if is_absolute_path(rhs) {
        return String::from_str(rhs);
    }
    let n = lhs.unicode_len();
    let mut out = String::from_str(lhs);
    if n > 0 && lhs.get_char(n - 1) != '/' {
        proof {
            reveal_strlit("/");
        }
        out.append("/");
    }
    out.append(rhs);
    out
}

} // verus!
