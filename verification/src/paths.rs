//! Relative and absolute paths as `/`-separated text.

use vstd::prelude::*;
use vstd::string::*;

use crate::text::push_char;

verus! {

/// `rest` appended to `base` as a path: an absolute `rest` replaces the
/// base, an empty base gives `rest`, and otherwise the two are separated
/// by exactly the one slash the base does not already end with.
pub open spec fn path_join(base: Seq<char>, rest: Seq<char>) -> Seq<char> {
    if rest.len() > 0 && rest[0] == '/' {
        rest
    } else if base.len() == 0 {
        rest
    } else if base.last() == '/' {
        base + rest
    } else {
        base + "/"@ + rest
    }
}

/// Appends `rest` to `base` as a path; see [`path_join`].
pub fn join_path(base: &str, rest: &str) -> (res: String)
    ensures
        res@ == path_join(base@, rest@),
{
    let n = base.unicode_len();
    let m = rest.unicode_len();
    if m > 0 && rest.get_char(0) == '/' {
        return String::from_str(rest);
    }
    if n == 0 {
        return String::from_str(rest);
    }
    let mut res = String::from_str(base);
    if base.get_char(n - 1) != '/' {
        push_char(&mut res, '/');
        proof {
            assert(seq!['/'] =~= "/"@) by {
                reveal_strlit("/");
            }
        }
    }
    res.append(rest);
    res
}

} // verus!
