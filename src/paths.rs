use vstd::prelude::*;
use vstd::string::*;

verus! {

/// The path that names `rel` inside `dir`: a separator is put between the two
/// unless `dir` is empty or already ends with one.
pub open spec fn join_spec(dir: Seq<char>, rel: Seq<char>) -> Seq<char> {
    if dir.len() == 0 {
        rel
    } else if dir.last() == '/' {
        dir + rel
    } else {
        dir + seq!['/'] + rel
    }
}

/// Joins a relative path onto a directory path.
pub fn join(dir: &str, rel: &str) -> (r: String)
    ensures
        r@ == join_spec(dir@, rel@),
{
    let n = dir.unicode_len();
    if n == 0 {
        return rel.to_owned();
    }
    let mut r = dir.to_owned();
    if dir.get_char(n - 1) != '/' {
        r.append("/");
        proof { reveal_strlit("/"); }
    }
    r.append(rel);
    proof {
        if dir@.last() != '/' {
            assert(r@ =~= dir@ + seq!['/'] + rel@);
        }
    }
    r
}

} // verus!
