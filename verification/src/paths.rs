//! Windows-style path text: joining a directory and a file name, and taking
//! the directory part of a path.

use vstd::prelude::*;
use vstd::string::StrSliceExecFns;
use vstd::string::StringExecFns;

verus! {

pub open spec fn is_sep(c: char) -> bool {
    c == '\\' || c == '/'
}

pub open spec fn has_sep(s: Seq<char>) -> bool {
    exists|i: int| 0 <= i < s.len() && is_sep(s[i])
}

/// The directory part of a path: everything before the last separator.
pub open spec fn parent_seq(s: Seq<char>) -> Seq<char>
    decreases s.len(),
{
    if s.len() == 0 {
        s
    } else if is_sep(s.last()) {
        s.drop_last()
    } else {
        parent_seq(s.drop_last())
    }
}

/// `dir` and `name` joined with a backslash.
pub open spec fn join_seq(dir: Seq<char>, name: Seq<char>) -> Seq<char> {
    dir + seq!['\\'] + name
}

pub proof fn lemma_parent_at_last_sep(s: Seq<char>, i: int)
    requires
        0 <= i < s.len(),
        is_sep(s[i]),
        forall|j: int| i < j < s.len() ==> !is_sep(s[j]),
    ensures
        has_sep(s),
        parent_seq(s) == s.take(i),
    decreases s.len(),
{
    if i == s.len() - 1 {
        assert(parent_seq(s) == s.drop_last());
        assert(s.drop_last() =~= s.take(i));
    } else {
        assert(!is_sep(s.last()));
        lemma_parent_at_last_sep(s.drop_last(), i);
        assert(s.drop_last().take(i) =~= s.take(i));
    }
}

/// A joined path always has a separator, and taking its directory part
/// gives back the directory, whenever the file name holds no separator.
pub proof fn lemma_parent_of_join(dir: Seq<char>, name: Seq<char>)
    requires
        !has_sep(name),
    ensures
        has_sep(join_seq(dir, name)),
        parent_seq(join_seq(dir, name)) == dir,
{
    let joined = join_seq(dir, name);
    assert(joined[dir.len() as int] == '\\');
    assert forall|j: int| dir.len() < j < joined.len() implies !is_sep(joined[j]) by {
        assert(joined[j] == name[j - dir.len() - 1]);
    }
    lemma_parent_at_last_sep(joined, dir.len() as int);
    assert(joined.take(dir.len() as int) =~= dir);
}

/// Joins a directory and a file name with a backslash.
pub fn join(dir: &str, name: &str) -> (r: String)
    ensures
        r@ == join_seq(dir@, name@),
{
    proof {
        reveal_strlit("\\");
    }
    let mut out = String::from_str(dir);
    out.append("\\");
    out.append(name);
    proof {
        assert(("\\")@ =~= seq!['\\']);
        assert(out@ =~= join_seq(dir@, name@));
    }
    out
}

/// The directory part of a path, when the path has one.
pub fn parent_of(path: &str) -> (r: Option<String>)
    ensures
        r is Some <==> has_sep(path@),
        r matches Some(p) ==> p@ == parent_seq(path@),
{
    let len: usize = path.unicode_len();
    let mut i: usize = len;
    while i > 0
        invariant
            i <= len,
            len == path@.len(),
            forall|j: int| i <= j < len ==> !is_sep(path@[j]),
        decreases i,
    {
        let c = path.get_char(i - 1);
        if c == '\\' || c == '/' {
            proof {
                lemma_parent_at_last_sep(path@, i - 1);
            }
            let p = path.substring_char(0, i - 1);
            proof {
                assert(p@ =~= path@.take(i - 1));
            }
            return Some(String::from_str(p));
        }
        i = i - 1;
    }
    None
}

} // verus!
