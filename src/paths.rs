//! Paths are `/`-separated text.
use vstd::prelude::*;

use crate::text::chars_of;

verus! {

/// `name` placed inside `dir`: a separator is added unless `dir` is empty or
/// already ends in one.
pub open spec fn join_spec(dir: Seq<char>, name: Seq<char>) -> Seq<char> {
    if dir.len() == 0 || dir.last() == '/' {
        dir + name
    } else {
        dir + seq!['/'] + name
    }
}

/// Joins a relative `name` onto `dir`.
pub fn join_path(dir: &str, name: &str) -> (r: String)
    ensures
        r@ == join_spec(dir@, name@),
{
    let n = dir.unicode_len();
    let base = String::from_str(dir);
    if n == 0 || dir.get_char(n - 1) == '/' {
        base.concat(name)
    } else {
        let sep = "/";
        proof {
            reveal_strlit("/");
        }
        base.concat(sep).concat(name)
    }
}


/// The position of the last separator in `p`.
pub open spec fn last_slash(p: Seq<char>) -> Option<int>
    decreases p.len(),
{
    if p.len() == 0 {
        None
    } else if p.last() == '/' {
        Some(p.len() - 1)
    } else {
        last_slash(p.drop_last())
    }
}

/// The directory holding `p`: the text before its last separator (the root,
/// where that is the first character); the empty path for a bare name; none
/// for the root or the empty path.
pub open spec fn parent_spec(p: Seq<char>) -> Option<Seq<char>> {
    match last_slash(p) {
        Some(i) => if i > 0 {
            Some(p.take(i))
        } else if p.len() > 1 {
            Some(seq!['/'])
        } else {
            None
        },
        None => if p.len() == 0 {
            None
        } else {
            Some(Seq::empty())
        },
    }
}

/// `p` less its last component, or `p` itself when it has no parent.
pub open spec fn pop_spec(p: Seq<char>) -> Seq<char> {
    match parent_spec(p) {
        Some(q) => q,
        None => p,
    }
}

/// The directory holding `p`.
pub fn parent_dir(p: &str) -> (r: Option<String>)
    ensures
        r.deep_view() == parent_spec(p@),
{
    let cs = chars_of(p);
    let mut i: usize = cs.len();
    proof {
        assert(p@.take(i as int) =~= p@);
    }
    while i > 0
        invariant
            i <= cs.len(),
            cs@ == p@,
            last_slash(p@) == last_slash(p@.take(i as int)),
        decreases i,
    {
        proof {
            assert(p@.take(i as int).drop_last() =~= p@.take(i - 1));
        }
        if cs[i - 1] == '/' {
            if i > 1 {
                return Some(String::from_str(p.substring_char(0, i - 1)));
            } else if cs.len() > 1 {
                let root = "/";
                proof {
                    reveal_strlit("/");
                }
                return Some(String::from_str(root));
            } else {
                return None;
            }
        }
        i = i - 1;
    }
    proof {
        assert(p@.take(0) =~= Seq::<char>::empty());
    }
    if cs.len() == 0 {
        None
    } else {
        Some(String::new())
    }
}

/// `p` less its last component, or `p` itself when it has no parent.
pub fn pop_path(p: &str) -> (r: String)
    ensures
        r@ == pop_spec(p@),
{
    match parent_dir(p) {
        Some(q) => q,
        None => String::from_str(p),
    }
}


/// `p` without its trailing separators.
pub open spec fn trim_end_slashes(p: Seq<char>) -> Seq<char>
    decreases p.len(),
{
    if p.len() > 0 && p.last() == '/' {
        trim_end_slashes(p.drop_last())
    } else {
        p
    }
}

/// The last component of `p`: the text after its last separator, trailing
/// separators set aside; none when that is empty, `.` or `..`.
pub open spec fn base_name_spec(p: Seq<char>) -> Option<Seq<char>> {
    let t = trim_end_slashes(p);
    let n = match last_slash(t) {
        Some(i) => t.subrange(i + 1, t.len() as int),
        None => t,
    };
    if n.len() == 0 || n == "."@ || n == ".."@ {
        None
    } else {
        Some(n)
    }
}

proof fn lemma_trim_take(p: Seq<char>, end: int)
    requires
        0 <= end <= p.len(),
        forall|k: int| end <= k < p.len() ==> p[k] == '/',
    ensures
        trim_end_slashes(p) == trim_end_slashes(p.take(end)),
    decreases p.len() - end,
{
    if end < p.len() {
        assert(p.take(end + 1).drop_last() =~= p.take(end));
        lemma_trim_take(p, end + 1);
        assert(p.take(end + 1).last() == '/');
    } else {
        assert(p.take(end) =~= p);
    }
}

/// The last component of `p`.
pub fn base_name(p: &str) -> (r: Option<String>)
    ensures
        r.deep_view() == base_name_spec(p@),
{
    let cs = chars_of(p);
    let mut end: usize = cs.len();
    while end > 0 && cs[end - 1] == '/'
        invariant
            end <= cs.len(),
            cs@ == p@,
            forall|k: int| end <= k < p@.len() ==> p@[k] == '/',
        decreases end,
    {
        end = end - 1;
    }
    let ghost t = p@.take(end as int);
    proof {
        lemma_trim_take(p@, end as int);
        assert(trim_end_slashes(t) == t);
    }
    let mut start: usize = end;
    proof {
        assert(t.take(end as int) =~= t);
    }
    while start > 0 && cs[start - 1] != '/'
        invariant
            start <= end <= cs.len(),
            cs@ == p@,
            t == p@.take(end as int),
            last_slash(t) == last_slash(t.take(start as int)),
            forall|k: int| start <= k < end ==> t[k] != '/',
        decreases start,
    {
        proof {
            assert(t.take(start as int).drop_last() =~= t.take(start - 1));
        }
        start = start - 1;
    }
    proof {
        if start > 0 {
            assert(t.take(start as int).last() == '/');
        } else {
            assert(t.take(0) =~= Seq::<char>::empty());
        }
    }
    let name = String::from_str(p.substring_char(start, end));
    proof {
        assert(name@ =~= (match last_slash(t) {
            Some(i) => t.subrange(i + 1, t.len() as int),
            None => t,
        }));
    }
    if name.unicode_len() == 0 || name == String::from_str(".") || name == String::from_str("..") {
        None
    } else {
        Some(name)
    }
}

} // verus!
