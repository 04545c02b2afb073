//! Lines of a program's output.
use vstd::prelude::*;

verus! {

/// Splits `s` at each `'\n'`: `n` newlines give `n + 1` segments.
pub open spec fn segments(s: Seq<char>) -> Seq<Seq<char>>
    decreases s.len(),
{
    if s.len() == 0 {
        seq![Seq::empty()]
    } else {
        let p = segments(s.drop_last());
        if s.last() == '\n' {
            p.push(Seq::empty())
        } else {
            p.update(p.len() - 1, p.last().push(s.last()))
        }
    }
}

/// A line that ended in `"\r\n"` loses its `'\r'`.
pub open spec fn strip_cr(line: Seq<char>) -> Seq<char> {
    if line.len() > 0 && line.last() == '\r' {
        line.drop_last()
    } else {
        line
    }
}

/// The lines of `s`: the text between line endings (`"\n"` or `"\r\n"`);
/// the text after the last line ending is a line when it is not empty.
pub open spec fn lines_of(s: Seq<char>) -> Seq<Seq<char>> {
    let p = segments(s);
    let done = p.drop_last().map_values(|l: Seq<char>| strip_cr(l));
    if p.last().len() == 0 {
        done
    } else {
        done.push(p.last())
    }
}

pub open spec fn is_space(c: char) -> bool {
    c == ' ' || c == '\t' || c == '\n' || c == '\x0C' || c == '\r'
}

/// A line holding nothing but ASCII white space.
pub open spec fn is_blank(line: Seq<char>) -> bool {
    forall|i: int| 0 <= i < line.len() ==> is_space(#[trigger] line[i])
}

/// The last line that is not blank.
pub open spec fn last_nonblank(lines: Seq<Seq<char>>) -> Option<Seq<char>>
    decreases lines.len(),
{
    if lines.len() == 0 {
        None
    } else if !is_blank(lines.last()) {
        Some(lines.last())
    } else {
        last_nonblank(lines.drop_last())
    }
}

proof fn lemma_segments_nonempty(s: Seq<char>)
    ensures
        segments(s).len() >= 1,
    decreases s.len(),
{
    if s.len() > 0 {
        lemma_segments_nonempty(s.drop_last());
    }
}

/// Relies on `String::push`: appends one character.
#[verifier::external_body]
fn push_char(s: &mut String, c: char)
    ensures
        final(s)@ == old(s)@.push(c),
{
    s.push(c)
}

/// The characters of `s`, one by one.
pub fn chars_of(s: &str) -> (r: Vec<char>)
    ensures
        r@ == s@,
{
    let mut v: Vec<char> = Vec::new();
    for c in it: s.chars()
        invariant
            v@ == it.seq().take(it.index() as int),
    {
        v.push(c);
    }
    v
}


/// The lines of `s`, as `lines_of` describes them.
pub fn split_lines(s: &str) -> (r: Vec<String>)
    ensures
        r.deep_view() == lines_of(s@),
{
    let cs = chars_of(s);
    let mut lines: Vec<String> = Vec::new();
    let mut cur = String::new();
    let mut cr = false;
    let mut i: usize = 0;
    while i < cs.len()
        invariant
            i <= cs.len(),
            cs@ == s@,
            lines.deep_view() == segments(s@.take(i as int)).drop_last().map_values(
                |l: Seq<char>| strip_cr(l),
            ),
            segments(s@.take(i as int)).last() == (if cr {
                cur@.push('\r')
            } else {
                cur@
            }),
            !cr ==> cur@.len() == 0 || cur@.last() != '\r',
        decreases cs.len() - i,
    {
        let c = cs[i];
        let ghost pre = s@.take(i as int);
        proof {
            lemma_segments_nonempty(pre);
            assert(s@.take(i + 1).drop_last() == pre);
        }
        if c == '\n' {
            let ghost done = lines.deep_view();
            proof {
                if cr {
                    assert(cur@.push('\r').drop_last() =~= cur@);
                }
                assert(strip_cr(segments(pre).last()) == cur@);
            }
            lines.push(cur);
            proof {
                assert(lines.deep_view() =~= done.push(strip_cr(segments(pre).last())));
                assert(segments(pre).drop_last().map_values(|l: Seq<char>| strip_cr(l)).push(
                    strip_cr(segments(pre).last()),
                ) =~= segments(pre).map_values(|l: Seq<char>| strip_cr(l)));
                assert(segments(s@.take(i + 1)).drop_last() == segments(pre));
            }
            cur = String::new();
            cr = false;
        } else {
            if cr {
                push_char(&mut cur, '\r');
            }
            if c == '\r' {
                cr = true;
            } else {
                push_char(&mut cur, c);
                cr = false;
            }
            proof {
                assert(segments(s@.take(i + 1)).drop_last() == segments(pre).drop_last());
            }
        }
        i = i + 1;
    }
    if cr {
        push_char(&mut cur, '\r');
    }
    proof {
        assert(s@.take(cs.len() as int) == s@);
        lemma_segments_nonempty(s@);
    }
    if cur.unicode_len() > 0 {
        let ghost done = lines.deep_view();
        lines.push(cur);
        proof {
            assert(lines.deep_view() =~= done.push(segments(s@).last()));
        }
    }
    lines
}


/// Whether `line` holds nothing but ASCII white space.
pub fn blank(line: &str) -> (r: bool)
    ensures
        r == is_blank(line@),
{
    let cs = chars_of(line);
    let mut i: usize = 0;
    while i < cs.len()
        invariant
            i <= cs.len(),
            cs@ == line@,
            forall|k: int| 0 <= k < i ==> is_space(#[trigger] line@[k]),
        decreases cs.len() - i,
    {
        let c = cs[i];
        if !(c == ' ' || c == '\t' || c == '\n' || c == '\x0C' || c == '\r') {
            return false;
        }
        i = i + 1;
    }
    true
}

/// The last line of `s` that is not blank, if any.
pub fn last_nonblank_line(s: &str) -> (r: Option<String>)
    ensures
        r.deep_view() == last_nonblank(lines_of(s@)),
{
    let lines = split_lines(s);
    let ghost all = lines.deep_view();
    let mut j: usize = lines.len();
    proof {
        assert(all.take(j as int) =~= all);
    }
    while j > 0
        invariant
            j <= lines.len(),
            all == lines.deep_view(),
            all == lines_of(s@),
            last_nonblank(all) == last_nonblank(all.take(j as int)),
        decreases j,
    {
        let ghost upto = all.take(j as int);
        proof {
            assert(upto.drop_last() =~= all.take(j - 1));
            assert(upto.last() == lines[j - 1]@);
        }
        if !blank(lines[j - 1].as_str()) {
            return Some(lines[j - 1].clone());
        }
        j = j - 1;
    }
    proof {
        assert(all.take(0) =~= Seq::<Seq<char>>::empty());
    }
    None
}


/// `s` without leading and trailing ASCII white space.
pub open spec fn trim_spec(s: Seq<char>) -> Seq<char>
    decreases s.len(),
{
    if s.len() > 0 && is_space(s[0]) {
        trim_spec(s.drop_first())
    } else if s.len() > 0 && is_space(s.last()) {
        trim_spec(s.drop_last())
    } else {
        s
    }
}

proof fn lemma_trim_range(s: Seq<char>, a: int, b: int)
    requires
        0 <= a <= b <= s.len(),
        forall|k: int| 0 <= k < a ==> is_space(#[trigger] s[k]),
        forall|k: int| b <= k < s.len() ==> is_space(#[trigger] s[k]),
        a == b || (!is_space(s[a]) && !is_space(s[b - 1])),
    ensures
        trim_spec(s) == s.subrange(a, b),
    decreases s.len(),
{
    if s.len() > 0 && is_space(s[0]) {
        let a2 = if a > 0 { a - 1 } else { 0 };
        let b2 = if b > 0 { b - 1 } else { 0 };
        lemma_trim_range(s.drop_first(), a2, b2);
        assert(s.drop_first().subrange(a2, b2) =~= s.subrange(a, b));
    } else if s.len() > 0 && is_space(s.last()) {
        let n = s.len() - 1;
        let a2 = if a > n { n } else { a };
        let b2 = if b > n { n } else { b };
        lemma_trim_range(s.drop_last(), a2, b2);
        assert(s.drop_last().subrange(a2, b2) =~= s.subrange(a, b));
    } else if s.len() > 0 {
        assert(a == 0 && b == s.len());
        assert(s.subrange(0, s.len() as int) =~= s);
    } else {
        assert(s.subrange(a, b) =~= s);
    }
}

/// `s` without leading and trailing ASCII white space.
pub fn trim(s: &str) -> (r: String)
    ensures
        r@ == trim_spec(s@),
{
    let cs = chars_of(s);
    let mut a: usize = 0;
    while a < cs.len() && (cs[a] == ' ' || cs[a] == '\t' || cs[a] == '\n' || cs[a] == '\x0C' || cs[a] == '\r')
        invariant
            a <= cs.len(),
            cs@ == s@,
            forall|k: int| 0 <= k < a ==> is_space(#[trigger] s@[k]),
        decreases cs.len() - a,
    {
        a = a + 1;
    }
    let mut b: usize = cs.len();
    while b > a && (cs[b - 1] == ' ' || cs[b - 1] == '\t' || cs[b - 1] == '\n' || cs[b - 1] == '\x0C'
        || cs[b - 1] == '\r')
        invariant
            a <= b <= cs.len(),
            cs@ == s@,
            forall|k: int| b <= k < s@.len() ==> is_space(#[trigger] s@[k]),
        decreases b,
    {
        b = b - 1;
    }
    proof {
        lemma_trim_range(s@, a as int, b as int);
    }
    String::from_str(s.substring_char(a, b))
}

} // verus!
