//! Path text helpers: the parent directory of a `/`-separated path.
use vstd::prelude::*;

verus! {

/// The path with its trailing separators removed; a lone root `/` is kept.
pub open spec fn trim_trailing_separators(s: Seq<char>) -> Seq<char>
    decreases s.len(),
{
    if s.len() > 1 && s.last() == '/' {
        trim_trailing_separators(s.drop_last())
    } else {
        s
    }
}

/// The index of the last separator in `s`, or -1 where there is none.
pub open spec fn last_separator(s: Seq<char>) -> int
    decreases s.len(),
{
    if s.len() == 0 {
        -1
    } else if s.last() == '/' {
        s.len() - 1
    } else {
        last_separator(s.drop_last())
    }
}

/// The parent directory of a path: everything before its last segment,
/// without trailing separators. A path of a single segment, the root
/// itself and the empty path have no parent.
pub open spec fn parent_of(p: Seq<char>) -> Option<Seq<char>> {
    let t = trim_trailing_separators(p);
    let i = last_separator(t);
    if i < 0 || t.len() <= 1 {
        None
    } else if i == 0 {
        Some(seq!['/'])
    } else {
        Some(trim_trailing_separators(t.subrange(0, i)))
    }
}

/// The number of characters of `s` that remain once its trailing
/// separators are removed (a lone root `/` is kept).
fn trimmed_len(s: &str, len: usize) -> (end: usize)
    requires
        len == s@.len(),
    ensures
        end <= len,
        s@.subrange(0, end as int) == trim_trailing_separators(s@),
{
    let mut end: usize = len;
    assert(s@.subrange(0, end as int) =~= s@);
    while end > 1 && s.get_char(end - 1) == '/'
        invariant
            end <= len,
            len == s@.len(),
            trim_trailing_separators(s@.subrange(0, end as int)) == trim_trailing_separators(s@),
        decreases end,
    {
        assert(s@.subrange(0, end as int).drop_last() =~= s@.subrange(0, end - 1));
        end = end - 1;
    }
    end
}

/// The parent directory of `p`, or `None` where `p` has no parent segment.
pub fn parent_directory(p: &str) -> (r: Option<String>)
    ensures
        r is Some <==> parent_of(p@) is Some,
        r is Some ==> r->0@ == parent_of(p@)->0,
{
    let len = p.unicode_len();
    let end = trimmed_len(p, len);
    let ghost t = trim_trailing_separators(p@);
    let mut i: usize = end;
    assert(p@.subrange(0, i as int) == t);
    while i > 0 && p.get_char(i - 1) != '/'
        invariant
            i <= end <= len,
            len == p@.len(),
            t == p@.subrange(0, end as int),
            last_separator(p@.subrange(0, i as int)) == last_separator(t),
        decreases i,
    {
        assert(p@.subrange(0, i as int).drop_last() =~= p@.subrange(0, i - 1));
        i = i - 1;
    }
    assert(i == 0 ==> p@.subrange(0, i as int).len() == 0);
    assert(last_separator(t) == i - 1);
    if i == 0 || end <= 1 {
        None
    } else if i == 1 {
        proof {
            reveal_strlit("/");
        }
        let root = String::from_str("/");
        assert(root@ =~= seq!['/']);
        Some(root)
    } else {
        let head = p.substring_char(0, i - 1);
        assert(head@ == t.subrange(0, i - 1));
        let head_len = trimmed_len(head, i - 1);
        Some(String::from_str(head.substring_char(0, head_len)))
    }
}

} // verus!
