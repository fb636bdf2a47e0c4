//! Continuation links: the `Link` response header, of which the target whose
//! relation is `next` names the following page.

use vstd::prelude::*;
use crate::text::{opt_view, push_char, same_text};

verus! {

/// The pieces of `s` between occurrences of `c`; always at least one.
pub open spec fn split_on(s: Seq<char>, c: char) -> Seq<Seq<char>>
    decreases s.len(),
{
    if s.len() == 0 {
        seq![Seq::empty()]
    } else {
        let prev = split_on(s.drop_last(), c);
        if s.last() == c {
            prev.push(Seq::empty())
        } else {
            prev.update(prev.len() - 1, prev.last().push(s.last()))
        }
    }
}

pub proof fn lemma_split_on_nonempty(s: Seq<char>, c: char)
    ensures
        split_on(s, c).len() >= 1,
    decreases s.len(),
{
    if s.len() > 0 {
        lemma_split_on_nonempty(s.drop_last(), c);
    }
}

/// The views of a sequence of strings.
pub open spec fn views(v: Seq<String>) -> Seq<Seq<char>> {
    v.map_values(|x: String| x@)
}

/// Splits `s` at every occurrence of `c`.
pub fn split_on_char(s: &str, c: char) -> (r: Vec<String>)
    ensures
        views(r@) == split_on(s@, c),
{
    let n = s.unicode_len();
    let mut parts: Vec<String> = Vec::new();
    let mut cur = String::new();
    let mut i: usize = 0;
    assert(views(parts@).push(cur@) =~= split_on(s@.subrange(0, 0), c));
    while i < n
        invariant
            n == s@.len(),
            i <= n,
            views(parts@).push(cur@) == split_on(s@.subrange(0, i as int), c),
        decreases n - i,
    {
        let ch = s.get_char(i);
        let ghost before = split_on(s@.subrange(0, i as int), c);
        proof {
            assert(s@.subrange(0, i + 1).drop_last() =~= s@.subrange(0, i as int));
            assert(s@.subrange(0, i + 1).last() == ch);
            lemma_split_on_nonempty(s@.subrange(0, i as int), c);
        }
        if ch == c {
            let ghost old_parts = parts@;
            parts.push(cur);
            cur = String::new();
            assert(views(parts@) =~= views(old_parts).push(before.last()));
            assert(views(parts@).push(cur@) =~= split_on(s@.subrange(0, i + 1), c));
        } else {
            push_char(&mut cur, ch);
            assert(views(parts@).push(cur@) =~= split_on(s@.subrange(0, i + 1), c));
        }
        i = i + 1;
    }
    let ghost old_parts = parts@;
    parts.push(cur);
    assert(s@.subrange(0, n as int) =~= s@);
    assert(views(parts@) =~= views(old_parts).push(cur@));
    parts
}

/// A space or a tab.
pub open spec fn is_blank(c: char) -> bool {
    c == ' ' || c == '\t'
}

/// `s` without its leading blanks.
pub open spec fn trim_front(s: Seq<char>) -> Seq<char>
    decreases s.len(),
{
    if s.len() > 0 && is_blank(s[0]) {
        trim_front(s.drop_first())
    } else {
        s
    }
}

/// `s` without its trailing blanks.
pub open spec fn trim_back(s: Seq<char>) -> Seq<char>
    decreases s.len(),
{
    if s.len() > 0 && is_blank(s.last()) {
        trim_back(s.drop_last())
    } else {
        s
    }
}

/// `s` without blanks at either end.
pub open spec fn trimmed(s: Seq<char>) -> Seq<char> {
    trim_back(trim_front(s))
}

/// Removes the blanks at either end of `s`.
pub fn trim_blanks(s: &str) -> (r: &str)
    ensures
        r@ == trimmed(s@),
{
    let n = s.unicode_len();
    let mut a: usize = 0;
    assert(s@.subrange(0, n as int) =~= s@);
    while a < n && (s.get_char(a) == ' ' || s.get_char(a) == '\t')
        invariant
            n == s@.len(),
            a <= n,
            trim_front(s@.subrange(a as int, n as int)) == trim_front(s@),
        decreases n - a,
    {
        assert(s@.subrange(a as int, n as int).drop_first() =~= s@.subrange(a + 1, n as int));
        a = a + 1;
    }
    let mut b: usize = n;
    while b > a && (s.get_char(b - 1) == ' ' || s.get_char(b - 1) == '\t')
        invariant
            n == s@.len(),
            a <= b <= n,
            trim_front(s@) == s@.subrange(a as int, n as int),
            trim_back(s@.subrange(a as int, b as int)) == trimmed(s@),
        decreases b - a,
    {
        assert(s@.subrange(a as int, b as int).drop_last() =~= s@.subrange(a as int, b - 1));
        b = b - 1;
    }
    s.substring_char(a, b)
}

/// The target of one link-value: its first `;`-separated part, which must be
/// written `<...>`.
pub open spec fn link_target(seg: Seq<char>) -> Option<Seq<char>> {
    let head = trimmed(split_on(seg, ';')[0]);
    if head.len() >= 2 && head[0] == '<' && head.last() == '>' {
        Some(head.subrange(1, head.len() - 1))
    } else {
        None
    }
}

/// A link parameter that gives the relation `next`.
pub open spec fn is_rel_next(p: Seq<char>) -> bool {
    p == "rel=\"next\""@ || p == "rel=next"@
}

/// One of the parameters of a link-value gives the relation `next`.
pub open spec fn names_next(seg: Seq<char>) -> bool {
    let ps = split_on(seg, ';');
    exists|j: int| 1 <= j < ps.len() && is_rel_next(trimmed(#[trigger] ps[j]))
}

/// The target of the first of `segs` that is a link with relation `next`.
pub open spec fn first_next(segs: Seq<Seq<char>>) -> Option<Seq<char>>
    decreases segs.len(),
{
    if segs.len() == 0 {
        None
    } else if link_target(segs[0]) is Some && names_next(segs[0]) {
        link_target(segs[0])
    } else {
        first_next(segs.drop_first())
    }
}

/// The continuation named by a `Link` header: the target of its first
/// comma-separated link-value whose relation is `next`.
pub open spec fn next_link_of(header: Seq<char>) -> Option<Seq<char>> {
    first_next(split_on(header, ','))
}

fn segment_target(seg: &str) -> (r: Option<String>)
    ensures
        opt_view(r) == link_target(seg@),
{
    let parts = split_on_char(seg, ';');
    proof {
        lemma_split_on_nonempty(seg@, ';');
    }
    assert(parts@[0]@ == views(parts@)[0]);
    let head = trim_blanks(parts[0].as_str());
    let len = head.unicode_len();
    if len >= 2 && head.get_char(0) == '<' && head.get_char(len - 1) == '>' {
        Some(String::from_str(head.substring_char(1, len - 1)))
    } else {
        None
    }
}

fn segment_names_next(seg: &str) -> (r: bool)
    ensures
        r == names_next(seg@),
{
    let parts = split_on_char(seg, ';');
    let ghost ps = split_on(seg@, ';');
    let mut j: usize = 1;
    while j < parts.len()
        invariant
            views(parts@) == ps,
            ps == split_on(seg@, ';'),
            1 <= j,
            forall|k: int| 1 <= k < j && k < ps.len() ==> !is_rel_next(trimmed(#[trigger] ps[k])),
        decreases parts.len() - j,
    {
        assert(parts@[j as int]@ == ps[j as int]);
        let p = trim_blanks(parts[j].as_str());
        if same_text(p, "rel=\"next\"") || same_text(p, "rel=next") {
            assert(is_rel_next(trimmed(ps[j as int])));
            return true;
        }
        j = j + 1;
    }
    false
}

/// The target of the first link with relation `next` in a `Link` header.
pub fn next_link(header: &str) -> (r: Option<String>)
    ensures
        opt_view(r) == next_link_of(header@),
{
    let segs = split_on_char(header, ',');
    let ghost all = split_on(header@, ',');
    let mut i: usize = 0;
    assert(all.subrange(0, all.len() as int) =~= all);
    while i < segs.len()
        invariant
            views(segs@) == all,
            all == split_on(header@, ','),
            i <= segs.len(),
            first_next(all.subrange(i as int, all.len() as int)) == next_link_of(header@),
        decreases segs.len() - i,
    {
        let ghost rest = all.subrange(i as int, all.len() as int);
        assert(segs@[i as int]@ == all[i as int]);
        assert(rest[0] == all[i as int]);
        assert(rest.drop_first() =~= all.subrange(i + 1, all.len() as int));
        let t = segment_target(segs[i].as_str());
        if t.is_some() && segment_names_next(segs[i].as_str()) {
            return t;
        }
        i = i + 1;
    }
    None
}

} // verus!
