//! Character-level helpers shared by the request parser and the line framing.
use vstd::prelude::*;

verus! {

/// Relies on `String::push`: the character is appended at the end.
#[verifier::external_body]
pub(crate) fn push_char(s: &mut String, c: char)
    ensures
        final(s)@ == old(s)@.push(c),
{
    s.push(c)
}

/// The characters of `s`, in order.
pub fn chars_of(s: &str) -> (r: Vec<char>)
    ensures
        r@ == s@,
{
    let mut r: Vec<char> = Vec::new();
    for c in it: s.chars()
        invariant
            it.seq() == s@,
            r@ == it.seq().take(it.index() as int),
    {
        r.push(c);
    }
    r
}

/// A `String` holding exactly `cs`.
pub fn string_of(cs: &Vec<char>) -> (r: String)
    ensures
        r@ == cs@,
{
    let mut r = String::new();
    let mut i: usize = 0;
    while i < cs.len()
        invariant
            i <= cs.len(),
            r@ == cs@.take(i as int),
        decreases cs.len() - i,
    {
        push_char(&mut r, cs[i]);
        assert(cs@.take(i + 1) == cs@.take(i as int).push(cs@[i as int]));
        i += 1;
    }
    assert(cs@.take(cs.len() as int) == cs@);
    r
}

/// Whitespace that separates the tokens of a request.
pub open spec fn is_space(c: char) -> bool {
    c == ' ' || c == '\t' || c == '\n' || c == '\r' || c == '\x0b' || c == '\x0c'
}

fn space(c: char) -> (r: bool)
    ensures
        r == is_space(c),
{
    c == ' ' || c == '\t' || c == '\n' || c == '\r' || c == '\x0b' || c == '\x0c'
}

/// Scans `s` left to right: `cur` is the token being read, `acc` the tokens
/// already complete.
pub open spec fn scan(s: Seq<char>, cur: Seq<char>, acc: Seq<Seq<char>>) -> Seq<Seq<char>>
    decreases s.len(),
{
    let done = if cur.len() > 0 { acc.push(cur) } else { acc };
    if s.len() == 0 {
        done
    } else if is_space(s[0]) {
        scan(s.drop_first(), Seq::empty(), done)
    } else {
        scan(s.drop_first(), cur.push(s[0]), acc)
    }
}

/// The maximal runs of non-whitespace characters of `s`, in order.
pub open spec fn tokens(s: Seq<char>) -> Seq<Seq<char>> {
    scan(s, Seq::empty(), Seq::empty())
}

/// The views of a sequence of character vectors.
pub open spec fn views(v: Seq<Vec<char>>) -> Seq<Seq<char>> {
    v.map_values(|t: Vec<char>| t@)
}

/// Splits `s` into its whitespace-separated tokens.
pub fn split_tokens(s: &str) -> (r: Vec<Vec<char>>)
    ensures
        views(r@) == tokens(s@),
{
    let cs = chars_of(s);
    let mut acc: Vec<Vec<char>> = Vec::new();
    let mut cur: Vec<char> = Vec::new();
    let mut i: usize = 0;
    assert(cs@.skip(0) == cs@);
    assert(views(acc@) == Seq::<Seq<char>>::empty());
    assert(cur@ == Seq::<char>::empty());
    while i < cs.len()
        invariant
            i <= cs.len(),
            cs@ == s@,
            scan(cs@.skip(i as int), cur@, views(acc@)) == tokens(s@),
        decreases cs.len() - i,
    {
        let c = cs[i];
        assert(cs@.skip(i as int).drop_first() == cs@.skip(i + 1));
        if space(c) {
            if cur.len() > 0 {
                let ghost before = acc@;
                acc.push(cur);
                assert(views(acc@) == views(before).push(cur@));
            }
            cur = Vec::new();
            assert(cur@ == Seq::<char>::empty());
        } else {
            cur.push(c);
        }
        i += 1;
    }
    assert(cs@.skip(i as int).len() == 0);
    if cur.len() > 0 {
        let ghost before = acc@;
        acc.push(cur);
        assert(views(acc@) == views(before).push(cur@));
    }
    acc
}

/// Whether `a` holds exactly the characters of `b`.
pub fn same_chars(a: &Vec<char>, b: &str) -> (r: bool)
    ensures
        r == (a@ == b@),
{
    let bs = chars_of(b);
    if a.len() != bs.len() {
        return false;
    }
    let mut i: usize = 0;
    while i < a.len()
        invariant
            i <= a.len(),
            a.len() == bs.len(),
            bs@ == b@,
            forall|j: int| 0 <= j < i ==> a@[j] == bs@[j],
        decreases a.len() - i,
    {
        if a[i] != bs[i] {
            return false;
        }
        i += 1;
    }
    assert(a@ == bs@);
    true
}

/// The tokens of `ts` joined with single spaces.
pub open spec fn join_spaces(ts: Seq<Seq<char>>) -> Seq<char>
    decreases ts.len(),
{
    if ts.len() == 0 {
        Seq::empty()
    } else if ts.len() == 1 {
        ts[0]
    } else {
        join_spaces(ts.drop_last()) + seq![' '] + ts.last()
    }
}

/// The tokens of `ts` from index `from` on, joined with single spaces.
pub fn join_from(ts: &Vec<Vec<char>>, from: usize) -> (r: String)
    requires
        from <= ts.len(),
    ensures
        r@ == join_spaces(views(ts@).skip(from as int)),
{
    let mut r = String::new();
    let mut i: usize = from;
    while i < ts.len()
        invariant
            from <= i <= ts.len(),
            r@ == join_spaces(views(ts@).subrange(from as int, i as int)),
        decreases ts.len() - i,
    {
        let ghost prev = r@;
        let ghost part = views(ts@).subrange(from as int, i + 1);
        assert(part.drop_last() == views(ts@).subrange(from as int, i as int));
        if i > from {
            push_char(&mut r, ' ');
        }
        let t = &ts[i];
        let mut j: usize = 0;
        let ghost base = r@;
        while j < t.len()
            invariant
                j <= t.len(),
                r@ == base + t@.take(j as int),
            decreases t.len() - j,
        {
            push_char(&mut r, t[j]);
            assert(t@.take(j + 1) == t@.take(j as int).push(t@[j as int]));
            j += 1;
        }
        assert(t@.take(t.len() as int) == t@);
        if i == from {
            assert(part.len() == 1);
            assert(r@ == part[0]);
        }
        assert(r@ == join_spaces(part));
        i += 1;
    }
    assert(views(ts@).subrange(from as int, ts.len() as int) == views(ts@).skip(from as int));
    r
}

} // verus!
