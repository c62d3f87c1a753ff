//! Paths as text: components joined by `/`.

use vstd::prelude::*;

verus! {

/// `base`, a separator, then `component`.
pub open spec fn join(base: Seq<char>, component: Seq<char>) -> Seq<char> {
    base.push('/') + component
}

/// A single path component holds no separator.
pub open spec fn is_component(s: Seq<char>) -> bool {
    forall|i: int| 0 <= i < s.len() ==> s[i] != '/'
}

/// Two joins whose left parts are single components are equal only if both
/// parts are.
pub proof fn lemma_join_splits(a: Seq<char>, x: Seq<char>, b: Seq<char>, y: Seq<char>)
    requires
        is_component(a),
        is_component(b),
        join(a, x) == join(b, y),
    ensures
        a == b,
        x == y,
{
    let p = join(a, x);
    let q = join(b, y);
    assert(p.len() == a.len() + 1 + x.len());
    assert(q.len() == b.len() + 1 + y.len());
    if a.len() < b.len() {
        assert(p[a.len() as int] == '/');
        assert(q[a.len() as int] == b[a.len() as int]);
        assert(false);
    }
    if b.len() < a.len() {
        assert(q[b.len() as int] == '/');
        assert(p[b.len() as int] == a[b.len() as int]);
        assert(false);
    }
    assert forall|i: int| 0 <= i < a.len() implies a[i] == b[i] by {
        assert(p[i] == a[i]);
        assert(q[i] == b[i]);
    }
    assert(a =~= b);
    assert forall|i: int| 0 <= i < x.len() implies x[i] == y[i] by {
        assert(p[a.len() + 1 + i] == x[i]);
        assert(q[b.len() + 1 + i] == y[i]);
    }
    assert(x =~= y);
}

/// A common prefix can be cancelled.
pub proof fn lemma_prefix_cancels(p: Seq<char>, x: Seq<char>, y: Seq<char>)
    requires
        p + x == p + y,
    ensures
        x == y,
{
    assert((p + x).len() == p.len() + x.len());
    assert((p + y).len() == p.len() + y.len());
    assert forall|i: int| 0 <= i < x.len() implies x[i] == y[i] by {
        assert((p + x)[p.len() + i] == x[i]);
        assert((p + y)[p.len() + i] == y[i]);
    }
    assert(x =~= y);
}

/// A common suffix can be cancelled.
pub proof fn lemma_suffix_cancels(x: Seq<char>, y: Seq<char>, s: Seq<char>)
    requires
        x + s == y + s,
    ensures
        x == y,
{
    assert((x + s).len() == x.len() + s.len());
    assert((y + s).len() == y.len() + s.len());
    assert forall|i: int| 0 <= i < x.len() implies x[i] == y[i] by {
        assert((x + s)[i] == x[i]);
        assert((y + s)[i] == y[i]);
    }
    assert(x =~= y);
}

/// Builds `base/component`.
pub fn join_path(base: &str, component: &str) -> (path: String)
    ensures
        path@ == join(base@, component@),
{
    let mut path = String::from_str(base);
    path.append("/");
    path.append(component);
    proof {
        reveal_strlit("/");
        assert("/"@ =~= seq!['/']);
        assert(path@ =~= join(base@, component@));
    }
    path
}

/// The strings of `list` as texts, in order.
pub open spec fn texts(list: Seq<String>) -> Seq<Seq<char>> {
    list.map_values(|s: String| s@)
}

/// A copy of a list of strings.
pub fn copy_texts(list: &Vec<String>) -> (copy: Vec<String>)
    ensures
        texts(copy@) == texts(list@),
{
    let mut copy: Vec<String> = Vec::new();
    let mut i: usize = 0;
    while i < list.len()
        invariant
            i <= list.len(),
            copy@.len() == i,
            forall|j: int| 0 <= j < i ==> copy@[j]@ == list@[j]@,
        decreases list.len() - i,
    {
        copy.push(list[i].clone());
        i += 1;
    }
    proof {
        assert(texts(copy@) =~= texts(list@));
    }
    copy
}

/// `String::push` of std: the character is added at the end.
#[verifier::external_body]
pub(crate) fn push_char(s: &mut String, c: char)
    ensures
        final(s)@ == old(s)@.push(c),
{
    s.push(c)
}

} // verus!
