//! Lists of names kept in strictly ascending order, which stand for sets.

use vstd::prelude::*;
use vstd::utf8::*;
use crate::order::{lemma_precedes_transitive, lemma_text_order_total, rank, text_before, Rank};

verus! {

/// The texts that a list of strings holds, in the order of the list.
pub open spec fn texts(v: Seq<String>) -> Seq<Seq<char>> {
    v.map_values(|s: String| s@)
}

/// Every element comes strictly before each later one, so nothing occurs twice.
pub open spec fn ascending(s: Seq<Seq<char>>) -> bool {
    forall|i: int, j: int| 0 <= i < j < s.len() ==> text_before(#[trigger] s[i], #[trigger] s[j])
}

/// The set of texts that a list of strings holds.
pub open spec fn name_set(v: Seq<String>) -> Set<Seq<char>> {
    texts(v).to_set()
}

/// The text order is transitive.
pub proof fn lemma_text_before_transitive(a: Seq<char>, b: Seq<char>, c: Seq<char>)
    requires
        text_before(a, b),
        text_before(b, c),
    ensures
        text_before(a, c),
{
    lemma_precedes_transitive(encode_utf8(a), encode_utf8(b), encode_utf8(c));
}

/// An ascending list is determined by the set of its elements: two ascending
/// lists of the same set are the same list.
pub proof fn lemma_ascending_unique(a: Seq<Seq<char>>, b: Seq<Seq<char>>)
    requires
        ascending(a),
        ascending(b),
        a.to_set() == b.to_set(),
    ensures
        a == b,
    decreases a.len(),
{
    if a.len() == 0 {
        if b.len() > 0 {
            assert(b.contains(b[0]));
            assert(a.to_set().contains(b[0]));
        }
        assert(a =~= b);
    } else {
        assert(a.contains(a[0]));
        assert(b.to_set().contains(a[0]));
        let j = choose|j: int| 0 <= j < b.len() && b[j] == a[0];
        assert(b.contains(b[0]));
        assert(a.to_set().contains(b[0]));
        let i = choose|i: int| 0 <= i < a.len() && a[i] == b[0];
        if j > 0 {
            assert(text_before(b[0], b[j]));
            if i > 0 {
                assert(text_before(a[0], a[i]));
            }
            lemma_text_order_total(b[0], a[0]);
        }
        assert(a[0] == b[0]);
        let x = a.skip(1);
        let y = b.skip(1);
        assert(ascending(x)) by {
            assert forall|p: int, q: int| 0 <= p < q < x.len() implies text_before(
                #[trigger] x[p],
                #[trigger] x[q],
            ) by {
                assert(text_before(a[p + 1], a[q + 1]));
            }
        }
        assert(ascending(y)) by {
            assert forall|p: int, q: int| 0 <= p < q < y.len() implies text_before(
                #[trigger] y[p],
                #[trigger] y[q],
            ) by {
                assert(text_before(b[p + 1], b[q + 1]));
            }
        }
        assert(x.to_set() =~= y.to_set()) by {
            assert forall|t: Seq<char>| x.to_set().contains(t) implies y.to_set().contains(t) by {
                lemma_tail_member(a, b, t);
            }
            assert forall|t: Seq<char>| y.to_set().contains(t) implies x.to_set().contains(t) by {
                lemma_tail_member(b, a, t);
            }
        }
        lemma_ascending_unique(x, y);
        assert(a =~= b) by {
            assert(a.len() == b.len());
            assert forall|p: int| 0 <= p < a.len() implies a[p] == b[p] by {
                if p > 0 {
                    assert(x[p - 1] == y[p - 1]);
                }
            }
        }
    }
}

/// What the tail of one ascending list holds, the tail of another with the
/// same head and the same elements holds too.
proof fn lemma_tail_member(a: Seq<Seq<char>>, b: Seq<Seq<char>>, t: Seq<char>)
    requires
        ascending(a),
        ascending(b),
        a.to_set() == b.to_set(),
        a.len() > 0,
        b.len() > 0,
        a[0] == b[0],
        a.skip(1).to_set().contains(t),
    ensures
        b.skip(1).to_set().contains(t),
{
    let p = choose|p: int| 0 <= p < a.skip(1).len() && a.skip(1)[p] == t;
    assert(a[p + 1] == t);
    assert(a.contains(t));
    assert(b.to_set().contains(t));
    let q = choose|q: int| 0 <= q < b.len() && b[q] == t;
    assert(text_before(a[0], a[p + 1]));
    lemma_text_order_total(a[0], t);
    assert(q > 0);
    assert(b.skip(1)[q - 1] == t);
    assert(b.skip(1).contains(t));
}

/// A text put into an ascending list between the texts before it and the
/// texts after it leaves the list ascending, and adds the text to its set.
proof fn lemma_insert_in_place(s: Seq<Seq<char>>, i: int, x: Seq<char>)
    requires
        ascending(s),
        0 <= i <= s.len(),
        forall|k: int| 0 <= k < i ==> text_before(#[trigger] s[k], x),
        i < s.len() ==> text_before(x, s[i]),
    ensures
        ascending(s.insert(i, x)),
        s.insert(i, x).to_set() == s.to_set().insert(x),
{
    let t = s.insert(i, x);
    assert forall|p: int, q: int| 0 <= p < q < t.len() implies text_before(
        #[trigger] t[p],
        #[trigger] t[q],
    ) by {
        if q < i {
            assert(t[p] == s[p] && t[q] == s[q]);
        } else if q == i {
            assert(t[p] == s[p]);
        } else if p < i {
            assert(t[p] == s[p] && t[q] == s[q - 1]);
        } else if p == i {
            assert(t[q] == s[q - 1]);
            if q - 1 > i {
                assert(text_before(s[i], s[q - 1]));
                lemma_text_before_transitive(x, s[i], s[q - 1]);
            }
        } else {
            assert(t[p] == s[p - 1] && t[q] == s[q - 1]);
        }
    }
    assert forall|y: Seq<char>| t.to_set().contains(y) implies s.to_set().insert(x).contains(
        y,
    ) by {
        let p = choose|p: int| 0 <= p < t.len() && t[p] == y;
        if p < i {
            assert(s[p] == y);
            assert(s.contains(y));
        } else if p > i {
            assert(s[p - 1] == y);
            assert(s.contains(y));
        }
    }
    assert forall|y: Seq<char>| s.to_set().insert(x).contains(y) implies t.to_set().contains(
        y,
    ) by {
        if y == x {
            assert(t[i] == y);
        } else {
            let p = choose|p: int| 0 <= p < s.len() && s[p] == y;
            if p < i {
                assert(t[p] == y);
            } else {
                assert(t[p + 1] == y);
            }
        }
        assert(t.contains(y));
    }
    assert(t.to_set() =~= s.to_set().insert(x));
}

/// Puts `name` into an ascending list at its place, unless the list holds it
/// already.
pub fn insert_name(list: &mut Vec<String>, name: String)
    requires
        ascending(texts(old(list)@)),
    ensures
        ascending(texts(final(list)@)),
        name_set(final(list)@) == name_set(old(list)@).insert(name@),
{
    let n = list.len();
    let mut i: usize = 0;
    while i < n
        invariant
            i <= n,
            n == list@.len(),
            list@ == old(list)@,
            ascending(texts(list@)),
            forall|k: int| 0 <= k < i ==> text_before(#[trigger] texts(list@)[k], name@),
        ensures
            i < n ==> text_before(name@, texts(list@)[i as int]),
        decreases n - i,
    {
        match rank(list[i].as_str(), name.as_str()) {
            Rank::Same => {
                proof {
                    assert(texts(list@)[i as int] == name@);
                    assert(texts(list@).contains(name@));
                    assert(name_set(list@) =~= name_set(list@).insert(name@));
                }
                return ;
            },
            Rank::After => {
                proof {
                    lemma_text_order_total(texts(list@)[i as int], name@);
                }
                break ;
            },
            Rank::Before => {
                i = i + 1;
            },
        }
    }
    proof {
        lemma_insert_in_place(texts(list@), i as int, name@);
        assert(texts(list@.insert(i as int, name)) =~= texts(list@).insert(i as int, name@));
    }
    list.insert(i, name);
}

} // verus!
