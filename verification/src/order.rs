//! The lexicographic order of texts by the bytes of their UTF-8 encoding.

use vstd::prelude::*;
use vstd::utf8::*;
use crate::text::lemma_encoding_is_injective;

verus! {

/// `a` and `b` agree on their first `k` bytes, and there `a` ends or holds a
/// smaller byte while `b` goes on.
pub open spec fn precedes_at(a: Seq<u8>, b: Seq<u8>, k: int) -> bool {
    &&& 0 <= k <= a.len()
    &&& k < b.len()
    &&& a.take(k) == b.take(k)
    &&& (k == a.len() || a[k] < b[k])
}

/// `a` comes strictly before `b` in lexicographic byte order.
pub open spec fn precedes(a: Seq<u8>, b: Seq<u8>) -> bool {
    exists|k: int| precedes_at(a, b, k)
}

/// The text `a` comes strictly before the text `b`: the order of `str` and
/// `String`, which compares the UTF-8 bytes.
pub open spec fn text_before(a: Seq<char>, b: Seq<char>) -> bool {
    precedes(encode_utf8(a), encode_utf8(b))
}

/// The order is transitive.
pub proof fn lemma_precedes_transitive(a: Seq<u8>, b: Seq<u8>, c: Seq<u8>)
    requires
        precedes(a, b),
        precedes(b, c),
    ensures
        precedes(a, c),
{
    let i = choose|k: int| precedes_at(a, b, k);
    let j = choose|k: int| precedes_at(b, c, k);
    let k = if i <= j { i } else { j };
    assert(a.take(k) =~= c.take(k)) by {
        assert forall|n: int| 0 <= n < k implies a[n] == c[n] by {
            assert(a.take(i)[n] == b.take(i)[n]);
            assert(b.take(j)[n] == c.take(j)[n]);
        }
    }
    if j < i {
        assert(a.take(i)[j] == b.take(i)[j]);
    } else if i < j {
        assert(b.take(j)[i] == c.take(j)[i]);
    }
    assert(precedes_at(a, c, k));
}

/// Of two sequences at most one precedes the other, and then they differ.
pub proof fn lemma_precedes_asymmetric(a: Seq<u8>, b: Seq<u8>)
    requires
        precedes(a, b),
    ensures
        !precedes(b, a),
        a != b,
{
    if precedes(b, a) {
        lemma_precedes_transitive(a, b, a);
    }
}

/// The outcome of comparing two texts.
#[derive(Debug, Clone, Copy, PartialEq, Eq, Structural)]
pub enum Rank {
    Before,
    Same,
    After,
}

/// What [`rank`] returns for two texts.
pub open spec fn rank_of(a: Seq<char>, b: Seq<char>) -> Rank {
    if a == b {
        Rank::Same
    } else if text_before(a, b) {
        Rank::Before
    } else {
        Rank::After
    }
}

/// Two different texts are ordered one way or the other, never both.
pub proof fn lemma_text_order_total(a: Seq<char>, b: Seq<char>)
    ensures
        a == b || text_before(a, b) || text_before(b, a),
        text_before(a, b) ==> a != b && !text_before(b, a),
{
    let x = encode_utf8(a);
    let y = encode_utf8(b);
    if text_before(a, b) {
        lemma_precedes_asymmetric(x, y);
    }
    if a != b {
        if x == y {
            lemma_encoding_is_injective(a, b);
        }
        assert(x.take(0) =~= y.take(0));
        lemma_first_gap(x, y, 0);
    }
}

/// Two byte sequences that agree on their first `k` bytes are equal or ordered.
proof fn lemma_first_gap(x: Seq<u8>, y: Seq<u8>, k: int)
    requires
        0 <= k <= x.len(),
        k <= y.len(),
        x.take(k) == y.take(k),
    ensures
        x == y || precedes(x, y) || precedes(y, x),
    decreases x.len() - k,
{
    if k == x.len() {
        if k == y.len() {
            assert(x.take(k) =~= x);
            assert(y.take(k) =~= y);
        } else {
            assert(precedes_at(x, y, k));
        }
    } else if k == y.len() {
        assert(precedes_at(y, x, k));
    } else if x[k] < y[k] {
        assert(precedes_at(x, y, k));
    } else if y[k] < x[k] {
        assert(precedes_at(y, x, k));
    } else {
        assert(x.take(k + 1) =~= x.take(k).push(x[k]));
        assert(y.take(k + 1) =~= y.take(k).push(y[k]));
        lemma_first_gap(x, y, k + 1);
    }
}

/// Compares two texts in the order of `str`.
pub fn rank(a: &str, b: &str) -> (r: Rank)
    ensures
        r == rank_of(a@, b@),
{
    let x = a.as_bytes();
    let y = b.as_bytes();
    let n = x.len();
    let m = y.len();
    let mut i: usize = 0;
    while i < n && i < m
        invariant
            i <= n,
            i <= m,
            n == x@.len(),
            m == y@.len(),
            x@ == encode_utf8(a@),
            y@ == encode_utf8(b@),
            x@.take(i as int) =~= y@.take(i as int),
        decreases n - i,
    {
        if x[i] < y[i] {
            proof {
                assert(precedes_at(x@, y@, i as int));
                lemma_text_order_total(a@, b@);
            }
            return Rank::Before;
        }
        if y[i] < x[i] {
            proof {
                assert(precedes_at(y@, x@, i as int));
                lemma_text_order_total(b@, a@);
            }
            return Rank::After;
        }
        proof {
            assert(x@.take(i + 1) =~= x@.take(i as int).push(x@[i as int]));
            assert(y@.take(i + 1) =~= y@.take(i as int).push(y@[i as int]));
        }
        i = i + 1;
    }
    if i < m {
        proof {
            assert(precedes_at(x@, y@, i as int));
            lemma_text_order_total(a@, b@);
        }
        Rank::Before
    } else if i < n {
        proof {
            assert(precedes_at(y@, x@, i as int));
            lemma_text_order_total(b@, a@);
        }
        Rank::After
    } else {
        proof {
            assert(x@.take(i as int) =~= x@);
            assert(y@.take(i as int) =~= y@);
            lemma_encoding_is_injective(a@, b@);
        }
        Rank::Same
    }
}

} // verus!
