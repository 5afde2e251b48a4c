//! The lexicographic order on byte strings, by which the registry keeps its keys.

use vstd::prelude::*;

verus! {

/// How one byte string stands to another in lexicographic order.
#[derive(Clone, Copy, Debug, PartialEq, Eq, Structural)]
pub enum Lex {
    /// The first string comes before the second.
    Less,
    /// The two strings hold the same bytes.
    Equal,
    /// The first string comes after the second.
    Greater,
}

/// `a` and `b` agree on their first `k` bytes, and at position `k` either `a` has ended
/// while `b` goes on, or both go on and `a` holds the smaller byte.
pub open spec fn precedes_at(a: Seq<u8>, b: Seq<u8>, k: int) -> bool {
    &&& 0 <= k <= a.len()
    &&& k < b.len()
    &&& forall|j: int| 0 <= j < k ==> a[j] == b[j]
    &&& (k == a.len() || a[k] < b[k])
}

/// `a` comes strictly before `b` in lexicographic order.
pub open spec fn lex_less(a: Seq<u8>, b: Seq<u8>) -> bool {
    exists|k: int| precedes_at(a, b, k)
}

/// The three-way comparison of `a` with `b`.
pub open spec fn lex_order(a: Seq<u8>, b: Seq<u8>) -> Lex {
    if a == b {
        Lex::Equal
    } else if lex_less(a, b) {
        Lex::Less
    } else {
        Lex::Greater
    }
}

/// A string that comes before another differs from it, and does not come after it.
pub proof fn lemma_lex_less_asymmetric(a: Seq<u8>, b: Seq<u8>)
    requires
        lex_less(a, b),
    ensures
        a != b,
        !lex_less(b, a),
{
}

/// The order is transitive.
pub proof fn lemma_lex_less_transitive(a: Seq<u8>, b: Seq<u8>, c: Seq<u8>)
    requires
        lex_less(a, b),
        lex_less(b, c),
    ensures
        lex_less(a, c),
{
    // `a` and `c` part ways where the first of the two pairs does.
    let k = choose|k: int| precedes_at(a, b, k);
    let m = choose|m: int| precedes_at(b, c, m);
    assert(precedes_at(a, c, if k <= m { k } else { m }));
}

/// Two strings that agree on their first `i` bytes are equal, or one comes before the other.
proof fn lemma_total_from(a: Seq<u8>, b: Seq<u8>, i: int)
    requires
        0 <= i <= a.len(),
        i <= b.len(),
        forall|j: int| 0 <= j < i ==> a[j] == b[j],
    ensures
        a == b || lex_less(a, b) || lex_less(b, a),
    decreases a.len() - i,
{
    if i < a.len() && i < b.len() && a[i] == b[i] {
        lemma_total_from(a, b, i + 1);
    } else if i == a.len() && i == b.len() {
        assert(a =~= b);
    } else if i < b.len() && (i == a.len() || a[i] < b[i]) {
        assert(precedes_at(a, b, i));
    } else {
        assert(precedes_at(b, a, i));
    }
}

/// The order is total: of two different strings one comes before the other.
pub proof fn lemma_lex_less_total(a: Seq<u8>, b: Seq<u8>)
    ensures
        a == b || lex_less(a, b) || lex_less(b, a),
{
    lemma_total_from(a, b, 0);
}

/// Compares two byte strings: byte by byte up to the first difference, and by length
/// where one is a prefix of the other.
pub fn lex_compare(a: &[u8], b: &[u8]) -> (r: Lex)
    ensures
        r == lex_order(a@, b@),
{
    let n: usize = if a.len() < b.len() {
        a.len()
    } else {
        b.len()
    };
    let mut i: usize = 0;
    while i < n
        invariant
            i <= n,
            n <= a.len(),
            n <= b.len(),
            forall|j: int| 0 <= j < i ==> a@[j] == b@[j],
        decreases n - i,
    {
        if a[i] < b[i] {
            proof {
                assert(precedes_at(a@, b@, i as int));
                lemma_lex_less_asymmetric(a@, b@);
            }
            return Lex::Less;
        }
        if a[i] > b[i] {
            proof {
                assert(precedes_at(b@, a@, i as int));
                lemma_lex_less_asymmetric(b@, a@);
            }
            return Lex::Greater;
        }
        i += 1;
    }
    if a.len() < b.len() {
        proof {
            assert(precedes_at(a@, b@, n as int));
            lemma_lex_less_asymmetric(a@, b@);
        }
        Lex::Less
    } else if a.len() > b.len() {
        proof {
            assert(precedes_at(b@, a@, n as int));
            lemma_lex_less_asymmetric(b@, a@);
        }
        Lex::Greater
    } else {
        assert(a@ =~= b@);
        Lex::Equal
    }
}

} // verus!
