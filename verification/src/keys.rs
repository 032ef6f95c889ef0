//! The order of dataset keys: that of `str`, byte by byte over the UTF-8
//! encoding.

use vstd::prelude::*;
use vstd::slice::*;
use vstd::string::*;
use vstd::utf8::*;

verus! {

/// `a` comes before `b`, and index `n` is where that shows: the two agree on
/// everything before `n`, and there `a` has ended or holds the smaller byte.
pub open spec fn precedes_at(a: Seq<u8>, b: Seq<u8>, n: int) -> bool {
    &&& 0 <= n <= a.len()
    &&& n < b.len()
    &&& forall|j: int| 0 <= j < n ==> a[j] == b[j]
    &&& (n == a.len() || a[n] < b[n])
}

/// Strict lexicographic order on byte strings.
pub open spec fn bytes_lt(a: Seq<u8>, b: Seq<u8>) -> bool {
    exists|n: int| precedes_at(a, b, n)
}

/// Strict order on keys: the lexicographic order of their UTF-8 encodings.
pub open spec fn key_lt(a: Seq<char>, b: Seq<char>) -> bool {
    bytes_lt(encode_utf8(a), encode_utf8(b))
}

/// How one key stands to another.
#[derive(Clone, Copy, Debug, PartialEq, Eq)]
pub enum KeyOrder {
    Before,
    Same,
    After,
}

/// No byte string comes before itself, and of two at most one comes first.
pub proof fn lemma_bytes_lt_asymmetric(a: Seq<u8>, b: Seq<u8>)
    requires
        bytes_lt(a, b),
    ensures
        !bytes_lt(b, a),
        a != b,
{
    let n = choose|n: int| precedes_at(a, b, n);
    if bytes_lt(b, a) {
        let m = choose|m: int| precedes_at(b, a, m);
        if n < m {
            assert(b[n] == a[n]);
        } else if m < n {
            assert(a[m] == b[m]);
        }
    }
    if a == b {
        assert(a[n] == b[n]);
    }
}

/// The order on byte strings is transitive.
pub proof fn lemma_bytes_lt_transitive(a: Seq<u8>, b: Seq<u8>, c: Seq<u8>)
    requires
        bytes_lt(a, b),
        bytes_lt(b, c),
    ensures
        bytes_lt(a, c),
{
    let n = choose|n: int| precedes_at(a, b, n);
    let m = choose|m: int| precedes_at(b, c, m);
    let k = if n <= m { n } else { m };
    assert forall|j: int| 0 <= j < k implies a[j] == c[j] by {
        assert(a[j] == b[j]);
        assert(b[j] == c[j]);
    }
    if n < m {
        assert(b[n] == c[n]);
    }
    assert(precedes_at(a, c, k));
}

/// Keys with the same encoding are the same key.
pub proof fn lemma_encoding_tells_keys_apart(a: Seq<char>, b: Seq<char>)
    requires
        encode_utf8(a) == encode_utf8(b),
    ensures
        a == b,
{
    encode_utf8_decode_utf8(a);
    encode_utf8_decode_utf8(b);
}

/// The key order is strict: a key that comes before another differs from it
/// and does not come after it.
pub proof fn lemma_key_lt_asymmetric(a: Seq<char>, b: Seq<char>)
    requires
        key_lt(a, b),
    ensures
        !key_lt(b, a),
        a != b,
{
    lemma_bytes_lt_asymmetric(encode_utf8(a), encode_utf8(b));
}

/// The key order is transitive.
pub proof fn lemma_key_lt_transitive(a: Seq<char>, b: Seq<char>, c: Seq<char>)
    requires
        key_lt(a, b),
        key_lt(b, c),
    ensures
        key_lt(a, c),
{
    lemma_bytes_lt_transitive(encode_utf8(a), encode_utf8(b), encode_utf8(c));
}

/// Compares two keys in the order of `str`.
pub fn compare_keys(a: &str, b: &str) -> (order: KeyOrder)
    ensures
        (order is Before) == key_lt(a@, b@),
        (order is Same) == (a@ == b@),
        (order is After) == key_lt(b@, a@),
{
    let x = a.as_bytes();
    let y = b.as_bytes();
    let n = x.len();
    let m = y.len();
    let mut i: usize = 0;
    while i < n && i < m
        invariant
            i <= n,
            i <= m,
            n == x@.len(),
            m == y@.len(),
            x@ == encode_utf8(a@),
            y@ == encode_utf8(b@),
            forall|j: int| 0 <= j < i ==> x@[j] == y@[j],
        decreases n - i,
    {
        if x[i] < y[i] {
            proof {
                assert(precedes_at(x@, y@, i as int));
                lemma_key_lt_asymmetric(a@, b@);
            }
            return KeyOrder::Before;
        }
        if x[i] > y[i] {
            proof {
                assert(precedes_at(y@, x@, i as int));
                lemma_key_lt_asymmetric(b@, a@);
            }
            return KeyOrder::After;
        }
        i += 1;
    }
    if n < m {
        proof {
            assert(precedes_at(x@, y@, i as int));
            lemma_key_lt_asymmetric(a@, b@);
        }
        KeyOrder::Before
    } else if n > m {
        proof {
            assert(precedes_at(y@, x@, i as int));
            lemma_key_lt_asymmetric(b@, a@);
        }
        KeyOrder::After
    } else {
        proof {
            assert(x@ =~= y@);
            lemma_encoding_tells_keys_apart(a@, b@);
            if key_lt(a@, b@) {
                lemma_key_lt_asymmetric(a@, b@);
            }
            if key_lt(b@, a@) {
                lemma_key_lt_asymmetric(b@, a@);
            }
        }
        KeyOrder::Same
    }
}

} // verus!
