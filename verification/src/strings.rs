//! Comparison of string slices through their UTF-8 encoding.

use vstd::prelude::*;
use vstd::string::StringSliceAdditionalSpecFns;
use vstd::utf8::{encode_utf8, encode_utf8_decode_utf8};

verus! {

/// Two character sequences with the same UTF-8 encoding are the same sequence.
pub proof fn lemma_encoding_identifies_text(a: Seq<char>, b: Seq<char>)
    requires
        encode_utf8(a) == encode_utf8(b),
    ensures
        a == b,
{
    encode_utf8_decode_utf8(a);
    encode_utf8_decode_utf8(b);
}

/// Whether two string slices hold the same text.
pub fn str_eq(a: &str, b: &str) -> (same: bool)
    ensures
        same == (a@ == b@),
{
    let x = a.as_bytes();
    let y = b.as_bytes();
    if x.len() != y.len() {
        return false;
    }
    let mut i: usize = 0;
    while i < x.len()
        invariant
            i <= x.len(),
            x.len() == y.len(),
            x@ == a.spec_bytes(),
            y@ == b.spec_bytes(),
            forall|k: int| 0 <= k < i ==> x@[k] == y@[k],
        decreases x.len() - i,
    {
        if x[i] != y[i] {
            return false;
        }
        i += 1;
    }
    proof {
        assert(x@ =~= y@);
        lemma_encoding_identifies_text(a@, b@);
    }
    true
}

/// Whether `a` and `b` agree before index `k` and `a` is the smaller there:
/// either `a` ends at `k` and `b` goes on, or both go on and the byte of `a`
/// is the smaller.
pub open spec fn less_at(a: Seq<u8>, b: Seq<u8>, k: int) -> bool {
    &&& 0 <= k <= a.len()
    &&& k <= b.len()
    &&& forall|i: int| 0 <= i < k ==> a[i] == b[i]
    &&& if k == a.len() {
        k < b.len()
    } else {
        k < b.len() && a[k] < b[k]
    }
}

/// The lexicographic order of byte sequences: the first difference decides,
/// and a proper prefix comes first.
pub open spec fn bytes_less(a: Seq<u8>, b: Seq<u8>) -> bool {
    exists|k: int| less_at(a, b, k)
}

/// The order of texts: that of their UTF-8 encodings, byte by byte. This is
/// the order in which Rust compares string slices.
pub open spec fn text_less(a: Seq<char>, b: Seq<char>) -> bool {
    bytes_less(encode_utf8(a), encode_utf8(b))
}

/// Of two byte sequences, at most one comes before the other, and none
/// comes before itself.
pub proof fn lemma_bytes_less_asymmetric(a: Seq<u8>, b: Seq<u8>)
    requires
        bytes_less(a, b),
    ensures
        !bytes_less(b, a),
        a != b,
{
    let k = choose|k: int| less_at(a, b, k);
    if bytes_less(b, a) {
        let m = choose|m: int| less_at(b, a, m);
        if k < m {
            assert(b[k] == a[k]);
        } else if m < k {
            assert(a[m] == b[m]);
        }
    }
}

/// The order of byte sequences is transitive.
pub proof fn lemma_bytes_less_transitive(a: Seq<u8>, b: Seq<u8>, c: Seq<u8>)
    requires
        bytes_less(a, b),
        bytes_less(b, c),
    ensures
        bytes_less(a, c),
{
    let k = choose|k: int| less_at(a, b, k);
    let m = choose|m: int| less_at(b, c, m);
    let n = if k <= m { k } else { m };
    assert forall|i: int| 0 <= i < n implies a[i] == c[i] by {
        assert(a[i] == b[i]);
        assert(b[i] == c[i]);
    }
    if m < k {
        assert(a[m] == b[m]);
    } else if k < m {
        if k < a.len() {
            assert(b[k] == c[k]);
        }
    }
    assert(less_at(a, c, n));
}

/// Of two texts, at most one comes before the other, and none comes before
/// itself.
pub proof fn lemma_text_less_asymmetric(a: Seq<char>, b: Seq<char>)
    requires
        text_less(a, b),
    ensures
        !text_less(b, a),
        a != b,
{
    lemma_bytes_less_asymmetric(encode_utf8(a), encode_utf8(b));
}

/// The order of texts is transitive.
pub proof fn lemma_text_less_transitive(a: Seq<char>, b: Seq<char>, c: Seq<char>)
    requires
        text_less(a, b),
        text_less(b, c),
    ensures
        text_less(a, c),
{
    lemma_bytes_less_transitive(encode_utf8(a), encode_utf8(b), encode_utf8(c));
}

/// How one text stands to another in the order of texts.
#[derive(Debug, Clone, Copy, PartialEq, Eq)]
pub enum Order {
    /// The first comes before the second.
    Before,
    /// The two are the same text.
    Same,
    /// The first comes after the second.
    After,
}

/// How `a` stands to `b` in the order of texts. Exactly one of the three
/// holds of any two texts.
pub fn str_order(a: &str, b: &str) -> (order: Order)
    ensures
        order is Before <==> text_less(a@, b@),
        order is Same <==> a@ == b@,
        order is After <==> text_less(b@, a@),
{
    let x = a.as_bytes();
    let y = b.as_bytes();
    let mut i: usize = 0;
    while i < x.len() && i < y.len()
        invariant
            i <= x.len(),
            i <= y.len(),
            x@ == a.spec_bytes(),
            y@ == b.spec_bytes(),
            forall|k: int| 0 <= k < i ==> x@[k] == y@[k],
        decreases x.len() - i,
    {
        if x[i] < y[i] {
            proof {
                assert(less_at(x@, y@, i as int));
                lemma_text_less_asymmetric(a@, b@);
            }
            return Order::Before;
        }
        if x[i] > y[i] {
            proof {
                assert(less_at(y@, x@, i as int));
                lemma_text_less_asymmetric(b@, a@);
            }
            return Order::After;
        }
        i += 1;
    }
    if i < y.len() {
        proof {
            assert(less_at(x@, y@, i as int));
            lemma_text_less_asymmetric(a@, b@);
        }
        Order::Before
    } else if i < x.len() {
        proof {
            assert(less_at(y@, x@, i as int));
            lemma_text_less_asymmetric(b@, a@);
        }
        Order::After
    } else {
        proof {
            assert(x@ =~= y@);
            lemma_encoding_identifies_text(a@, b@);
            if text_less(a@, b@) {
                lemma_text_less_asymmetric(a@, b@);
            }
        }
        Order::Same
    }
}

} // verus!
