//! The order in which names are kept: that of their UTF-8 bytes, compared
//! lexicographically, which is the order Rust gives to `str` and `String`.

use vstd::prelude::*;
use vstd::utf8::encode_utf8;
use vstd::utf8::encode_utf8_decode_utf8;

verus! {

/// `a` and `b` hold the same bytes in their first `k` places.
pub open spec fn agree_before(a: Seq<u8>, b: Seq<u8>, k: int) -> bool {
    &&& 0 <= k <= a.len()
    &&& k <= b.len()
    &&& forall|j: int| 0 <= j < k ==> a[j] == b[j]
}

/// Strict lexicographic order on byte strings: `a` comes before `b` when `a`
/// is a proper prefix of `b`, or when, at the first place where they differ,
/// the byte of `a` is the smaller one.
pub open spec fn bytes_precede(a: Seq<u8>, b: Seq<u8>) -> bool {
    exists|k: int|
        #[trigger] agree_before(a, b, k) && k < b.len() && (k == a.len() || a[k] < b[k])
}

/// Strict order on names, by their UTF-8 encodings.
pub open spec fn name_precedes(a: Seq<char>, b: Seq<char>) -> bool {
    bytes_precede(encode_utf8(a), encode_utf8(b))
}

/// No byte string comes before itself.
pub proof fn lemma_bytes_irreflexive(a: Seq<u8>)
    ensures
        !bytes_precede(a, a),
{
}

/// Of two byte strings, at most one comes before the other.
pub proof fn lemma_bytes_asymmetric(a: Seq<u8>, b: Seq<u8>)
    requires
        bytes_precede(a, b),
    ensures
        !bytes_precede(b, a),
{
    let k = choose|k: int|
        #[trigger] agree_before(a, b, k) && k < b.len() && (k == a.len() || a[k] < b[k]);
    assert forall|m: int|
        #[trigger] agree_before(b, a, m) && m < a.len() implies !(m == b.len() || b[m] < a[m]) by {
        if m < k {
            assert(a[m] == b[m]);
        } else if m > k {
            assert(b[k] == a[k]);
        }
    }
}

/// The order on byte strings is transitive.
pub proof fn lemma_bytes_transitive(a: Seq<u8>, b: Seq<u8>, c: Seq<u8>)
    requires
        bytes_precede(a, b),
        bytes_precede(b, c),
    ensures
        bytes_precede(a, c),
{
    let k1 = choose|k: int|
        #[trigger] agree_before(a, b, k) && k < b.len() && (k == a.len() || a[k] < b[k]);
    let k2 = choose|k: int|
        #[trigger] agree_before(b, c, k) && k < c.len() && (k == b.len() || b[k] < c[k]);
    let k = if k1 <= k2 {
        k1
    } else {
        k2
    };
    assert forall|j: int| 0 <= j < k implies a[j] == c[j] by {
        assert(a[j] == b[j]);
        assert(b[j] == c[j]);
    }
    assert(agree_before(a, c, k));
    if k1 < k2 {
        assert(b[k1] == c[k1]);
    } else if k2 < k1 {
        assert(a[k2] == b[k2]);
    }
}

/// Two byte strings that agree in their first `k` places are equal, or one of
/// them comes before the other.
proof fn lemma_bytes_total_from(a: Seq<u8>, b: Seq<u8>, k: int)
    requires
        agree_before(a, b, k),
    ensures
        bytes_precede(a, b) || a == b || bytes_precede(b, a),
    decreases a.len() - k,
{
    if k == a.len() {
        if k == b.len() {
            assert(a =~= b);
        } else {
            assert(agree_before(a, b, k));
        }
    } else if k == b.len() {
        assert(agree_before(b, a, k));
    } else if a[k] < b[k] {
        assert(agree_before(a, b, k));
    } else if b[k] < a[k] {
        assert(agree_before(b, a, k));
    } else {
        assert(agree_before(a, b, k + 1));
        lemma_bytes_total_from(a, b, k + 1);
    }
}

/// The order on byte strings is total.
pub proof fn lemma_bytes_total(a: Seq<u8>, b: Seq<u8>)
    ensures
        bytes_precede(a, b) || a == b || bytes_precede(b, a),
{
    assert(agree_before(a, b, 0));
    lemma_bytes_total_from(a, b, 0);
}

/// No name comes before itself.
pub proof fn lemma_name_irreflexive(a: Seq<char>)
    ensures
        !name_precedes(a, a),
{
    lemma_bytes_irreflexive(encode_utf8(a));
}

/// Of two names, at most one comes before the other.
pub proof fn lemma_name_asymmetric(a: Seq<char>, b: Seq<char>)
    requires
        name_precedes(a, b),
    ensures
        !name_precedes(b, a),
{
    lemma_bytes_asymmetric(encode_utf8(a), encode_utf8(b));
}

/// The order on names is transitive.
pub proof fn lemma_name_transitive(a: Seq<char>, b: Seq<char>, c: Seq<char>)
    requires
        name_precedes(a, b),
        name_precedes(b, c),
    ensures
        name_precedes(a, c),
{
    lemma_bytes_transitive(encode_utf8(a), encode_utf8(b), encode_utf8(c));
}

/// Two names are equal, or one of them comes before the other.
pub proof fn lemma_name_total(a: Seq<char>, b: Seq<char>)
    ensures
        name_precedes(a, b) || a == b || name_precedes(b, a),
{
    lemma_bytes_total(encode_utf8(a), encode_utf8(b));
    encode_utf8_decode_utf8(a);
    encode_utf8_decode_utf8(b);
}

/// Whether `a` comes strictly before `b` in the order of names.
pub fn precedes(a: &str, b: &str) -> (r: bool)
    ensures
        r == name_precedes(a@, b@),
{
    let x = a.as_bytes();
    let y = b.as_bytes();
    let mut i: usize = 0;
    while i < x.len() && i < y.len()
        invariant
            x@ == encode_utf8(a@),
            y@ == encode_utf8(b@),
            agree_before(x@, y@, i as int),
        decreases x.len() - i,
    {
        if x[i] != y[i] {
            proof {
                let k = i as int;
                if x@[k] < y@[k] {
                    assert(agree_before(x@, y@, k));
                } else {
                    assert forall|m: int| #[trigger]
                        agree_before(x@, y@, m) && m < y@.len() implies !(m == x@.len() || x@[m]
                        < y@[m]) by {
                        if m > k {
                            assert(x@[k] == y@[k]);
                        }
                    }
                }
            }
            return x[i] < y[i];
        }
        i += 1;
    }
    proof {
        let k = i as int;
        if k < y@.len() {
            assert(agree_before(x@, y@, k));
        } else {
            assert forall|m: int| #[trigger]
                agree_before(x@, y@, m) && m < y@.len() implies !(m == x@.len() || x@[m] < y@[m]) by {
                assert(x@[m] == y@[m]);
            }
        }
    }
    i < y.len()
}

} // verus!
