//! Streaming updates and the prefix diff that turns a re-decoded transcript
//! into an incremental delta.

use vstd::prelude::*;
use vstd::utf8::*;

verus! {

broadcast use encode_utf8_valid_utf8;

/// One incremental update from a streaming session.
#[derive(Debug, Clone)]
pub struct Partial {
    /// Full cumulative transcript so far (authoritative).
    pub text: String,
    /// Newly appended tail vs the previous `text` (a hint; may be rewritten).
    pub delta: String,
    /// An end-of-utterance/backchannel event fired during this feed.
    pub eou: bool,
    pub is_final: bool,
}

impl Default for Partial {
    fn default() -> (p: Self)
        ensures
            p.text@ == Seq::<char>::empty(),
            p.delta@ == Seq::<char>::empty(),
            !p.eou,
            !p.is_final,
    {
        Partial { text: String::new(), delta: String::new(), eou: false, is_final: false }
    }
}

/// Number of leading characters that `a` and `b` have in common.
pub open spec fn common_char_count(a: Seq<char>, b: Seq<char>) -> nat
    decreases a.len(),
{
    if a.len() == 0 || b.len() == 0 || a[0] != b[0] {
        0
    } else {
        1 + common_char_count(a.drop_first(), b.drop_first())
    }
}

/// Byte length (in UTF-8) of the longest common character prefix of `a` and `b`.
pub open spec fn common_prefix_byte_len(a: Seq<char>, b: Seq<char>) -> nat {
    encode_utf8(a.take(common_char_count(a, b) as int)).len()
}

/// `n` is a common prefix of the byte strings `x` and `y` that falls on a
/// character boundary of both, and no longer common prefix does.
pub open spec fn is_snapped_common_prefix(x: Seq<u8>, y: Seq<u8>, n: int) -> bool {
    &&& 0 <= n <= x.len()
    &&& n <= y.len()
    &&& x.take(n) == y.take(n)
    &&& is_char_boundary(x, n)
    &&& is_char_boundary(y, n)
    &&& forall|m: int|
        #![trigger x.take(m), y.take(m)]
        n < m <= x.len() && m <= y.len() && x.take(m) == y.take(m) ==> !(is_char_boundary(x, m)
            && is_char_boundary(y, m))
}

/// Shape of the common character prefix: it is a prefix of both sequences,
/// and the first characters after it (when both exist) differ.
proof fn lemma_common_char_count(a: Seq<char>, b: Seq<char>)
    ensures
        common_char_count(a, b) <= a.len(),
        common_char_count(a, b) <= b.len(),
        a.take(common_char_count(a, b) as int) == b.take(common_char_count(a, b) as int),
        ({
            let k = common_char_count(a, b) as int;
            k < a.len() && k < b.len() ==> a[k] != b[k]
        }),
    decreases a.len(),
{
    if a.len() == 0 || b.len() == 0 || a[0] != b[0] {
        assert(a.take(0) =~= b.take(0));
    } else {
        let a1 = a.drop_first();
        let b1 = b.drop_first();
        lemma_common_char_count(a1, b1);
        let k1 = common_char_count(a1, b1) as int;
        assert(a.take(k1 + 1) =~= seq![a[0]] + a1.take(k1));
        assert(b.take(k1 + 1) =~= seq![b[0]] + b1.take(k1));
        if k1 + 1 < a.len() && k1 + 1 < b.len() {
            assert(a[k1 + 1] == a1[k1]);
            assert(b[k1 + 1] == b1[k1]);
        }
    }
}

/// Any common character prefix is at most as long as the one that
/// `common_char_count` measures.
proof fn lemma_common_char_count_max(a: Seq<char>, b: Seq<char>, j: int)
    requires
        0 <= j <= a.len(),
        j <= b.len(),
        a.take(j) == b.take(j),
    ensures
        j <= common_char_count(a, b),
{
    lemma_common_char_count(a, b);
    let k = common_char_count(a, b) as int;
    if j > k {
        assert(a.take(j)[k] == a[k]);
        assert(b.take(j)[k] == b[k]);
    }
}

/// UTF-8 encoding distributes over concatenation.
proof fn lemma_encode_concat(x: Seq<char>, y: Seq<char>)
    ensures
        encode_utf8(x + y) == encode_utf8(x) + encode_utf8(y),
    decreases x.len(),
{
    if x.len() == 0 {
        assert(x + y =~= y);
        assert(encode_utf8(x) =~= Seq::<u8>::empty());
        assert(encode_utf8(x) + encode_utf8(y) =~= encode_utf8(y));
    } else {
        let xy = x + y;
        assert(xy[0] == x[0]);
        assert(xy.drop_first() =~= x.drop_first() + y);
        lemma_encode_concat(x.drop_first(), y);
        assert(encode_utf8(xy) =~= encode_scalar(x[0] as u32) + encode_utf8(x.drop_first())
            + encode_utf8(y));
    }
}

/// Encoding a longer prefix of a character sequence never gives fewer bytes.
proof fn lemma_encode_take_monotone(a: Seq<char>, j: int, k: int)
    requires
        0 <= j <= k <= a.len(),
    ensures
        encode_utf8(a.take(j)).len() <= encode_utf8(a.take(k)).len(),
{
    assert(a.take(k) =~= a.take(j) + a.subrange(j, k));
    lemma_encode_concat(a.take(j), a.subrange(j, k));
}

/// The end of an encoded prefix is a character boundary of the whole encoding.
proof fn lemma_encoded_prefix_is_boundary(x: Seq<char>, y: Seq<char>)
    ensures
        is_char_boundary(encode_utf8(x + y), encode_utf8(x).len() as int),
    decreases x.len(),
{
    let bytes = encode_utf8(x + y);
    if x.len() == 0 {
    } else {
        let xy = x + y;
        lemma_encode_concat(x, y);
        encode_utf8_first_scalar(xy);
        assert(xy[0] == x[0]);
        let first_len = encode_scalar(x[0] as u32).len() as int;
        assert(encode_utf8(x) == encode_scalar(x[0] as u32) + encode_utf8(x.drop_first()));
        assert(first_len >= 1);
        assert(xy.drop_first() =~= x.drop_first() + y);
        assert(pop_first_scalar(bytes) =~= encode_utf8(x.drop_first() + y));
        lemma_encoded_prefix_is_boundary(x.drop_first(), y);
    }
}

/// Byte-level characterisation of the snapped common prefix in terms of the
/// characters that the two byte strings encode.
proof fn lemma_snapped_prefix_is_char_prefix(a: Seq<char>, b: Seq<char>, n: int)
    requires
        is_snapped_common_prefix(encode_utf8(a), encode_utf8(b), n),
    ensures
        n == common_prefix_byte_len(a, b),
{
    let x = encode_utf8(a);
    let y = encode_utf8(b);
    lemma_common_char_count(a, b);
    let k = common_char_count(a, b) as int;
    let p = a.take(k);
    let m0 = encode_utf8(p).len() as int;

    // the encoded common character prefix is itself a snapped candidate
    assert(a =~= p + a.skip(k));
    assert(b =~= p + b.skip(k));
    lemma_encode_concat(p, a.skip(k));
    lemma_encode_concat(p, b.skip(k));
    lemma_encoded_prefix_is_boundary(p, a.skip(k));
    lemma_encoded_prefix_is_boundary(p, b.skip(k));
    assert(x.take(m0) =~= encode_utf8(p));
    assert(y.take(m0) =~= encode_utf8(p));
    assert(m0 <= n);

    // the bytes before n decode to a common character prefix
    valid_utf8_split(x, n);
    valid_utf8_split(y, n);
    decode_utf8_split(x, n);
    decode_utf8_split(y, n);
    encode_utf8_decode_utf8(a);
    encode_utf8_decode_utf8(b);
    let head = x.subrange(0, n);
    assert(head =~= x.take(n));
    assert(y.subrange(0, n) =~= y.take(n));
    let d = decode_utf8(head);
    let j = d.len() as int;
    assert(a.take(j) =~= d);
    assert(b.take(j) =~= d);
    lemma_common_char_count_max(a, b, j);
    decode_utf8_encode_utf8(head);
    lemma_encode_take_monotone(a, j, k);
}

/// The snapped common prefix does not depend on the order of its arguments.
pub proof fn lemma_common_prefix_symmetric(a: Seq<char>, b: Seq<char>)
    ensures
        common_prefix_byte_len(a, b) == common_prefix_byte_len(b, a),
    decreases a.len(),
{
    if a.len() == 0 || b.len() == 0 || a[0] != b[0] {
    } else {
        lemma_common_prefix_symmetric(a.drop_first(), b.drop_first());
        lemma_common_char_count_symmetric(a, b);
        lemma_common_char_count(a, b);
    }
}

proof fn lemma_common_char_count_symmetric(a: Seq<char>, b: Seq<char>)
    ensures
        common_char_count(a, b) == common_char_count(b, a),
    decreases a.len(),
{
    if a.len() == 0 || b.len() == 0 || a[0] != b[0] {
    } else {
        lemma_common_char_count_symmetric(a.drop_first(), b.drop_first());
    }
}

/// A text shares all of its bytes with itself.
pub proof fn lemma_common_prefix_self(a: Seq<char>)
    ensures
        common_prefix_byte_len(a, a) == encode_utf8(a).len(),
{
    assert(a.take(a.len() as int) =~= a);
    lemma_common_prefix_of_prefix(a, a);
}

/// When `a` is a prefix of `b`, the whole of `a` is the common prefix.
pub proof fn lemma_common_prefix_of_prefix(a: Seq<char>, b: Seq<char>)
    requires
        a.len() <= b.len(),
        b.take(a.len() as int) == a,
    ensures
        common_prefix_byte_len(a, b) == encode_utf8(a).len(),
{
    lemma_common_char_count(a, b);
    lemma_common_char_count_max(a, b, a.len() as int);
    assert(a.take(a.len() as int) =~= a);
}

/// Cutting either text at the snapped common prefix splits its encoding into
/// the encoding of the shared characters and the encoding of the characters
/// after them, so the tail is again well-formed text.
pub proof fn lemma_common_prefix_split(a: Seq<char>, b: Seq<char>)
    ensures
        ({
            let n = common_prefix_byte_len(a, b) as int;
            let k = common_char_count(a, b) as int;
            &&& encode_utf8(b).take(n) == encode_utf8(a.take(k))
            &&& encode_utf8(b).skip(n) == encode_utf8(b.skip(k))
            &&& encode_utf8(a).skip(n) == encode_utf8(a.skip(k))
            &&& valid_utf8(encode_utf8(b).skip(n))
        }),
{
    lemma_common_char_count(a, b);
    let k = common_char_count(a, b) as int;
    let p = a.take(k);
    assert(a =~= p + a.skip(k));
    assert(b =~= p + b.skip(k));
    lemma_encode_concat(p, a.skip(k));
    lemma_encode_concat(p, b.skip(k));
    let n = encode_utf8(p).len() as int;
    assert(encode_utf8(b).take(n) =~= encode_utf8(p));
    assert(encode_utf8(b).skip(n) =~= encode_utf8(b.skip(k)));
    assert(encode_utf8(a).skip(n) =~= encode_utf8(a.skip(k)));
}

/// Longest common prefix length in bytes, snapped to a char boundary.
pub fn common_prefix_len(a: &str, b: &str) -> (n: usize)
    ensures
        n == common_prefix_byte_len(a@, b@),
        is_snapped_common_prefix(encode_utf8(a@), encode_utf8(b@), n as int),
{
    let ab = a.as_bytes();
    let bb = b.as_bytes();
    let ghost x = encode_utf8(a@);
    let ghost y = encode_utf8(b@);
    let limit = if ab.len() < bb.len() {
        ab.len()
    } else {
        bb.len()
    };
    let mut n: usize = 0;
    while n < limit && ab[n] == bb[n]
        invariant
            ab@ == x,
            bb@ == y,
            limit <= x.len(),
            limit <= y.len(),
            limit == x.len() || limit == y.len(),
            n <= limit,
            forall|i: int| 0 <= i < n ==> x[i] == y[i],
        decreases limit - n,
    {
        n = n + 1;
    }
    let ghost lcp = n as int;
    assert(x.take(lcp) =~= y.take(lcp));
    assert forall|m: int| lcp < m <= x.len() && m <= y.len() implies x.take(m) != y.take(m) by {
        assert(x.take(m)[lcp] == x[lcp]);
        assert(y.take(m)[lcp] == y[lcp]);
    }
    while n > 0 && (!a.is_char_boundary(n) || !b.is_char_boundary(n))
        invariant
            x == encode_utf8(a@),
            y == encode_utf8(b@),
            n <= lcp,
            lcp <= x.len(),
            lcp <= y.len(),
            x.take(lcp) == y.take(lcp),
            forall|m: int| lcp < m <= x.len() && m <= y.len() ==> x.take(m) != y.take(m),
            forall|m: int|
                n < m <= lcp ==> !(#[trigger] is_char_boundary(x, m) && is_char_boundary(y, m)),
        decreases n,
    {
        n = n - 1;
    }
    proof {
        is_char_boundary_start_end_of_seq(x);
        is_char_boundary_start_end_of_seq(y);
        assert(x.take(n as int) =~= x.take(lcp).take(n as int));
        assert(y.take(n as int) =~= y.take(lcp).take(n as int));
        assert forall|m: int|
            #![trigger x.take(m), y.take(m)]
            n < m <= x.len() && m <= y.len() && x.take(m) == y.take(m) implies !(
            is_char_boundary(x, m) && is_char_boundary(y, m)) by {
            if m > lcp {
                assert(x.take(m) != y.take(m));
            }
        }
        lemma_snapped_prefix_is_char_prefix(a@, b@, n as int);
    }
    n
}

} // verus!
