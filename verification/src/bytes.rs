use vstd::prelude::*;

verus! {

/// Whether `a` comes before `b` in lexicographic order: at the first place
/// where they differ `a` has the smaller byte, or `a` ends there and `b`
/// does not.
pub open spec fn lex_less(a: Seq<u8>, b: Seq<u8>) -> bool {
    exists|k: int| #[trigger] differ_at(a, b, k) && (k == a.len() || a[k] < b[k])
}

/// Whether `k` is the first place where `a` and `b` differ: they agree
/// before it, `b` goes on there, and `a` ends or has another byte.
pub open spec fn differ_at(a: Seq<u8>, b: Seq<u8>, k: int) -> bool {
    &&& 0 <= k <= a.len()
    &&& k < b.len()
    &&& a.take(k) == b.take(k)
    &&& k < a.len() ==> a[k] != b[k]
}

/// The length of the longest run of bytes with which `a` and `b` both
/// start.
pub(crate) fn common_prefix_len(a: &[u8], b: &[u8]) -> (n: usize)
    ensures
        n <= a@.len(),
        n <= b@.len(),
        a@.take(n as int) == b@.take(n as int),
        n < a@.len() && n < b@.len() ==> a@[n as int] != b@[n as int],
{
    let mut n: usize = 0;
    while n < a.len() && n < b.len() && a[n] == b[n]
        invariant
            n <= a@.len(),
            n <= b@.len(),
            a@.take(n as int) =~= b@.take(n as int),
        decreases a@.len() - n,
    {
        n += 1;
        assert(a@.take(n as int) =~= a@.take(n - 1).push(a@[n - 1]));
        assert(b@.take(n as int) =~= b@.take(n - 1).push(b@[n - 1]));
    }
    n
}

/// Whether two runs of bytes are the same.
pub(crate) fn bytes_equal(a: &[u8], b: &[u8]) -> (same: bool)
    ensures
        same == (a@ == b@),
{
    if a.len() != b.len() {
        return false;
    }
    let n = common_prefix_len(a, b);
    proof {
        if n == a@.len() {
            assert(a@ =~= a@.take(n as int));
            assert(b@ =~= b@.take(n as int));
        }
    }
    n == a.len()
}

/// Whether `a` comes before `b` in lexicographic order.
pub(crate) fn bytes_less(a: &[u8], b: &[u8]) -> (less: bool)
    ensures
        less == lex_less(a@, b@),
{
    let n = common_prefix_len(a, b);
    let less = n < b.len() && (n == a.len() || a[n] < b[n]);
    proof {
        if less {
            assert(differ_at(a@, b@, n as int));
        } else {
            assert forall|k: int| #[trigger] differ_at(a@, b@, k) implies !(k == a@.len() || a@[k]
                < b@[k]) by {
                lemma_differ_at_is_unique(a@, b@, n as int, k);
            }
        }
    }
    less
}

/// Two runs of bytes that agree on their first `n` bytes, and then differ or
/// one of them ends, first differ at `n` if anywhere.
proof fn lemma_differ_at_is_unique(a: Seq<u8>, b: Seq<u8>, n: int, k: int)
    requires
        0 <= n <= a.len(),
        n <= b.len(),
        a.take(n) == b.take(n),
        n < a.len() && n < b.len() ==> a[n] != b[n],
        differ_at(a, b, k),
    ensures
        k == n,
{
    if k < n {
        if k < a.len() {
            assert(a[k] == a.take(n)[k]);
            assert(b[k] == b.take(n)[k]);
        }
    } else if k > n {
        assert(a[n] == a.take(k)[n]);
        assert(b[n] == b.take(k)[n]);
    }
}

} // verus!
