use vstd::prelude::*;

verus! {

/// Lexicographic order on byte sequences: the order of the first differing
/// byte, with a proper prefix ordered before every sequence it begins. File
/// paths are ordered by this over their UTF-8 bytes, which is also how the
/// standard library orders strings.
pub open spec fn lex_cmp_bytes(a: Seq<u8>, b: Seq<u8>) -> core::cmp::Ordering
    decreases a.len(),
{
    if a.len() == 0 && b.len() == 0 {
        core::cmp::Ordering::Equal
    } else if a.len() == 0 {
        core::cmp::Ordering::Less
    } else if b.len() == 0 {
        core::cmp::Ordering::Greater
    } else if a[0] < b[0] {
        core::cmp::Ordering::Less
    } else if a[0] > b[0] {
        core::cmp::Ordering::Greater
    } else {
        lex_cmp_bytes(a.drop_first(), b.drop_first())
    }
}

/// Two byte sequences compare as equal exactly when they are equal.
pub proof fn lemma_lex_cmp_bytes_equal(a: Seq<u8>, b: Seq<u8>)
    ensures
        lex_cmp_bytes(a, b) == core::cmp::Ordering::Equal <==> a =~= b,
    decreases a.len(),
{
    if a.len() != 0 && b.len() != 0 && a[0] == b[0] {
        lemma_lex_cmp_bytes_equal(a.drop_first(), b.drop_first());
        if a.drop_first() =~= b.drop_first() {
            assert forall|j: int| 0 <= j < a.len() implies a[j] == b[j] by {
                if j >= 1 {
                    assert(a.drop_first()[j - 1] == b.drop_first()[j - 1]);
                }
            }
            assert(a =~= b);
        }
    }
}

/// Swapping the arguments reverses the comparison: the order has no bias
/// toward either side.
pub proof fn lemma_lex_cmp_bytes_antisymmetric(a: Seq<u8>, b: Seq<u8>)
    ensures
        lex_cmp_bytes(b, a) == (match lex_cmp_bytes(a, b) {
            core::cmp::Ordering::Less => core::cmp::Ordering::Greater,
            core::cmp::Ordering::Equal => core::cmp::Ordering::Equal,
            core::cmp::Ordering::Greater => core::cmp::Ordering::Less,
        }),
    decreases a.len(),
{
    if a.len() != 0 && b.len() != 0 && a[0] == b[0] {
        lemma_lex_cmp_bytes_antisymmetric(a.drop_first(), b.drop_first());
    }
}

/// The order is transitive: a sequence below `b` lies below every sequence
/// above `b`.
pub proof fn lemma_lex_cmp_bytes_transitive(a: Seq<u8>, b: Seq<u8>, c: Seq<u8>)
    requires
        lex_cmp_bytes(a, b) == core::cmp::Ordering::Less,
        lex_cmp_bytes(b, c) == core::cmp::Ordering::Less,
    ensures
        lex_cmp_bytes(a, c) == core::cmp::Ordering::Less,
    decreases a.len() + b.len() + c.len(),
{
    if a.len() != 0 && b.len() != 0 && c.len() != 0 && a[0] == b[0] && b[0] == c[0] {
        lemma_lex_cmp_bytes_transitive(a.drop_first(), b.drop_first(), c.drop_first());
    }
}

/// Compares two byte slices in the order `lex_cmp_bytes` describes.
pub(crate) fn cmp_bytes(a: &[u8], b: &[u8]) -> (r: core::cmp::Ordering)
    ensures
        r == lex_cmp_bytes(a@, b@),
{
    proof {
        assert(a@.skip(0) =~= a@);
        assert(b@.skip(0) =~= b@);
    }
    let mut i: usize = 0;
    while i < a.len() && i < b.len()
        invariant
            i <= a@.len(),
            i <= b@.len(),
            lex_cmp_bytes(a@, b@) == lex_cmp_bytes(a@.skip(i as int), b@.skip(i as int)),
        decreases a@.len() - i,
    {
        let x = a[i];
        let y = b[i];
        if x < y {
            return core::cmp::Ordering::Less;
        }
        if x > y {
            return core::cmp::Ordering::Greater;
        }
        proof {
            assert(a@.skip(i as int).drop_first() =~= a@.skip(i as int + 1));
            assert(b@.skip(i as int).drop_first() =~= b@.skip(i as int + 1));
        }
        i = i + 1;
    }
    if a.len() == b.len() {
        core::cmp::Ordering::Equal
    } else if a.len() < b.len() {
        core::cmp::Ordering::Less
    } else {
        core::cmp::Ordering::Greater
    }
}

} // verus!
