use vstd::prelude::*;
use vstd::seq_lib::lemma_multiset_commutative;

verus! {

/// Strict lexicographic order on strings, character by character: the
/// order of std's `Ord` for `str`.
pub open spec fn str_lt(a: Seq<char>, b: Seq<char>) -> bool
    decreases a.len(),
{
    if a.len() == 0 {
        b.len() > 0
    } else if b.len() == 0 {
        false
    } else if a[0] != b[0] {
        a[0] < b[0]
    } else {
        str_lt(a.drop_first(), b.drop_first())
    }
}

/// The views of a sequence of strings.
pub open spec fn views(v: Seq<String>) -> Seq<Seq<char>> {
    v.map_values(|s: String| s@)
}

/// Each string is no greater than the next.
pub open spec fn is_sorted(s: Seq<Seq<char>>) -> bool {
    forall|i: int, j: int| 0 <= i < j < s.len() ==> !str_lt(#[trigger] s[j], #[trigger] s[i])
}

pub proof fn lemma_str_lt_irreflexive(a: Seq<char>)
    ensures
        !str_lt(a, a),
    decreases a.len(),
{
    if a.len() > 0 {
        lemma_str_lt_irreflexive(a.drop_first());
    }
}

pub proof fn lemma_str_lt_transitive(a: Seq<char>, b: Seq<char>, c: Seq<char>)
    requires
        str_lt(a, b),
        str_lt(b, c),
    ensures
        str_lt(a, c),
    decreases a.len(),
{
    if a.len() > 0 && b.len() > 0 && c.len() > 0 && a[0] == b[0] && b[0] == c[0] {
        lemma_str_lt_transitive(a.drop_first(), b.drop_first(), c.drop_first());
    }
}

pub proof fn lemma_str_lt_total(a: Seq<char>, b: Seq<char>)
    requires
        a != b,
    ensures
        str_lt(a, b) || str_lt(b, a),
    decreases a.len(),
{
    if a.len() > 0 && b.len() > 0 && a[0] == b[0] {
        if a.drop_first() == b.drop_first() {
            assert(a.drop_first().len() == a.len() - 1);
            assert(b.drop_first().len() == b.len() - 1);
            assert(a =~= b) by {
                assert forall|i: int| 0 <= i < a.len() implies a[i] == b[i] by {
                    if i > 0 {
                        assert(a[i] == a.drop_first()[i - 1]);
                        assert(b[i] == b.drop_first()[i - 1]);
                    }
                }
            }
        } else {
            lemma_str_lt_total(a.drop_first(), b.drop_first());
        }
    } else if a.len() == 0 && b.len() == 0 {
        assert(a =~= b);
    }
}

/// Compares two strings in lexicographic order.
pub fn str_less(a: &str, b: &str) -> (r: bool)
    ensures
        r == str_lt(a@, b@),
{
    let la = a.unicode_len();
    let lb = b.unicode_len();
    let mut i: usize = 0;
    assert(a@.subrange(0, la as int) =~= a@);
    assert(b@.subrange(0, lb as int) =~= b@);
    while i < la && i < lb
        invariant
            la == a@.len(),
            lb == b@.len(),
            i <= la,
            i <= lb,
            str_lt(a@, b@) == str_lt(a@.subrange(i as int, la as int), b@.subrange(i as int, lb as int)),
        decreases la - i,
    {
        let ca = a.get_char(i);
        let cb = b.get_char(i);
        if ca != cb {
            return ca < cb;
        }
        assert(a@.subrange(i as int, la as int).drop_first() =~= a@.subrange(i + 1, la as int));
        assert(b@.subrange(i as int, lb as int).drop_first() =~= b@.subrange(i + 1, lb as int));
        i = i + 1;
    }
    i < lb
}

/// The same strings, in lexicographic order.
pub fn sorted_names(names: &Vec<String>) -> (r: Vec<String>)
    ensures
        views(r@).to_multiset() == views(names@).to_multiset(),
        is_sorted(views(r@)),
{
    let mut out: Vec<String> = Vec::new();
    let mut k: usize = 0;
    assert(views(names@).take(0) =~= views(out@));
    while k < names.len()
        invariant
            k <= names@.len(),
            views(out@).to_multiset() == views(names@).take(k as int).to_multiset(),
            is_sorted(views(out@)),
        decreases names@.len() - k,
    {
        let x = names[k].clone();
        let mut p: usize = 0;
        while p < out.len() && str_less(out[p].as_str(), x.as_str())
            invariant
                p <= out@.len(),
                forall|q: int| 0 <= q < p ==> str_lt(#[trigger] out@[q]@, x@),
            decreases out@.len() - p,
        {
            p = p + 1;
        }
        let ghost s = views(out@);
        proof {
            assert forall|i: int, j: int|
                0 <= i < j < s.len() + 1 implies !str_lt(
                #[trigger] s.insert(p as int, x@)[j],
                #[trigger] s.insert(p as int, x@)[i],
            ) by {
                let t = s.insert(p as int, x@);
                if j < p {
                } else if j == p {
                    assert(str_lt(s[i], x@));
                    if str_lt(x@, s[i]) {
                        lemma_str_lt_transitive(x@, s[i], x@);
                        lemma_str_lt_irreflexive(x@);
                    }
                } else if i == p {
                    // x is no greater than s[p], which is no greater than s[j - 1].
                    assert(!str_lt(s[p as int], x@));
                    if str_lt(t[j], x@) {
                        if s[j - 1] != s[p as int] {
                            if j - 1 > p {
                                lemma_str_lt_total(s[j - 1], s[p as int]);
                                lemma_str_lt_transitive(s[p as int], s[j - 1], x@);
                            }
                        }
                    }
                } else if i < p {
                    assert(str_lt(s[i], x@));
                } else {
                    assert(t[i] == s[i - 1] && t[j] == s[j - 1]);
                }
            }
            let left = s.subrange(0, p as int);
            let right = s.subrange(p as int, s.len() as int);
            assert(s =~= left + right);
            assert(s.insert(p as int, x@) =~= left + (seq![x@] + right));
            lemma_multiset_commutative(left, right);
            lemma_multiset_commutative(seq![x@], right);
            lemma_multiset_commutative(left, seq![x@] + right);
            let taken = views(names@).take(k as int);
            assert(views(names@).take(k as int + 1) =~= taken + seq![x@]);
            lemma_multiset_commutative(taken, seq![x@]);
        }
        out.insert(p, x);
        assert(views(out@) =~= s.insert(p as int, x@));
        k = k + 1;
    }
    assert(views(names@).take(k as int) =~= views(names@));
    out
}

} // verus!
