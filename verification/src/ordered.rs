//! Lexicographic order on strings (by code point, which is the byte order
//! of their UTF-8 encoding) and sorted sets of strings.
use vstd::prelude::*;
use crate::text::{chars_of, str_eq, strings_view};

verus! {

/// `a` comes strictly before `b`.
pub open spec fn seq_lt(a: Seq<char>, b: Seq<char>) -> bool
    decreases a.len(),
{
    if a.len() == 0 {
        b.len() > 0
    } else if b.len() == 0 {
        false
    } else if a[0] != b[0] {
        a[0] < b[0]
    } else {
        seq_lt(a.drop_first(), b.drop_first())
    }
}

/// Nothing comes before itself.
pub proof fn lemma_lt_irreflexive(a: Seq<char>)
    ensures
        !seq_lt(a, a),
    decreases a.len(),
{
    if a.len() > 0 {
        lemma_lt_irreflexive(a.drop_first());
    }
}

/// The order is transitive.
pub proof fn lemma_lt_transitive(a: Seq<char>, b: Seq<char>, c: Seq<char>)
    requires
        seq_lt(a, b),
        seq_lt(b, c),
    ensures
        seq_lt(a, c),
    decreases a.len(),
{
    if a.len() > 0 && b.len() > 0 && c.len() > 0 {
        if a[0] == b[0] && b[0] == c[0] {
            lemma_lt_transitive(a.drop_first(), b.drop_first(), c.drop_first());
        }
    }
}

/// Two different strings are ordered one way or the other.
pub proof fn lemma_lt_total(a: Seq<char>, b: Seq<char>)
    ensures
        a == b || seq_lt(a, b) || seq_lt(b, a),
    decreases a.len(),
{
    if a.len() > 0 && b.len() > 0 && a[0] == b[0] {
        lemma_lt_total(a.drop_first(), b.drop_first());
        if a.drop_first() == b.drop_first() {
            assert(a =~= seq![a[0]] + a.drop_first());
            assert(b =~= seq![b[0]] + b.drop_first());
        }
    } else if a.len() == 0 && b.len() == 0 {
        assert(a =~= b);
    } else if a.len() > 0 && b.len() > 0 {
    }
}

/// Whether `a` comes strictly before `b`.
pub fn str_lt(a: &str, b: &str) -> (r: bool)
    ensures
        r == seq_lt(a@, b@),
{
    let ac = chars_of(a);
    let bc = chars_of(b);
    let mut i: usize = 0;
    assert(ac@.skip(0) =~= ac@);
    assert(bc@.skip(0) =~= bc@);
    while i < ac.len() && i < bc.len()
        invariant
            i <= ac@.len(),
            i <= bc@.len(),
            ac@ == a@,
            bc@ == b@,
            seq_lt(ac@, bc@) == seq_lt(ac@.skip(i as int), bc@.skip(i as int)),
        decreases ac@.len() - i,
    {
        if ac[i] != bc[i] {
            assert(ac@.skip(i as int)[0] == ac@[i as int]);
            assert(bc@.skip(i as int)[0] == bc@[i as int]);
            return ac[i] < bc[i];
        }
        assert(ac@.skip(i as int).drop_first() =~= ac@.skip(i + 1));
        assert(bc@.skip(i as int).drop_first() =~= bc@.skip(i + 1));
        i += 1;
    }
    i < bc.len()
}

/// Strictly increasing: sorted with no repeats.
pub open spec fn strictly_sorted(s: Seq<Seq<char>>) -> bool {
    forall|i: int, j: int| 0 <= i < j < s.len() ==> seq_lt(#[trigger] s[i], #[trigger] s[j])
}

/// Insert `x` into a strictly sorted list of strings, keeping it strictly
/// sorted; nothing happens when `x` is already there.
pub fn insert_sorted(v: &mut Vec<String>, x: String)
    requires
        strictly_sorted(strings_view(old(v)@)),
    ensures
        strictly_sorted(strings_view(final(v)@)),
        strings_view(final(v)@).to_set() == strings_view(old(v)@).to_set().insert(x@),
        strings_view(old(v)@).contains(x@) ==> final(v)@ == old(v)@,
{
    let ghost old_view = strings_view(v@);
    let mut p: usize = 0;
    while p < v.len() && str_lt(v[p].as_str(), x.as_str())
        invariant
            p <= v@.len(),
            v@ == old(v)@,
            forall|k: int| 0 <= k < p ==> seq_lt(#[trigger] v@[k]@, x@),
        decreases v@.len() - p,
    {
        p += 1;
    }
    if p < v.len() && str_eq(v[p].as_str(), x.as_str()) {
        proof {
            assert(strings_view(v@)[p as int] == x@);
            assert(strings_view(v@).to_set() =~= strings_view(v@).to_set().insert(x@));
        }
        return;
    }
    proof {
        if p < v@.len() {
            lemma_lt_total(v@[p as int]@, x@);
            assert(seq_lt(x@, v@[p as int]@));
            assert forall|j: int| p <= j < v@.len() implies seq_lt(x@, #[trigger] v@[j]@) by {
                if j > p {
                    assert(seq_lt(strings_view(v@)[p as int], strings_view(v@)[j]));
                    lemma_lt_transitive(x@, v@[p as int]@, v@[j]@);
                }
            }
        }
        if strings_view(v@).contains(x@) {
            let k = choose|k: int| 0 <= k < strings_view(v@).len() && strings_view(v@)[k] == x@;
            lemma_lt_irreflexive(x@);
            if k < p {
                assert(seq_lt(v@[k]@, x@));
            } else if k > p {
                assert(seq_lt(x@, v@[k]@));
            }
            assert(false);
        }
    }
    let ghost xv = x@;
    v.insert(p, x);
    proof {
        assert(strings_view(v@) =~= old_view.insert(p as int, xv));
        assert forall|i: int, j: int| 0 <= i < j < strings_view(v@).len() implies seq_lt(#[trigger] strings_view(v@)[i], #[trigger] strings_view(v@)[j]) by {
            if j < p {
                assert(seq_lt(old_view[i], old_view[j]));
            } else if j == p {
                assert(seq_lt(old(v)@[i]@, xv));
            } else if i == p {
                assert(seq_lt(xv, old(v)@[j - 1]@));
            } else if i < p {
                assert(seq_lt(old_view[i], old_view[j - 1]));
            } else {
                assert(seq_lt(old_view[i - 1], old_view[j - 1]));
            }
        }
        assert(strings_view(v@).to_set() =~= old_view.to_set().insert(xv)) by {
            assert forall|s: Seq<char>| strings_view(v@).to_set().contains(s) <==> old_view.to_set().insert(xv).contains(s) by {
                if strings_view(v@).contains(s) {
                    let k = choose|k: int| 0 <= k < strings_view(v@).len() && strings_view(v@)[k] == s;
                    if k < p {
                        assert(old_view[k] == s);
                    } else if k > p {
                        assert(old_view[k - 1] == s);
                    }
                }
                if old_view.contains(s) {
                    let k = choose|k: int| 0 <= k < old_view.len() && old_view[k] == s;
                    if k < p {
                        assert(strings_view(v@)[k] == s);
                    } else {
                        assert(strings_view(v@)[k + 1] == s);
                    }
                }
                if s == xv {
                    assert(strings_view(v@)[p as int] == s);
                }
            }
        }
    }
}

} // verus!
