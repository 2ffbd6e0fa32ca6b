use vstd::prelude::*;

verus! {

/// Whether some element of `v` reads as the string `x`.
pub open spec fn has_str(v: Seq<String>, x: Seq<char>) -> bool {
    exists|i: int| 0 <= i < v.len() && #[trigger] v[i]@ == x
}

/// Whether the elements of `v` are pairwise different strings: `v` carries
/// a set.
pub open spec fn distinct_strs(v: Seq<String>) -> bool {
    forall|i: int, j: int| 0 <= i < j < v.len() ==> #[trigger] v[i]@ != #[trigger] v[j]@
}

/// Set insertion on a sequence of distinct strings: a no-op when an equal
/// string is already there, an append otherwise.
pub open spec fn insert_str_spec(v: Seq<String>, x: String) -> Seq<String> {
    if has_str(v, x@) {
        v
    } else {
        v.push(x)
    }
}

/// Inserting a string and then one that reads the same leaves the set
/// exactly where the first insertion put it: insertion is idempotent on
/// the string's content.
pub proof fn lemma_insert_str_idempotent(v: Seq<String>, x: String, y: String)
    requires
        x@ == y@,
    ensures
        insert_str_spec(insert_str_spec(v, x), y) == insert_str_spec(v, x),
{
    let w = insert_str_spec(v, x);
    if has_str(v, x@) {
        assert(has_str(w, y@));
    } else {
        assert(w[v.len() as int]@ == y@);
        assert(has_str(w, y@));
    }
}

/// A string enters the set exactly once and leaves it exactly once: if
/// `id` was not in `before`, was inserted, and `after` is any set that
/// lacks `id` but agrees with the inserted set on every other string —
/// what removal at settlement leaves — then `after` holds exactly the
/// strings of `before`.
pub proof fn lemma_insert_then_remove(before: Seq<String>, after: Seq<String>, id: String)
    requires
        !has_str(before, id@),
        !has_str(after, id@),
        forall|y: Seq<char>|
            y != id@ ==> has_str(after, y) == has_str(insert_str_spec(before, id), y),
    ensures
        forall|y: Seq<char>| has_str(after, y) == has_str(before, y),
{
    let inserted = insert_str_spec(before, id);
    assert(inserted == before.push(id));
    assert forall|y: Seq<char>| has_str(after, y) == has_str(before, y) by {
        if y == id@ {
        } else {
            if has_str(before, y) {
                let k = choose|k: int| 0 <= k < before.len() && #[trigger] before[k]@ == y;
                assert(inserted[k]@ == y);
                assert(has_str(inserted, y));
            }
            if has_str(inserted, y) {
                let k = choose|k: int| 0 <= k < inserted.len() && #[trigger] inserted[k]@ == y;
                assert(k < before.len());
                assert(has_str(before, y));
            }
        }
    }
}

/// Whether `v` holds an element that reads as `x`.
pub fn contains_str(v: &Vec<String>, x: &String) -> (b: bool)
    ensures
        b == has_str(v@, x@),
{
    let mut i: usize = 0;
    while i < v.len()
        invariant
            0 <= i <= v@.len(),
            forall|k: int| 0 <= k < i ==> #[trigger] v@[k]@ != x@,
        decreases v@.len() - i,
    {
        if v[i] == *x {
            assert(v@[i as int]@ == x@);
            return true;
        }
        i += 1;
    }
    false
}

/// Insert `x` unless an equal string is already present, keeping the
/// elements distinct.
pub fn insert_str(v: &mut Vec<String>, x: String)
    requires
        distinct_strs(old(v)@),
    ensures
        final(v)@ == insert_str_spec(old(v)@, x),
        distinct_strs(final(v)@),
        has_str(final(v)@, x@),
        final(v)@.len() == old(v)@.len() + (if has_str(old(v)@, x@) { 0int } else { 1int }),
        forall|y: Seq<char>| has_str(old(v)@, y) ==> has_str(final(v)@, y),
        forall|y: Seq<char>| y != x@ ==> has_str(final(v)@, y) == has_str(old(v)@, y),
{
    if !contains_str(v, &x) {
        let ghost oldv = v@;
        v.push(x);
        proof {
            assert(v@[oldv.len() as int]@ == x@);
            assert forall|y: Seq<char>| has_str(oldv, y) implies has_str(v@, y) by {
                let i = choose|i: int| 0 <= i < oldv.len() && #[trigger] oldv[i]@ == y;
                assert(v@[i]@ == y);
            }
            assert forall|y: Seq<char>| y != x@ && has_str(v@, y) implies has_str(oldv, y) by {
                let i = choose|i: int| 0 <= i < v@.len() && #[trigger] v@[i]@ == y;
                assert(i < oldv.len());
                assert(oldv[i]@ == y);
            }
        }
    }
}

/// A fresh vector holding the same strings in the same order.
pub fn copy_strs(v: &Vec<String>) -> (r: Vec<String>)
    ensures
        r@ == v@,
{
    let mut r: Vec<String> = Vec::new();
    let mut i: usize = 0;
    while i < v.len()
        invariant
            0 <= i <= v@.len(),
            r@.len() == i,
            forall|k: int| 0 <= k < i ==> #[trigger] r@[k] == v@[k],
        decreases v@.len() - i,
    {
        r.push(v[i].clone());
        i += 1;
    }
    proof {
        assert(r@ =~= v@);
    }
    r
}

/// Remove the one element that reads as `x`, if any, keeping the elements
/// distinct; every other string stays.
pub fn remove_str(v: &mut Vec<String>, x: &String)
    requires
        distinct_strs(old(v)@),
    ensures
        distinct_strs(final(v)@),
        !has_str(final(v)@, x@),
        forall|y: Seq<char>| y != x@ ==> has_str(final(v)@, y) == has_str(old(v)@, y),
        has_str(old(v)@, x@) ==> final(v)@.len() == old(v)@.len() - 1,
        !has_str(old(v)@, x@) ==> final(v)@ == old(v)@,
{
    let mut i: usize = 0;
    while i < v.len()
        invariant
            0 <= i <= v@.len(),
            v@ == old(v)@,
            distinct_strs(v@),
            forall|k: int| 0 <= k < i ==> #[trigger] v@[k]@ != x@,
        decreases v@.len() - i,
    {
        if v[i] == *x {
            let ghost oldv = v@;
            let ghost ii = i as int;
            v.remove(i);
            proof {
                assert(oldv[ii]@ == x@);
                assert(v@ == oldv.subrange(0, ii) + oldv.subrange(ii + 1, oldv.len() as int));
                assert forall|a: int| 0 <= a < v@.len() implies #[trigger] v@[a]@ == (if a < ii {
                    oldv[a]@
                } else {
                    oldv[a + 1]@
                }) by {}
                assert forall|a: int, b: int| 0 <= a < b < v@.len() implies #[trigger] v@[a]@
                    != #[trigger] v@[b]@ by {}
                assert forall|a: int| 0 <= a < v@.len() implies #[trigger] v@[a]@ != x@ by {
                    if a < ii {
                    } else {
                        assert(oldv[a + 1]@ != oldv[ii]@);
                    }
                }
                assert forall|y: Seq<char>| y != x@ && has_str(oldv, y) implies has_str(v@, y) by {
                    let k = choose|k: int| 0 <= k < oldv.len() && #[trigger] oldv[k]@ == y;
                    if k < ii {
                        assert(v@[k]@ == y);
                    } else {
                        assert(v@[k - 1]@ == y);
                    }
                }
                assert forall|y: Seq<char>| y != x@ && has_str(v@, y) implies has_str(oldv, y) by {
                    let k = choose|k: int| 0 <= k < v@.len() && #[trigger] v@[k]@ == y;
                    if k < ii {
                        assert(oldv[k]@ == y);
                    } else {
                        assert(oldv[k + 1]@ == y);
                    }
                }
            }
            return ;
        }
        i += 1;
    }
}

} // verus!
