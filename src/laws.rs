use vstd::prelude::*;
use vstd::std_specs::cmp::PartialEqSpec;

use crate::zom::Zom;

verus! {

/// Where the elements' own `==` is plain equality, two collections are
/// equal exactly when they hold the same elements in the same order,
/// whatever their variants.
pub proof fn lemma_eq_iff_same_elements<T: PartialEq>(c1: Zom<T>, c2: Zom<T>)
    requires
        forall|x: T, y: T| #[trigger] x.eq_spec(&y) <==> x == y,
    ensures
        c1.eq_spec(&c2) <==> c1@ == c2@,
{
    if c1.eq_spec(&c2) {
        assert(c1@ =~= c2@);
    }
}

/// Building a collection from the elements of `c`, in order, gives back
/// the elements of `c`, in the variant that `shrink_to_fit` would give `c`.
pub proof fn lemma_collect_round_trip<T>(c: Zom<T>, r: Zom<T>)
    requires
        Zom::collects_to(c@, r),
    ensures
        r@ == c@,
        c.shrinks_to(r),
{
    assert(r@.len() == c@.len());
    match r {
        Zom::One(x) => {
            assert(x == r@[0]);
        },
        _ => {},
    }
}

/// `shrink_to_fit` a second time changes nothing: the elements and the
/// variant stay, and a `Zero` or a `One` stays exactly as it is.
pub proof fn lemma_shrink_idempotent<T>(a: Zom<T>, b: Zom<T>, c: Zom<T>)
    requires
        a.shrinks_to(b),
        b.shrinks_to(c),
    ensures
        c@ == b@,
        c is Many <==> b is Many,
        !(b is Many) ==> c == b,
{
}

/// `clear` followed by `shrink_to_fit` always leaves `Zero`.
pub proof fn lemma_clear_then_shrink<T>(a: Zom<T>, b: Zom<T>, c: Zom<T>)
    requires
        a.clears_to(b),
        b.shrinks_to(c),
    ensures
        c == Zom::<T>::Zero,
{
    match c {
        Zom::One(_) => {
            assert(c@.len() == 1);
        },
        _ => {},
    }
}

} // verus!
