use vstd::prelude::*;
use core::cmp::Ordering;
use vstd::std_specs::cmp::{PartialEqSpec, PartialOrdSpec};
use vstd::std_specs::iter::IteratorSpec;

use crate::std_calls::{hash_slice, vec_capacity};
use crate::zom::Zom;

verus! {

impl<T> Default for Zom<T> {
    fn default() -> (r: Self)
        ensures
            r == Zom::<T>::Zero,
    {
        Zom::Zero
    }
}

impl<T: Clone> Clone for Zom<T> {
    fn clone(&self) -> (r: Self)
        ensures
            r@.len() == self@.len(),
            forall|i: int| 0 <= i < self@.len() ==> cloned(self@[i], #[trigger] r@[i]),
            r.is_minimal(),
    {
        match self {
            Zom::Zero => Zom::Zero,
            Zom::One(one) => Zom::One(one.clone()),
            Zom::Many(many) => {
                if many.len() == 0 {
                    Zom::Zero
                } else if many.len() == 1 {
                    Zom::One(many[0].clone())
                } else {
                    Zom::Many(many.clone())
                }
            },
        }
    }

    /// Clones `src` into `self`, reusing the vector of a `Many` where it
    /// has room for the elements or where the result needs a `Many` anyway.
    fn clone_from(&mut self, src: &Self)
        ensures
            final(self)@.len() == src@.len(),
            forall|i: int| 0 <= i < src@.len() ==> cloned(src@[i], #[trigger] final(self)@[i]),
            final(self).is_minimal() || (*old(self) is Many && *src is Many
                && *final(self) is Many),
    {
        let reuse = match (&*self, src) {
            (Zom::Many(lhs), Zom::Many(rhs)) => vec_capacity(lhs) >= rhs.len() || rhs.len() > 1,
            _ => false,
        };
        if reuse {
            match (self, src) {
                (Zom::Many(lhs), Zom::Many(rhs)) => {
                    lhs.clear();
                    lhs.extend_from_slice(rhs.as_slice());
                },
                _ => {},
            }
        } else {
            *self = src.clone();
        }
    }
}

impl<T> core::ops::Deref for Zom<T> {
    type Target = [T];

    fn deref(&self) -> (r: &[T])
        ensures
            r@ == self@,
    {
        self.as_slice()
    }
}

impl<T: PartialEq> PartialEq for Zom<T> {
    fn eq(&self, other: &Self) -> (r: bool) {
        let a = self.as_slice();
        let b = other.as_slice();
        if a.len() != b.len() {
            return false;
        }
        let mut i: usize = 0;
        while i < a.len()
            invariant
                a@ == self@,
                b@ == other@,
                a@.len() == b@.len(),
                i <= a@.len(),
                T::obeys_eq_spec() ==> forall|j: int| 0 <= j < i ==> (#[trigger] a@[j]).eq_spec(&b@[j]),
            decreases a@.len() - i,
        {
            if !(a[i] == b[i]) {
                return false;
            }
            i = i + 1;
        }
        true
    }
}

impl<T: PartialEq> vstd::std_specs::cmp::PartialEqSpecImpl for Zom<T> {
    open spec fn obeys_eq_spec() -> bool {
        T::obeys_eq_spec()
    }

    /// Equal when the elements are, pairwise, whatever the variants.
    open spec fn eq_spec(&self, other: &Self) -> bool {
        &&& self@.len() == other@.len()
        &&& forall|i: int| 0 <= i < self@.len() ==> (#[trigger] self@[i]).eq_spec(&other@[i])
    }
}

impl<T: Eq> Eq for Zom<T> {
}

/// Compares two sequences element by element with the elements' own
/// `partial_cmp`; the first pair that is not equal decides, and where one
/// sequence runs out first, the shorter comes first.
pub open spec fn lex_partial_cmp<T: PartialOrd>(a: Seq<T>, b: Seq<T>) -> Option<Ordering>
    decreases a.len(),
{
    if a.len() == 0 || b.len() == 0 {
        if a.len() < b.len() {
            Some(Ordering::Less)
        } else if a.len() == b.len() {
            Some(Ordering::Equal)
        } else {
            Some(Ordering::Greater)
        }
    } else {
        match a[0].partial_cmp_spec(&b[0]) {
            Some(Ordering::Equal) => lex_partial_cmp(a.drop_first(), b.drop_first()),
            other => other,
        }
    }
}

impl<T: PartialOrd> PartialOrd for Zom<T> {
    fn partial_cmp(&self, other: &Self) -> (r: Option<Ordering>) {
        let a = self.as_slice();
        let b = other.as_slice();
        let n = if a.len() < b.len() {
            a.len()
        } else {
            b.len()
        };
        let mut i: usize = 0;
        assert(a@.skip(0) =~= a@);
        assert(b@.skip(0) =~= b@);
        while i < n
            invariant
                a@ == self@,
                b@ == other@,
                n <= a@.len(),
                n <= b@.len(),
                n == a@.len() || n == b@.len(),
                i <= n,
                T::obeys_partial_cmp_spec() ==> lex_partial_cmp(self@, other@) == lex_partial_cmp(
                    a@.skip(i as int),
                    b@.skip(i as int),
                ),
            decreases n - i,
        {
            let c = a[i].partial_cmp(&b[i]);
            proof {
                assert(a@.skip(i as int).drop_first() =~= a@.skip(i + 1));
                assert(b@.skip(i as int).drop_first() =~= b@.skip(i + 1));
                assert(a@.skip(i as int)[0] == a@[i as int]);
                assert(b@.skip(i as int)[0] == b@[i as int]);
            }
            match c {
                Some(Ordering::Equal) => {},
                _ => {
                    return c;
                },
            }
            i = i + 1;
        }
        if a.len() < b.len() {
            Some(Ordering::Less)
        } else if a.len() == b.len() {
            Some(Ordering::Equal)
        } else {
            Some(Ordering::Greater)
        }
    }
}

impl<T: PartialOrd> vstd::std_specs::cmp::PartialOrdSpecImpl for Zom<T> {
    open spec fn obeys_partial_cmp_spec() -> bool {
        T::obeys_partial_cmp_spec()
    }

    /// Ordered as the sequences of elements are, whatever the variants.
    open spec fn partial_cmp_spec(&self, other: &Self) -> Option<Ordering> {
        lex_partial_cmp(self@, other@)
    }
}

impl<T: core::hash::Hash> core::hash::Hash for Zom<T> {
    fn hash<H: core::hash::Hasher>(&self, state: &mut H) {
        hash_slice(self.as_slice(), state)
    }
}

impl<T> AsRef<[T]> for Zom<T> {
    fn as_ref(&self) -> (r: &[T])
        ensures
            r@ == self@,
    {
        self.as_slice()
    }
}

impl<T> AsMut<[T]> for Zom<T> {
    fn as_mut(&mut self) -> (r: &mut [T])
        ensures
            r@ == old(self)@,
            final(self)@ == final(r)@,
    {
        self.as_mut_slice()
    }
}

impl<'a, T> IntoIterator for &'a Zom<T> {
    type Item = &'a T;
    type IntoIter = core::slice::Iter<'a, T>;

    fn into_iter(self) -> (r: core::slice::Iter<'a, T>)
        ensures
            r.remaining() == self@.as_ref(),
    {
        self.iter()
    }
}

impl<'a, T> IntoIterator for &'a mut Zom<T> {
    type Item = &'a mut T;
    type IntoIter = core::slice::IterMut<'a, T>;

    fn into_iter(self) -> (r: core::slice::IterMut<'a, T>)
        ensures
            final(self)@.len() == old(self)@.len(),
    {
        self.iter_mut()
    }
}

impl<T> From<T> for Zom<T> {
    fn from(one: T) -> (r: Self) {
        Zom::One(one)
    }
}

impl<T> vstd::std_specs::convert::FromSpecImpl<T> for Zom<T> {
    open spec fn obeys_from_spec() -> bool {
        true
    }

    open spec fn from_spec(one: T) -> Self {
        Zom::One(one)
    }
}

impl<T> From<Vec<T>> for Zom<T> {
    fn from(many: Vec<T>) -> (r: Self) {
        Zom::Many(many)
    }
}

impl<T> vstd::std_specs::convert::FromSpecImpl<Vec<T>> for Zom<T> {
    open spec fn obeys_from_spec() -> bool {
        true
    }

    /// A vector becomes `Many` whatever its length.
    open spec fn from_spec(many: Vec<T>) -> Self {
        Zom::Many(many)
    }
}

impl<T> core::ops::DerefMut for Zom<T> {
    fn deref_mut(&mut self) -> (r: &mut [T])
        ensures
            r@ == old(self)@,
            final(self)@ == final(r)@,
    {
        self.as_mut_slice()
    }
}

} // verus!
