use vstd::prelude::*;

use crate::std_calls::{slice_of_one, slice_of_one_mut};
use crate::zom::Zom;

verus! {

/// The consuming iterator of a `Zom`, made by `Zom::into_iter`.
#[derive(Debug)]
pub struct IntoIter<T> {
    inner: IntoIterInner<T>,
}

/// What an `IntoIter` has left: nothing, one element, or the rest of a
/// vector.
#[derive(Debug)]
enum IntoIterInner<T> {
    Zero,
    One(T),
    Many(Vec<T>),
}

impl<T> View for IntoIter<T> {
    type V = Seq<T>;

    /// The elements not handed out yet, in order.
    closed spec fn view(&self) -> Seq<T> {
        match self.inner {
            IntoIterInner::Zero => Seq::empty(),
            IntoIterInner::One(one) => seq![one],
            IntoIterInner::Many(many) => many@,
        }
    }
}

impl<T> IntoIter<T> {
    /// Hands out the next element; once none is left it stays empty.
    pub fn next(&mut self) -> (r: Option<T>)
        ensures
            old(self)@.len() == 0 ==> r is None && final(self)@ == old(self)@,
            old(self)@.len() > 0 ==> r == Some(old(self)@[0]) && final(self)@
                == old(self)@.drop_first(),
    {
        let mut inner = IntoIterInner::Zero;
        core::mem::swap(&mut self.inner, &mut inner);
        match inner {
            IntoIterInner::Zero => None,
            IntoIterInner::One(one) => {
                assert(seq![one].drop_first() =~= Seq::<T>::empty());
                Some(one)
            },
            IntoIterInner::Many(mut many) => {
                let next = if many.len() > 0 {
                    Some(many.remove(0))
                } else {
                    None
                };
                self.inner = IntoIterInner::Many(many);
                next
            },
        }
    }

    /// The number of elements left.
    pub fn len(&self) -> (r: usize)
        ensures
            r == self@.len(),
    {
        self.as_slice().len()
    }

    /// The bounds on the number of elements left: both are exact.
    pub fn size_hint(&self) -> (r: (usize, Option<usize>))
        ensures
            r == (self@.len() as usize, Some(self@.len() as usize)),
    {
        let len = self.len();
        (len, Some(len))
    }

    /// The elements left, as a slice.
    pub fn as_slice(&self) -> (r: &[T])
        ensures
            r@ == self@,
    {
        match &self.inner {
            IntoIterInner::Zero => &[],
            IntoIterInner::One(one) => slice_of_one(one),
            IntoIterInner::Many(many) => many.as_slice(),
        }
    }

    /// The elements left, as a mutable slice. Writing through it changes
    /// the elements that are still to come.
    pub fn as_mut_slice(&mut self) -> (r: &mut [T])
        ensures
            r@ == old(self)@,
            final(self)@ == final(r)@,
    {
        match &mut self.inner {
            IntoIterInner::Zero => &mut [],
            IntoIterInner::One(one) => slice_of_one_mut(one),
            IntoIterInner::Many(many) => many.as_mut_slice(),
        }
    }
}

impl<T> Zom<T> {
    /// Consumes the collection into an iterator that hands out its elements
    /// in order.
    pub fn into_iter(self) -> (r: IntoIter<T>)
        ensures
            r@ == self@,
    {
        let inner = match self {
            Zom::Zero => IntoIterInner::Zero,
            Zom::One(one) => IntoIterInner::One(one),
            Zom::Many(many) => IntoIterInner::Many(many),
        };
        IntoIter { inner }
    }
}

} // verus!
