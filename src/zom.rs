use vstd::prelude::*;
use vstd::std_specs::iter::IteratorSpec;

use crate::std_calls::{shrink_vec, slice_iter_mut, slice_of_one, slice_of_one_mut};

verus! {

/// A collection of zero, one or many elements.
#[derive(Debug)]
pub enum Zom<T> {
    Zero,
    One(T),
    Many(Vec<T>),
}

impl<T> View for Zom<T> {
    type V = Seq<T>;

    /// The elements in order, whichever variant holds them.
    open spec fn view(&self) -> Seq<T> {
        match self {
            Zom::Zero => Seq::empty(),
            Zom::One(one) => seq![*one],
            Zom::Many(many) => many@,
        }
    }
}

impl<T> Zom<T> {
    /// Holds that no smaller variant could hold the same elements: `Many`
    /// is minimal only with two elements or more.
    pub open spec fn is_minimal(self) -> bool {
        match self {
            Zom::Many(many) => many@.len() >= 2,
            _ => true,
        }
    }

    /// What building from the items `items` gives: the same elements, in
    /// the minimal variant.
    pub open spec fn collects_to(items: Seq<T>, r: Self) -> bool {
        &&& r@ == items
        &&& r.is_minimal()
    }

    /// What `clear` makes of `self`: no element left, and `Many` stays
    /// `Many` (keeping its allocation) while the others become `Zero`.
    pub open spec fn clears_to(self, r: Self) -> bool {
        &&& r@ == Seq::<T>::empty()
        &&& (r is Many <==> self is Many)
        &&& !(self is Many) ==> r is Zero
    }

    /// What `extend` with `items` makes of `self`: nothing at all changes
    /// for no item; else the items follow the old elements, in `One` when
    /// that is the single element of an empty collection, in `Many`
    /// otherwise.
    pub open spec fn extends_to(self, items: Seq<T>, r: Self) -> bool {
        if items.len() == 0 {
            r == self
        } else {
            &&& r@ == self@ + items
            &&& (self is Zero && items.len() == 1) ==> r == Zom::One(items[0])
            &&& !(self is Zero && items.len() == 1) ==> r is Many
        }
    }

    /// What `shrink_to_fit` makes of `self`: the same elements in the
    /// minimal variant; `Zero` and `One` are left as they are.
    pub open spec fn shrinks_to(self, r: Self) -> bool {
        &&& r@ == self@
        &&& r.is_minimal()
        &&& !(self is Many) ==> r == self
    }

    /// Adds a new element at the end of the collection.
    pub fn push(&mut self, val: T)
        ensures
            final(self)@ == old(self)@.push(val),
            *old(self) is Zero ==> *final(self) == Zom::One(val),
            !(*old(self) is Zero) ==> *final(self) is Many,
    {
        if let Zom::Zero = self {
            *self = Zom::One(val);
        } else {
            self.to_vec().push(val);
        }
    }

    /// Removes the last element and returns it. A `Zom::Many` stays
    /// `Zom::Many`, whatever number of elements it is left with.
    pub fn pop(&mut self) -> (r: Option<T>)
        ensures
            old(self)@.len() == 0 ==> r is None && final(self)@ == old(self)@,
            old(self)@.len() > 0 ==> r == Some(old(self)@.last()) && final(self)@
                == old(self)@.drop_last(),
            *final(self) is Many <==> *old(self) is Many,
            !(*old(self) is Many) ==> *final(self) is Zero,
    {
        match self.take() {
            Zom::Zero => None,
            Zom::One(one) => Some(one),
            Zom::Many(mut many) => {
                let val = many.pop();
                *self = Zom::Many(many);
                val
            },
        }
    }

    /// Turns the collection into the `Zom::Many` variant and returns a
    /// mutable reference to its vector.
    pub fn to_vec(&mut self) -> (r: &mut Vec<T>)
        ensures
            r@ == old(self)@,
            *final(self) == Zom::Many(*final(r)),
    {
        let many = match self.take() {
            Zom::Zero => Vec::new(),
            Zom::One(one) => {
                let mut v = Vec::new();
                v.push(one);
                v
            },
            Zom::Many(many) => many,
        };
        *self = Zom::Many(many);
        match self {
            Zom::Many(many) => many,
            _ => {
                proof {
                    assert(false);
                }
                unreached()
            },
        }
    }

    /// Removes all the elements. A `Zom::Many` keeps its allocation.
    pub fn clear(&mut self)
        ensures
            old(self).clears_to(*final(self)),
    {
        match self {
            Zom::Many(many) => many.clear(),
            Zom::One(_) => {
                *self = Zom::Zero;
            },
            Zom::Zero => {},
        }
    }

    /// Minimizes the memory held: a `Zom::Many` with zero or one element
    /// becomes `Zom::Zero` or `Zom::One`, and a longer one drops its spare
    /// capacity.
    pub fn shrink_to_fit(&mut self)
        ensures
            old(self).shrinks_to(*final(self)),
    {
        let this = match self.take() {
            Zom::Many(mut many) => {
                if many.len() == 0 {
                    assert(many@ =~= Seq::<T>::empty());
                    Zom::Zero
                } else if many.len() == 1 {
                    let ghost before = many@;
                    match many.pop() {
                        Some(one) => {
                            assert(before =~= seq![one]);
                            Zom::One(one)
                        },
                        None => Zom::Zero,
                    }
                } else {
                    shrink_vec(&mut many);
                    Zom::Many(many)
                }
            },
            this => this,
        };
        *self = this;
    }

    /// Replaces the contents with `Zom::Zero`, returning the old value.
    pub fn take(&mut self) -> (r: Zom<T>)
        ensures
            r == *old(self),
            *final(self) == Zom::<T>::Zero,
    {
        let mut r = Zom::Zero;
        core::mem::swap(self, &mut r);
        r
    }

    /// An iterator over references to the elements, in order.
    pub fn iter(&self) -> (r: core::slice::Iter<'_, T>)
        ensures
            r.remaining() == self@.as_ref(),
    {
        self.as_slice().iter()
    }

    /// An iterator over mutable references to the elements, in order.
    /// Writing through it changes the elements in place, never their number
    /// or the variant.
    pub fn iter_mut(&mut self) -> (r: core::slice::IterMut<'_, T>)
        ensures
            final(self)@.len() == old(self)@.len(),
            *final(self) is Zero <==> *old(self) is Zero,
            *final(self) is One <==> *old(self) is One,
            *final(self) is Many <==> *old(self) is Many,
    {
        slice_iter_mut(self.as_mut_slice())
    }

    /// The elements as one contiguous slice, whichever variant holds them.
    pub fn as_slice(&self) -> (r: &[T])
        ensures
            r@ == self@,
    {
        match self {
            Zom::Zero => &[],
            Zom::One(one) => slice_of_one(one),
            Zom::Many(many) => many.as_slice(),
        }
    }

    /// The elements as one contiguous mutable slice. Writing through it
    /// changes the elements in place and never the variant.
    pub fn as_mut_slice(&mut self) -> (r: &mut [T])
        ensures
            r@ == old(self)@,
            final(self)@ == final(r)@,
            *final(self) is Zero <==> *old(self) is Zero,
            *final(self) is One <==> *old(self) is One,
            *final(self) is Many <==> *old(self) is Many,
    {
        match self {
            Zom::Zero => &mut [],
            Zom::One(one) => slice_of_one_mut(one),
            Zom::Many(many) => many.as_mut_slice(),
        }
    }

    /// Appends the items in order. With no item the collection is left
    /// exactly as it was, its variant included.
    pub fn extend(&mut self, items: Vec<T>)
        ensures
            old(self).extends_to(items@, *final(self)),
    {
        if items.len() == 0 {
            return;
        }
        let mut items = items;
        let ghost added = items@;
        let this = match self.take() {
            Zom::Zero => Zom::from_items(items),
            Zom::One(one) => {
                let mut many = Vec::with_capacity(items.len());
                many.push(one);
                many.append(&mut items);
                Zom::Many(many)
            },
            Zom::Many(mut many) => {
                many.reserve(items.len());
                many.append(&mut items);
                Zom::Many(many)
            },
        };
        proof {
            if *old(self) is Zero {
                assert(Seq::<T>::empty() + added =~= added);
            } else if *old(self) is One {
                assert(this@ =~= old(self)@ + added);
            }
        }
        *self = this;
    }

    /// Builds the collection from a vector in the minimal variant: `Zero`
    /// for no element, `One` for one, `Many` otherwise.
    pub fn from_items(items: Vec<T>) -> (r: Zom<T>)
        ensures
            Zom::collects_to(items@, r),
    {
        let mut items = items;
        if items.len() == 0 {
            assert(items@ =~= Seq::<T>::empty());
            Zom::Zero
        } else if items.len() == 1 {
            let ghost before = items@;
            match items.pop() {
                Some(one) => {
                    assert(before =~= seq![one]);
                    Zom::One(one)
                },
                None => Zom::Zero,
            }
        } else {
            Zom::Many(items)
        }
    }
}

} // verus!
