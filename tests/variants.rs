use std::cmp::Ordering;
use std::hash::{Hash, Hasher};

use zom::{IntoIter, Zom};

fn is_zero<T>(z: &Zom<T>) -> bool {
    matches!(z, Zom::Zero)
}

fn is_one<T>(z: &Zom<T>) -> bool {
    matches!(z, Zom::One(_))
}

fn is_many<T>(z: &Zom<T>) -> bool {
    matches!(z, Zom::Many(_))
}

#[test]
fn slice_view_flattens_each_variant() {
    let zero: Zom<u8> = Zom::Zero;
    let one = Zom::One(7u8);
    let many = Zom::Many(vec![1u8, 2, 3]);
    assert_eq!(zero.as_slice(), &[] as &[u8]);
    assert_eq!(one.as_slice(), &[7u8]);
    assert_eq!(many.as_slice(), &[1u8, 2, 3]);
    assert_eq!(&*one, &[7u8]);
}

#[test]
fn equality_ignores_variant() {
    assert_eq!(Zom::One(3), Zom::Many(vec![3]));
    assert_eq!(Zom::<i32>::Zero, Zom::Many(vec![]));
    assert_ne!(Zom::One(3), Zom::Many(vec![3, 3]));
    assert_ne!(Zom::One(3), Zom::One(4));
    assert_ne!(Zom::<i32>::Zero, Zom::One(0));
}

#[test]
fn round_trip_through_iter() {
    let cases = vec![Zom::Zero, Zom::One(5), Zom::Many(vec![]), Zom::Many(vec![1]), Zom::Many(vec![1, 2, 3])];
    for c in cases {
        let back = Zom::from_items(c.iter().cloned().collect());
        assert_eq!(back, c);
        assert_eq!(back.as_slice(), c.as_slice());
    }
}

#[test]
fn shrink_twice_same_as_once() {
    let mut a = Zom::Many(vec![4, 5, 6]);
    a.shrink_to_fit();
    assert_eq!(a, Zom::Many(vec![4, 5, 6]));
    assert!(is_many(&a));
    a.shrink_to_fit();
    assert_eq!(a.as_slice(), &[4, 5, 6]);
    assert!(is_many(&a));

    let mut b = Zom::Many(vec![9]);
    b.shrink_to_fit();
    assert!(is_one(&b));
    b.shrink_to_fit();
    assert!(is_one(&b));
    assert_eq!(b.as_slice(), &[9]);
}

#[test]
fn clear_then_shrink_is_zero() {
    for mut c in vec![Zom::Zero, Zom::One(1), Zom::Many(vec![]), Zom::Many(vec![1, 2])] {
        c.clear();
        assert!(c.as_slice().is_empty());
        c.shrink_to_fit();
        assert!(is_zero(&c));
    }
}

#[test]
fn clear_keeps_many_and_empties_one() {
    let mut one = Zom::One(1);
    one.clear();
    assert!(is_zero(&one));
    let mut many = Zom::Many(vec![1, 2]);
    many.clear();
    assert!(is_many(&many));
    assert!(many.as_slice().is_empty());
}

#[test]
fn pop_does_not_collapse() {
    let mut z = pushed_onto_zero(&[0, 1, 2]);
    assert!(is_many(&z));
    assert_eq!(z.pop(), Some(2));
    assert_eq!(z.pop(), Some(1));
    assert_eq!(z.pop(), Some(0));
    assert!(is_many(&z));
    assert_eq!(z.pop(), None);
    assert!(is_many(&z));
    let mut one = Zom::One(8);
    assert_eq!(one.pop(), Some(8));
    assert!(is_zero(&one));
    let mut zero: Zom<i32> = Zom::Zero;
    assert_eq!(zero.pop(), None);
    assert!(is_zero(&zero));
}

fn pushed_onto_zero(items: &[i32]) -> Zom<i32> {
    let mut z = Zom::Zero;
    for &i in items {
        z.push(i);
    }
    z
}

#[test]
fn extend_with_nothing_changes_nothing() {
    let mut zero: Zom<i32> = Zom::Zero;
    zero.extend(vec![]);
    assert!(is_zero(&zero));
    let mut one = Zom::One(1);
    one.extend(vec![]);
    assert!(is_one(&one));
    let mut empty_many: Zom<i32> = Zom::Many(vec![]);
    empty_many.extend(vec![]);
    assert!(is_many(&empty_many));
    assert!(empty_many.as_slice().is_empty());
}

#[test]
fn extend_appends_every_item() {
    let mut zero: Zom<i32> = Zom::Zero;
    zero.extend(vec![1, 2, 3]);
    assert!(is_many(&zero));
    assert_eq!(zero.as_slice(), &[1, 2, 3]);
    let mut one = Zom::One(0);
    one.extend(vec![1]);
    assert!(is_many(&one));
    assert_eq!(one.as_slice(), &[0, 1]);
    let mut many = Zom::Many(vec![]);
    many.extend(vec![4]);
    assert!(is_many(&many));
    assert_eq!(many.as_slice(), &[4]);
}

#[test]
fn collecting_picks_minimal_variant() {
    let none: Zom<i32> = Zom::from_items(vec![]);
    assert!(is_zero(&none));
    let single = Zom::from_items(vec![4]);
    assert!(is_one(&single));
    assert_eq!(single.as_slice(), &[4]);
    let several = Zom::from_items(vec![4, 5, 6]);
    match &several {
        Zom::Many(v) => {
            assert_eq!(v, &vec![4, 5, 6]);
            assert!(v.capacity() >= 3);
        }
        _ => panic!("expected Many"),
    }
}

#[test]
fn clone_gives_minimal_variant() {
    let empty: Zom<i32> = Zom::Many(vec![]);
    assert!(is_zero(&empty.clone()));
    let single = Zom::Many(vec![5]).clone();
    assert!(is_one(&single));
    assert_eq!(single.as_slice(), &[5]);
    let pair = Zom::Many(vec![5, 6]).clone();
    assert!(is_many(&pair));
    assert_eq!(pair.as_slice(), &[5, 6]);
    assert_eq!(Zom::One(String::from("a")).clone(), Zom::One(String::from("a")));
}

#[test]
fn conversions_keep_the_vector_as_it_is() {
    let from_empty: Zom<i32> = Zom::from(Vec::new());
    assert!(is_many(&from_empty));
    let from_one: Zom<i32> = Zom::from(vec![1]);
    assert!(is_many(&from_one));
    let from_value: Zom<i32> = Zom::from(3);
    assert!(is_one(&from_value));
    let default: Zom<i32> = Zom::default();
    assert!(is_zero(&default));
}

#[test]
fn to_vec_switches_to_many() {
    let mut z = Zom::One(1);
    z.to_vec().push(2);
    assert!(is_many(&z));
    assert_eq!(z.as_slice(), &[1, 2]);
    let mut zero: Zom<i32> = Zom::Zero;
    assert!(zero.to_vec().is_empty());
    assert!(is_many(&zero));
}

#[test]
fn take_leaves_zero() {
    let mut z = Zom::Many(vec![1, 2]);
    let old = z.take();
    assert!(is_zero(&z));
    assert_eq!(old.as_slice(), &[1, 2]);
}

#[test]
fn mutable_slice_writes_through() {
    let mut one = Zom::One(1);
    one.as_mut_slice()[0] = 10;
    assert!(is_one(&one));
    assert_eq!(one.as_slice(), &[10]);
    let mut many = Zom::Many(vec![1, 2]);
    many.as_mut_slice()[1] = 20;
    assert_eq!(many.as_slice(), &[1, 20]);
    for x in many.iter_mut() {
        *x += 1;
    }
    assert_eq!(many.as_slice(), &[2, 21]);
}

#[test]
fn into_iter_yields_each_once_in_order() {
    let mut it: IntoIter<i32> = Zom::Many(vec![1, 2, 3]).into_iter();
    assert_eq!(it.len(), 3);
    assert_eq!(it.size_hint(), (3, Some(3)));
    assert_eq!(it.next(), Some(1));
    assert_eq!(it.as_slice(), &[2, 3]);
    it.as_mut_slice()[0] = 20;
    assert_eq!(it.next(), Some(20));
    assert_eq!(it.next(), Some(3));
    assert_eq!(it.next(), None);
    assert_eq!(it.next(), None);
    assert_eq!(it.len(), 0);

    let mut one = Zom::One(4).into_iter();
    assert_eq!(one.as_slice(), &[4]);
    assert_eq!(one.next(), Some(4));
    assert_eq!(one.next(), None);

    let mut zero = Zom::<i32>::Zero.into_iter();
    assert_eq!(zero.len(), 0);
    assert_eq!(zero.next(), None);
}

fn hash_of(z: &Zom<i32>) -> u64 {
    let mut h = std::collections::hash_map::DefaultHasher::new();
    z.hash(&mut h);
    h.finish()
}

#[test]
fn hash_ignores_variant() {
    assert_eq!(hash_of(&Zom::One(3)), hash_of(&Zom::Many(vec![3])));
    assert_eq!(hash_of(&Zom::Zero), hash_of(&Zom::Many(vec![])));
    assert_eq!(hash_of(&Zom::Many(vec![1, 2])), hash_of(&Zom::from_items(vec![1, 2])));
}

#[test]
fn order_follows_elements() {
    assert_eq!(Zom::One(3).partial_cmp(&Zom::Many(vec![3])), Some(Ordering::Equal));
    assert_eq!(Zom::<i32>::Zero.partial_cmp(&Zom::One(0)), Some(Ordering::Less));
    assert_eq!(Zom::Many(vec![1, 2]).partial_cmp(&Zom::One(1)), Some(Ordering::Greater));
    assert_eq!(Zom::Many(vec![1, 5]).partial_cmp(&Zom::Many(vec![2])), Some(Ordering::Less));
    assert!(Zom::One(2) > Zom::Many(vec![1, 9, 9]));
}

#[test]
fn clone_from_reuses_or_collapses() {
    let mut target = Zom::Many(vec![0, 0, 0]);
    target.clone_from(&Zom::Many(vec![7]));
    assert!(is_many(&target));
    assert_eq!(target.as_slice(), &[7]);

    let mut target = Zom::One(1);
    target.clone_from(&Zom::Many(vec![7]));
    assert!(is_one(&target));
    assert_eq!(target.as_slice(), &[7]);

    let mut target = Zom::Zero;
    target.clone_from(&Zom::Many(vec![7, 8]));
    assert!(is_many(&target));
    assert_eq!(target.as_slice(), &[7, 8]);

    let mut target = Zom::Many(vec![1, 2]);
    target.clone_from(&Zom::Zero);
    assert!(is_zero(&target));
}

#[test]
fn borrowed_iteration_in_order() {
    let mut z = Zom::Many(vec![1, 2, 3]);
    let mut seen = Vec::new();
    for x in &z {
        seen.push(*x);
    }
    assert_eq!(seen, vec![1, 2, 3]);
    for x in &mut z {
        *x *= 10;
    }
    assert_eq!(z.as_ref(), &[10, 20, 30]);
    z.as_mut()[0] = 5;
    assert_eq!(z.iter().copied().collect::<Vec<_>>(), vec![5, 20, 30]);
}
