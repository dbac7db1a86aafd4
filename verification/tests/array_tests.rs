use std::borrow::{Borrow, BorrowMut};
use std::rc::Rc;
use simple_array::const_array::ConstArray;
use simple_array::drain::{end_of, start_of, Bound};
use simple_array::error::CapacityError;
use simple_array::fixed_array::FixedArray;

fn filled(items: &[u32]) -> ConstArray<u32, 4> {
    let mut a: ConstArray<u32, 4> = ConstArray::new();
    for &x in items {
        a.push(x);
    }
    a
}

#[test]
fn new_array_is_empty() {
    let a: ConstArray<u32, 4> = ConstArray::new();
    assert_eq!(a.len(), 0);
    assert!(a.is_empty());
    assert!(!a.is_full());
    assert_eq!(a.capacity(), 4);
    assert_eq!(a.remaining_capacity(), 4);
}

#[test]
fn default_is_empty() {
    let a: ConstArray<u32, 2> = Default::default();
    assert!(a.is_empty());
    assert_eq!(a.as_slice(), &[] as &[u32]);
}

#[test]
fn len_and_remaining_capacity_add_up() {
    let a = filled(&[1, 2, 3]);
    assert_eq!(a.len(), 3);
    assert_eq!(a.remaining_capacity(), 1);
    assert_eq!(a.len() + a.remaining_capacity(), a.capacity());
    assert!(!a.is_empty());
    assert!(!a.is_full());
}

#[test]
fn push_fills_to_capacity() {
    let a = filled(&[1, 2, 3, 4]);
    assert!(a.is_full());
    assert_eq!(a.remaining_capacity(), 0);
    assert_eq!(a.as_slice(), &[1, 2, 3, 4]);
}

#[test]
fn pop_undoes_push() {
    let mut a = filled(&[5, 6]);
    a.push(7);
    assert_eq!(a.pop(), Some(7));
    assert_eq!(a.as_slice(), &[5, 6]);
}

#[test]
fn pop_on_empty_gives_none() {
    let mut a: ConstArray<u32, 3> = ConstArray::new();
    assert_eq!(a.pop(), None);
    assert!(a.is_empty());
}

#[test]
fn push_unchecked_appends() {
    let mut a = filled(&[1]);
    a.push_unchecked(2);
    assert_eq!(a.as_slice(), &[1, 2]);
}

#[test]
fn try_push_on_full_hands_element_back() {
    let mut a = filled(&[1, 2, 3, 4]);
    let r = a.try_push(9);
    match r {
        Err(e) => assert_eq!(e.element(), 9),
        Ok(()) => panic!("a full array took an element"),
    }
    assert_eq!(a.as_slice(), &[1, 2, 3, 4]);
}

#[test]
fn try_push_with_room_appends() {
    let mut a = filled(&[1]);
    assert!(a.try_push(2).is_ok());
    assert_eq!(a.as_slice(), &[1, 2]);
}

#[test]
fn insert_shifts_later_elements() {
    let mut a = filled(&[1, 2, 3]);
    a.insert(1, 9);
    assert_eq!(a.as_slice(), &[1, 9, 2, 3]);
}

#[test]
fn insert_at_end_appends() {
    let mut a = filled(&[1, 2]);
    a.insert(2, 3);
    assert_eq!(a.as_slice(), &[1, 2, 3]);
}

#[test]
fn remove_undoes_insert() {
    let mut a = filled(&[1, 2, 3]);
    a.insert(0, 8);
    assert_eq!(a.remove(0), 8);
    assert_eq!(a.as_slice(), &[1, 2, 3]);
}

#[test]
fn try_insert_on_full_hands_element_back() {
    let mut a = filled(&[1, 2, 3, 4]);
    match a.try_insert(2, 7) {
        Err(e) => assert_eq!(e.element(), 7),
        Ok(()) => panic!("a full array took an element"),
    }
    assert_eq!(a.as_slice(), &[1, 2, 3, 4]);
}

#[test]
fn try_insert_with_room_inserts() {
    let mut a = filled(&[1, 3]);
    assert!(a.try_insert(1, 2).is_ok());
    assert_eq!(a.as_slice(), &[1, 2, 3]);
}

#[test]
fn swap_remove_moves_last_into_the_gap() {
    let mut a = filled(&[1, 2, 3, 4]);
    assert_eq!(a.swap_remove(1), 2);
    assert_eq!(a.as_slice(), &[1, 4, 3]);
}

#[test]
fn swap_remove_of_last_element() {
    let mut a = filled(&[1, 2, 3]);
    assert_eq!(a.swap_remove(2), 3);
    assert_eq!(a.as_slice(), &[1, 2]);
}

#[test]
fn swap_remove_keeps_the_elements() {
    let mut a = filled(&[4, 3, 2, 1]);
    let x = a.swap_remove(0);
    let mut all: Vec<u32> = a.as_slice().to_vec();
    all.push(x);
    all.sort();
    assert_eq!(all, vec![1, 2, 3, 4]);
}

#[test]
fn swap_pop_out_of_bounds_gives_none() {
    let mut a = filled(&[1, 2]);
    assert_eq!(a.swap_pop(2), None);
    assert_eq!(a.as_slice(), &[1, 2]);
    assert_eq!(a.swap_pop(0), Some(1));
    assert_eq!(a.as_slice(), &[2]);
}

#[test]
fn remove_shifts_later_elements() {
    let mut a = filled(&[1, 2, 3, 4]);
    assert_eq!(a.remove(1), 2);
    assert_eq!(a.as_slice(), &[1, 3, 4]);
}

#[test]
fn pop_at_out_of_bounds_gives_none() {
    let mut a = filled(&[1, 2, 3]);
    assert_eq!(a.pop_at(3), None);
    assert_eq!(a.as_slice(), &[1, 2, 3]);
    assert_eq!(a.pop_at(0), Some(1));
    assert_eq!(a.as_slice(), &[2, 3]);
}

#[test]
fn truncate_shortens_and_longer_length_changes_nothing() {
    let mut a = filled(&[1, 2, 3, 4]);
    a.truncate(9);
    assert_eq!(a.as_slice(), &[1, 2, 3, 4]);
    a.truncate(4);
    assert_eq!(a.as_slice(), &[1, 2, 3, 4]);
    a.truncate(2);
    assert_eq!(a.as_slice(), &[1, 2]);
}

#[test]
fn clear_empties() {
    let mut a = filled(&[1, 2, 3]);
    a.clear();
    assert!(a.is_empty());
    assert_eq!(a.remaining_capacity(), 4);
}

#[test]
fn set_len_drops_the_tail() {
    let mut a = filled(&[1, 2, 3]);
    a.set_len(1);
    assert_eq!(a.as_slice(), &[1]);
}

#[test]
fn set_len_leaves_the_tail_undropped() {
    let shared = Rc::new(5u8);
    let mut a: ConstArray<Rc<u8>, 3> = ConstArray::new();
    a.push(Rc::clone(&shared));
    a.push(Rc::clone(&shared));
    a.set_len(1);
    assert_eq!(a.len(), 1);
    assert_eq!(Rc::strong_count(&shared), 3);
    a.set_length(0);
    assert_eq!(Rc::strong_count(&shared), 3);
}

#[test]
fn truncate_drops_the_tail() {
    let shared = Rc::new(5u8);
    let mut a: ConstArray<Rc<u8>, 3> = ConstArray::new();
    a.push(Rc::clone(&shared));
    a.push(Rc::clone(&shared));
    a.truncate(1);
    assert_eq!(Rc::strong_count(&shared), 2);
    a.clear();
    assert_eq!(Rc::strong_count(&shared), 1);
}

#[test]
fn retain_compacts_in_place() {
    let mut a = filled(&[1, 2, 3, 4]);
    a.retain(|x: &u32| *x != 1 && *x != 3);
    assert_eq!(a.as_slice(), &[2, 4]);
    let mut b = filled(&[5, 6, 7]);
    b.retain(|x: &u32| *x != 6);
    assert_eq!(b.as_slice(), &[5, 7]);
}

#[test]
fn as_mut_slice_keeps_the_length_so_push_still_works() {
    let mut a = filled(&[1, 2]);
    a.as_mut_slice()[0] = 9;
    a.push(3);
    assert_eq!(a.as_slice(), &[9, 2, 3]);
}

#[test]
fn drain_next_back_then_next_meet() {
    let mut a = filled(&[1, 2, 3, 4]);
    let mut d = a.drain_range(0, 4);
    assert_eq!(d.next_back(), Some(4));
    assert_eq!(d.next(), Some(1));
    assert_eq!(d.len(), 2);
    assert_eq!(d.next_back(), Some(3));
    assert_eq!(d.next_back(), Some(2));
    assert_eq!(d.next(), None);
    assert_eq!(d.next_back(), None);
    d.finish();
    assert!(a.is_empty());
}

#[test]
fn retain_keeps_order_of_kept_elements() {
    let mut a = filled(&[1, 2, 3, 4]);
    a.retain(|x: &u32| *x % 2 == 0);
    assert_eq!(a.as_slice(), &[2, 4]);
}

#[test]
fn retain_all_and_none() {
    let mut a = filled(&[1, 2, 3]);
    a.retain(|_x: &u32| true);
    assert_eq!(a.as_slice(), &[1, 2, 3]);
    a.retain(|_x: &u32| false);
    assert!(a.is_empty());
}

#[test]
fn try_extend_from_slice_with_room() {
    let mut a = filled(&[1]);
    assert!(a.try_extend_from_slice(&[2, 3, 4]).is_ok());
    assert_eq!(a.as_slice(), &[1, 2, 3, 4]);
}

#[test]
fn try_extend_from_slice_is_all_or_nothing() {
    let mut a = filled(&[1, 2]);
    let r: Result<(), CapacityError<()>> = a.try_extend_from_slice(&[3, 4, 5]);
    assert!(r.is_err());
    assert_eq!(a.as_slice(), &[1, 2]);
}

#[test]
fn extend_stops_at_capacity() {
    let mut a = filled(&[1, 2]);
    a.extend(vec![3, 4, 5, 6]);
    assert_eq!(a.as_slice(), &[1, 2, 3, 4]);
    let mut b = filled(&[1]);
    b.extend(vec![2]);
    assert_eq!(b.as_slice(), &[1, 2]);
}

#[test]
fn from_iter_takes_the_first_elements() {
    let a: ConstArray<u32, 3> = ConstArray::from_iter(vec![9, 8, 7, 6, 5]);
    assert_eq!(a.as_slice(), &[9, 8, 7]);
    let b: ConstArray<u32, 3> = ConstArray::from_iter(vec![1]);
    assert_eq!(b.as_slice(), &[1]);
}

#[test]
fn from_array_is_full() {
    let a: ConstArray<u32, 3> = ConstArray::from_array([4, 5, 6]);
    assert!(a.is_full());
    assert_eq!(a.as_slice(), &[4, 5, 6]);
}

#[test]
fn into_inner_of_full_array_gives_the_array_back() {
    let a: ConstArray<u32, 3> = ConstArray::from_array([4, 5, 6]);
    match a.into_inner() {
        Ok(arr) => assert_eq!(arr, [4, 5, 6]),
        Err(_) => panic!("a full array was refused"),
    }
    let mut b: ConstArray<String, 2> = ConstArray::new();
    b.push(String::from("x"));
    b.push(String::from("y"));
    match b.into_inner() {
        Ok(arr) => assert_eq!(arr, [String::from("x"), String::from("y")]),
        Err(_) => panic!("a full array was refused"),
    }
}

#[test]
fn into_inner_of_partial_array_gives_it_back() {
    let a = filled(&[1, 2]);
    match a.into_inner() {
        Ok(_) => panic!("a partial array was converted"),
        Err(back) => assert_eq!(back.as_slice(), &[1, 2]),
    }
}

#[test]
fn as_mut_slice_writes_through() {
    let mut a = filled(&[1, 2, 3]);
    a.as_mut_slice()[1] = 20;
    assert_eq!(a.as_slice(), &[1, 20, 3]);
    assert_eq!(a.len(), 3);
}

#[test]
fn fixed_array_trait_reads_and_shortens() {
    let mut a = filled(&[1, 2, 3]);
    assert_eq!(a.get_length(), 3);
    a.set_length(2);
    assert_eq!(a.get_length(), 2);
    assert_eq!(a.as_slice(), &[1, 2]);
}

#[test]
fn capacity_error_gives_the_element_back() {
    let e = CapacityError::new(42u8);
    assert_eq!(e.element(), 42);
}

#[test]
fn drain_middle_range() {
    let mut a = filled(&[1, 2, 3, 4]);
    let mut d = a.drain(Bound::Included(1), Bound::Excluded(3));
    assert_eq!(d.vec.as_slice(), &[1]);
    assert_eq!(d.len(), 2);
    assert_eq!(d.tail_start, 3);
    assert_eq!(d.tail_len, 1);
    assert_eq!(d.size_hint(), (2, Some(2)));
    assert_eq!(d.next(), Some(2));
    assert_eq!(d.next(), Some(3));
    assert_eq!(d.next(), None);
    assert_eq!(d.size_hint(), (0, Some(0)));
    d.finish();
    assert_eq!(a.as_slice(), &[1, 4]);
}

#[test]
fn drain_inclusive_end_and_back() {
    let mut a = filled(&[1, 2, 3, 4]);
    let mut d = a.drain(Bound::Excluded(0), Bound::Included(2));
    assert_eq!(d.vec.as_slice(), &[1]);
    assert_eq!(d.next_back(), Some(3));
    assert_eq!(d.next(), Some(2));
    assert_eq!(d.next_back(), None);
    d.finish();
    assert_eq!(a.as_slice(), &[1, 4]);
}

#[test]
fn drain_everything() {
    let mut a = filled(&[1, 2, 3]);
    let mut d = a.drain(Bound::Unbounded, Bound::Unbounded);
    assert!(d.vec.is_empty());
    assert_eq!(d.tail_len, 0);
    assert_eq!(d.next(), Some(1));
    assert_eq!(d.next_back(), Some(3));
    assert_eq!(d.next(), Some(2));
    assert_eq!(d.next(), None);
    d.finish();
    assert!(a.is_empty());
}

#[test]
fn drain_empty_range() {
    let mut a = filled(&[1, 2]);
    let mut d = a.drain_range(1, 1);
    assert_eq!(d.vec.as_slice(), &[1]);
    assert_eq!(d.len(), 0);
    assert_eq!(d.next(), None);
    d.finish();
    assert_eq!(a.as_slice(), &[1, 2]);
}

#[test]
fn finishing_drops_what_was_not_handed_out() {
    let shared = Rc::new(0u8);
    let mut a: ConstArray<Rc<u8>, 4> = ConstArray::new();
    for _ in 0..4 {
        a.push(Rc::clone(&shared));
    }
    let mut d = a.drain_range(0, 3);
    let first = d.next();
    assert!(first.is_some());
    d.finish();
    assert_eq!(a.len(), 1);
    assert_eq!(Rc::strong_count(&shared), 3);
}

#[test]
fn forgotten_drain_leaves_only_the_prefix() {
    let mut a = filled(&[1, 2, 3, 4]);
    let mut d = a.drain_range(1, 2);
    assert_eq!(d.next(), Some(2));
    std::mem::forget(d);
    assert_eq!(a.as_slice(), &[1]);
    assert_eq!(a.len(), 1);
}

#[test]
fn unfinished_drain_drops_its_tail() {
    let shared = Rc::new(0u8);
    let mut a: ConstArray<Rc<u8>, 4> = ConstArray::new();
    for _ in 0..4 {
        a.push(Rc::clone(&shared));
    }
    let d = a.drain_range(1, 2);
    drop(d);
    assert_eq!(a.len(), 1);
    assert_eq!(Rc::strong_count(&shared), 2);
}

#[test]
fn drain_reassembles() {
    let mut a = filled(&[1, 2, 3, 4]);
    let mut d = a.drain_range(1, 3);
    let mut whole: Vec<u32> = d.vec.as_slice().to_vec();
    while let Some(x) = d.next() {
        whole.push(x);
    }
    whole.extend(d.tail.iter().copied());
    d.finish();
    assert_eq!(a.as_slice(), &[1, 4]);
    assert_eq!(whole, vec![1, 2, 3, 4]);
}

#[test]
fn from_trait_and_slice_views() {
    let a: ConstArray<u32, 3> = ConstArray::from([7, 8, 9]);
    assert!(a.is_full());
    assert_eq!(a.as_ref(), &[7, 8, 9]);
    let b: &[u32] = a.borrow();
    assert_eq!(b, &[7, 8, 9]);
    assert_eq!(&*a, &[7, 8, 9]);
    assert_eq!(a.iter().sum::<u32>(), 24);
}

#[test]
fn mutable_slice_views_write_through() {
    let mut a = filled(&[1, 2, 3]);
    a.as_mut()[0] = 10;
    let s: &mut [u32] = a.borrow_mut();
    s[2] = 30;
    assert_eq!(a.as_slice(), &[10, 2, 30]);
    assert_eq!(a.len(), 3);
}

#[test]
fn fixed_array_through_a_mutable_reference() {
    let mut a = filled(&[1, 2, 3]);
    let mut r = &mut a;
    assert_eq!(FixedArray::get_length(&r), 3);
    FixedArray::set_length(&mut r, 1);
    assert_eq!(a.as_slice(), &[1]);
}

#[test]
fn bounds_saturate() {
    assert_eq!(start_of(Bound::Unbounded), 0);
    assert_eq!(start_of(Bound::Included(3)), 3);
    assert_eq!(start_of(Bound::Excluded(3)), 4);
    assert_eq!(start_of(Bound::Excluded(usize::MAX)), usize::MAX);
    assert_eq!(end_of(Bound::Unbounded, 7), 7);
    assert_eq!(end_of(Bound::Excluded(3), 7), 3);
    assert_eq!(end_of(Bound::Included(3), 7), 4);
    assert_eq!(end_of(Bound::Included(usize::MAX), 7), usize::MAX);
}

#[test]
fn zero_capacity_array() {
    let mut a: ConstArray<u32, 0> = ConstArray::new();
    assert!(a.is_full());
    assert!(a.is_empty());
    assert!(a.try_push(1).is_err());
    match a.into_inner() {
        Ok(arr) => assert_eq!(arr.len(), 0),
        Err(_) => panic!("an empty zero-capacity array is full"),
    }
}
