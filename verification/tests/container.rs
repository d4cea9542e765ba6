use myvec::OutOfBounds;
use myvec::Vec;

#[test]
fn it_works() {
    let mut vec = Vec::new();
    vec.push(1usize);
    vec.push(2);
    vec.push(3);
    vec.push(4);
    vec.push(5);

    assert_eq!(vec.capacity(), 8);
    assert_eq!(vec.len(), 5);
}

#[test]
fn new_is_empty() {
    let vec = Vec::<usize>::new();
    assert_eq!(vec.capacity(), 0);
    assert_eq!(vec.len(), 0);
    assert_eq!(vec.get(0), None);
}

#[test]
fn push_five_then_get() {
    let mut vec = Vec::new();
    vec.push(1usize);
    vec.push(2);
    vec.push(3);
    vec.push(4);
    vec.push(5);

    assert_eq!(vec.capacity(), 8);
    assert_eq!(vec.len(), 5);
    assert_eq!(vec.get(3), Some(&4));
}

#[test]
fn push_then_pop_returns_value() {
    let mut vec = Vec::new();
    vec.push(10usize);
    vec.push(20);
    let len_before: usize = vec.len();
    vec.push(99);
    assert_eq!(vec.pop(), Some(99));
    assert_eq!(vec.len(), len_before);
    assert_eq!(vec.get(0), Some(&10));
    assert_eq!(vec.get(1), Some(&20));
}

#[test]
fn pop_on_empty_is_none() {
    let mut vec = Vec::<usize>::new();
    assert_eq!(vec.pop(), None);
    vec.push(7);
    assert_eq!(vec.pop(), Some(7));
    assert_eq!(vec.pop(), None);
    assert_eq!(vec.len(), 0);
}

#[test]
fn capacity_growth_sequence() {
    let mut vec = Vec::new();
    let expected: [usize; 10] = [1, 2, 4, 4, 8, 8, 8, 8, 16, 16];
    assert_eq!(vec.capacity(), 0);
    for k in 0..expected.len() {
        vec.push(k);
        assert_eq!(vec.capacity(), expected[k]);
        assert_eq!(vec.len(), k + 1);
    }
}

#[test]
fn insert_shifts_right() {
    let mut vec = Vec::new();
    vec.push(1usize);
    vec.push(2);
    vec.push(3);
    assert_eq!(vec.insert(1, 9), Ok(()));
    assert_eq!(vec.len(), 4);
    assert_eq!(vec.get(0), Some(&1));
    assert_eq!(vec.get(1), Some(&9));
    assert_eq!(vec.get(2), Some(&2));
    assert_eq!(vec.get(3), Some(&3));
}

#[test]
fn insert_at_ends() {
    let mut vec = Vec::new();
    assert_eq!(vec.insert(0, 5usize), Ok(()));
    assert_eq!(vec.insert(1, 6), Ok(()));
    assert_eq!(vec.insert(0, 4), Ok(()));
    assert_eq!(vec.get(0), Some(&4));
    assert_eq!(vec.get(1), Some(&5));
    assert_eq!(vec.get(2), Some(&6));
}

#[test]
fn insert_out_of_bounds() {
    let mut vec = Vec::new();
    vec.push(1usize);
    vec.push(2);
    assert_eq!(vec.insert(3, 9), Err(OutOfBounds));
    assert_eq!(vec.len(), 2);
    assert_eq!(vec.get(0), Some(&1));
    assert_eq!(vec.get(1), Some(&2));
}

#[test]
fn remove_closes_gap() {
    let mut vec = Vec::new();
    vec.push(1usize);
    vec.push(2);
    vec.push(3);
    assert_eq!(vec.remove(0), Ok(1));
    assert_eq!(vec.len(), 2);
    assert_eq!(vec.get(0), Some(&2));
    assert_eq!(vec.get(1), Some(&3));
}

#[test]
fn remove_out_of_bounds() {
    let mut vec = Vec::new();
    vec.push(1usize);
    assert_eq!(vec.remove(1), Err(OutOfBounds));
    assert_eq!(vec.remove(7), Err(OutOfBounds));
    assert_eq!(vec.len(), 1);
    assert_eq!(vec.get(0), Some(&1));
}

#[test]
fn remove_then_insert_restores() {
    let mut vec = Vec::new();
    vec.push(1usize);
    vec.push(2);
    vec.push(3);
    vec.push(4);
    let removed: usize = vec.remove(1).unwrap();
    assert_eq!(removed, 2);
    assert_eq!(vec.insert(1, removed), Ok(()));
    assert_eq!(vec.len(), 4);
    assert_eq!(vec.get(0), Some(&1));
    assert_eq!(vec.get(1), Some(&2));
    assert_eq!(vec.get(2), Some(&3));
    assert_eq!(vec.get(3), Some(&4));
}

#[test]
fn get_never_fails_out_of_range() {
    let mut vec = Vec::new();
    vec.push(1usize);
    vec.push(2);
    assert_eq!(vec.get(2), None);
    assert_eq!(vec.get(usize::MAX), None);
    assert_eq!(vec.get(1), Some(&2));
}

#[test]
fn index_direct_form() {
    let mut vec = Vec::new();
    vec.push(10usize);
    vec.push(20);
    assert_eq!(vec.index(0), &10);
    assert_eq!(vec.index(1), &20);
}

#[test]
fn reuse_after_emptying() {
    let mut vec = Vec::new();
    vec.push(1usize);
    vec.push(2);
    assert_eq!(vec.pop(), Some(2));
    assert_eq!(vec.pop(), Some(1));
    assert_eq!(vec.len(), 0);
    assert_eq!(vec.capacity(), 2);
    vec.push(8);
    assert_eq!(vec.len(), 1);
    assert_eq!(vec.capacity(), 2);
    assert_eq!(vec.get(0), Some(&8));
}

#[test]
fn iterator_forward_only() {
    let mut vec = Vec::new();
    vec.push(1usize);
    vec.push(2);
    vec.push(3);
    let mut it = vec.into_iter();
    assert_eq!(it.next(), Some(1));
    assert_eq!(it.next(), Some(2));
    assert_eq!(it.next(), Some(3));
    assert_eq!(it.next(), None);
    assert_eq!(it.next_back(), None);
}

#[test]
fn iterator_interleaved_yields_each_once() {
    let mut vec = Vec::new();
    vec.push(1usize);
    vec.push(2);
    vec.push(3);
    vec.push(4);
    let mut it = vec.into_iter();
    let mut front: std::vec::Vec<usize> = std::vec::Vec::new();
    let mut back: std::vec::Vec<usize> = std::vec::Vec::new();
    front.push(it.next().unwrap());
    back.push(it.next_back().unwrap());
    front.push(it.next().unwrap());
    back.push(it.next_back().unwrap());
    assert_eq!(it.next(), None);
    assert_eq!(it.next_back(), None);
    assert_eq!(front, vec![1, 2]);
    assert_eq!(back, vec![4, 3]);
    back.reverse();
    front.extend(back);
    assert_eq!(front, vec![1, 2, 3, 4]);
}
