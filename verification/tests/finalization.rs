use myvec::Vec;
use std::cell::Cell;
use std::rc::Rc;

/// An element whose finalization is observable: dropping it increments a
/// shared counter exactly once.
#[derive(Debug)]
struct Token {
    id: usize,
    drops: Rc<Cell<usize>>,
}

impl Token {
    fn new(id: usize, drops: &Rc<Cell<usize>>) -> Token {
        Token { id, drops: Rc::clone(drops) }
    }
}

impl Drop for Token {
    fn drop(&mut self) {
        self.drops.set(self.drops.get() + 1);
    }
}

#[test]
fn two_elements_finalized_exactly_once() {
    let drops: Rc<Cell<usize>> = Rc::new(Cell::new(0));
    let mut vec = Vec::new();
    vec.push(Token::new(1, &drops));
    vec.push(Token::new(2, &drops));

    assert_eq!(vec.get(1).unwrap().id, 2);
    assert_eq!(vec.capacity(), 2);
    assert_eq!(vec.len(), 2);
    assert_eq!(drops.get(), 0);

    drop(vec);
    assert_eq!(drops.get(), 2);
}

#[test]
fn iterator_left_early_finalizes_the_rest() {
    let drops: Rc<Cell<usize>> = Rc::new(Cell::new(0));
    let mut vec = Vec::new();
    vec.push(Token::new(1, &drops));
    vec.push(Token::new(2, &drops));
    vec.push(Token::new(3, &drops));

    let mut it = vec.into_iter();
    let first = it.next().unwrap();
    let third = it.next_back().unwrap();
    assert_eq!(first.id, 1);
    assert_eq!(third.id, 3);
    assert_eq!(drops.get(), 0);

    drop(it);
    assert_eq!(drops.get(), 1);

    drop(first);
    drop(third);
    assert_eq!(drops.get(), 3);
}

#[test]
fn mixed_operations_leak_nothing() {
    let drops: Rc<Cell<usize>> = Rc::new(Cell::new(0));
    let mut made: usize = 0;
    {
        let mut vec = Vec::new();
        for id in 0..5 {
            vec.push(Token::new(id, &drops));
            made += 1;
        }
        drop(vec.pop());
        vec.insert(2, Token::new(9, &drops)).unwrap();
        made += 1;
        drop(vec.remove(0));
        let mut it = vec.into_iter();
        drop(it.next());
        drop(it.next_back());
    }
    assert_eq!(drops.get(), made);
}

#[test]
fn overwritten_slots_finalize_no_extra_element() {
    let drops: Rc<Cell<usize>> = Rc::new(Cell::new(0));
    let mut vec = Vec::new();
    vec.push(Token::new(1, &drops));
    vec.push(Token::new(2, &drops));
    let popped = vec.pop().unwrap();
    assert_eq!(popped.id, 2);
    assert_eq!(drops.get(), 0);
    vec.push(Token::new(3, &drops));
    assert_eq!(drops.get(), 0);
    drop(popped);
    drop(vec);
    assert_eq!(drops.get(), 3);
}
