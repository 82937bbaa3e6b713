use usql::peek::{add_scalar, multipeek, PeekIteratorExt};

#[test]
fn test_multipeek() {
    let mut iter = (0..3).multipeek();
    assert_eq!(iter.peek(), Some(&0));
    assert_eq!(iter.peek_cursor(), 0);
    assert_eq!(iter.peek(), Some(&0));
    assert_eq!(iter.peek_cursor(), 0);

    assert_eq!(iter.next(), Some(0));
    assert_eq!(iter.peek_cursor(), 0);

    assert_eq!(iter.peek_next(), Some(&1));
    assert_eq!(iter.peek_cursor(), 1);
    assert_eq!(iter.peek_next(), Some(&2));
    assert_eq!(iter.peek_cursor(), 2);
    assert_eq!(iter.peek_next(), None);
    assert_eq!(iter.peek_cursor(), 2);

    assert_eq!(iter.next(), Some(1));
    assert_eq!(iter.peek_cursor(), 0);
    assert_eq!(iter.next(), Some(2));
    assert_eq!(iter.peek_cursor(), 0);
    assert_eq!(iter.next(), None);
    assert_eq!(iter.peek_cursor(), 0);
}

#[test]
fn test_multipeek_next_if() {
    let mut iter = (0..5).multipeek();
    // The first item of the iterator is 0; consume it.
    assert_eq!(iter.next_if(|&x| x == 0), Some(0));
    // The next item returned is now 1, so `next_if` returns `None`.
    assert_eq!(iter.next_if(|&x| x == 0), None);
    // `next_if` keeps the next item when the condition does not hold.
    assert_eq!(iter.next(), Some(1));

    let mut iter = (1..20).multipeek();
    // Consume all numbers less than 10.
    while iter.next_if(|&x| x < 10).is_some() {}
    assert_eq!(iter.peek_cursor(), 0);
    // The next value returned will be 10.
    assert_eq!(iter.next(), Some(10));
    assert_eq!(iter.peek_cursor(), 0);

    let mut iter = (0..5).multipeek();
    // The first item of the iterator is 0; consume it.
    assert_eq!(iter.next_if_eq(&0), Some(0));
    assert_eq!(iter.peek_cursor(), 0);
    // The next item returned is now 1, so `next_if_eq` returns `None`.
    assert_eq!(iter.next_if_eq(&0), None);
    assert_eq!(iter.peek_cursor(), 0);
    // `next_if_eq` keeps the next item when it is not equal to `expected`.
    assert_eq!(iter.next(), Some(1));
    assert_eq!(iter.peek_cursor(), 0);
}

#[test]
fn peek_does_not_advance() {
    let mut iter = multipeek(vec!['a', 'b']);
    assert_eq!(iter.peek_next(), Some(&'a'));
    assert_eq!(iter.peek_next(), Some(&'b'));
    iter.reset_cursor();
    assert_eq!(iter.peek(), Some(&'a'));
    assert_eq!(iter.size_hint(), (2, Some(2)));
    assert_eq!(iter.next(), Some('a'));
    assert_eq!(iter.size_hint(), (1, Some(1)));
}

#[test]
fn size_hint_arithmetic() {
    assert_eq!(add_scalar((1, Some(2)), 3), (4, Some(5)));
    assert_eq!(add_scalar((usize::MAX, Some(usize::MAX)), 1), (usize::MAX, None));
    assert_eq!(add_scalar((0, None), 7), (7, None));
}

#[test]
fn peek_next_then_next_returns_the_first_item() {
    let mut iter = multipeek(vec![1, 2, 3]);
    assert_eq!(iter.peek_next(), Some(&1));
    assert_eq!(iter.peek_next(), Some(&2));
    assert_eq!(iter.next(), Some(1));
    assert_eq!(iter.next(), Some(2));
}

#[test]
fn peek_after_reset_is_next() {
    let mut iter = multipeek(vec![7, 8]);
    assert_eq!(iter.peek_next(), Some(&7));
    assert_eq!(iter.peek(), Some(&7));
    assert_eq!(iter.peek_next(), Some(&8));
    iter.reset_cursor();
    assert_eq!(iter.peek(), Some(&7));
    assert_eq!(iter.next(), Some(7));
}

#[test]
fn peek_after_next_shows_the_following_item() {
    let mut iter = multipeek(vec!['a', 'b', 'c']);
    assert_eq!(iter.next(), Some('a'));
    assert_eq!(iter.peek(), Some(&'b'));
}

#[test]
fn peek_shows_the_next_item_whatever_the_cursor() {
    let mut iter = (0..3).multipeek();
    assert_eq!(iter.next(), Some(0));
    assert_eq!(iter.peek_next(), Some(&1));
    assert_eq!(iter.peek(), Some(&1));
    assert_eq!(iter.peek_cursor(), 1);
    assert_eq!(iter.next(), Some(1));
}
