//! An iterator adaptor that allows peeking at multiple items ahead without
//! consuming them.
use vstd::prelude::*;
use vstd::std_specs::cmp::PartialEqSpec;

verus! {

/// The abstract state of a multi-peek iterator: the items that are left, and
/// the peeking cursor (the index of the item that the next peek returns).
pub struct PeekState<T> {
    /// The items that are left, in order.
    pub items: Seq<T>,
    /// The peeking cursor.
    pub cursor: nat,
}

/// The item that `peek` returns in a state.
pub open spec fn spec_peek<T>(st: PeekState<T>) -> Option<T> {
    if st.cursor < st.items.len() {
        Some(st.items[st.cursor as int])
    } else {
        None
    }
}

/// The state after `peek_next`: the cursor moves one item ahead if there is
/// an item at the cursor.
pub open spec fn spec_peek_next_state<T>(st: PeekState<T>) -> PeekState<T> {
    if st.cursor < st.items.len() {
        PeekState { items: st.items, cursor: st.cursor + 1 }
    } else {
        st
    }
}

/// The item that `next` returns in a state.
pub open spec fn spec_next<T>(st: PeekState<T>) -> Option<T> {
    if st.items.len() > 0 {
        Some(st.items[0])
    } else {
        None
    }
}

/// The state after `next`: the first item is removed and the cursor is reset.
pub open spec fn spec_next_state<T>(st: PeekState<T>) -> PeekState<T> {
    PeekState {
        items: if st.items.len() > 0 {
            st.items.drop_first()
        } else {
            st.items
        },
        cursor: 0,
    }
}

/// `size_hint` arithmetic: adds `x` to both bounds, saturating the lower
/// bound and dropping the upper bound on overflow.
pub fn add_scalar(sh: (usize, Option<usize>), x: usize) -> (r: (usize, Option<usize>))
    ensures
        r.0 == if sh.0 + x > usize::MAX {
            usize::MAX as int
        } else {
            sh.0 + x
        },
        r.1 == match sh.1 {
            Some(hi) => if hi + x > usize::MAX {
                None
            } else {
                Some((hi + x) as usize)
            },
            None => None,
        },
{
    let (low, hi) = sh;
    let low = low.saturating_add(x);
    let hi = match hi {
        Some(elt) => elt.checked_add(x),
        None => None,
    };
    (low, hi)
}

/// An iterator adaptor that allows the user to peek at multiple `.next()`
/// values without advancing the base iterator.
#[derive(Clone, Debug)]
pub struct MultiPeek<T> {
    /// The items that are left, last item first.
    buf: Vec<T>,
    index: usize,
}

/// Creates a multi-peek iterator over the given items.
pub fn multipeek<T>(items: Vec<T>) -> (iter: MultiPeek<T>)
    ensures
        iter.state() == (PeekState { items: items@, cursor: 0 }),
        iter.wf(),
{
    let mut buf = items;
    let n = buf.len();
    let ghost orig = buf@;
    let mut rev: Vec<T> = Vec::new();
    while buf.len() > 0
        invariant
            buf.len() + rev.len() == n,
            buf@ == orig.subrange(0, buf.len() as int),
            rev@.reverse() == orig.subrange(buf.len() as int, n as int),
            orig.len() == n,
        decreases buf.len(),
    {
        let ghost b = buf@;
        let ghost r = rev@;
        let x = buf.pop().unwrap();
        rev.push(x);
        proof {
            assert(x == b[b.len() - 1]);
            assert(x == orig[buf.len() as int]);
            assert(rev@.reverse() =~= seq![x] + r.reverse());
            assert(rev@.reverse() =~= orig.subrange(buf.len() as int, n as int));
        }
    }
    assert(orig.subrange(0, n as int) =~= orig);
    MultiPeek { buf: rev, index: 0 }
}

/// An extension that turns a vector into a multi-peek iterator.
pub trait PeekIteratorExt<T> {
    /// A multi-peek iterator over the items, in order.
    fn multipeek(self) -> MultiPeek<T>;
}

impl<T> PeekIteratorExt<T> for Vec<T> {
    fn multipeek(self) -> (iter: MultiPeek<T>)
        ensures
            iter.wf(),
            iter.state() == (PeekState { items: self@, cursor: 0 }),
    {
        multipeek(self)
    }
}

impl<T> MultiPeek<T> {
    /// The abstract state of the iterator.
    pub closed spec fn state(&self) -> PeekState<T> {
        PeekState { items: self.buf@.reverse(), cursor: self.index as nat }
    }

    /// The cursor never passes the end of the items.
    pub closed spec fn wf(&self) -> bool {
        self.index <= self.buf.len()
    }

    /// A well-formed iterator's cursor is within the items.
    pub proof fn lemma_wf_cursor(&self)
        requires
            self.wf(),
        ensures
            self.state().cursor <= self.state().items.len(),
    {
    }

    /// Returns a reference to the item that `next` returns, without
    /// advancing the iterator or moving the peeking cursor.
    pub fn peek(&self) -> (r: Option<&T>)
        requires
            self.wf(),
        ensures
            r is Some <==> spec_next(self.state()) is Some,
            r matches Some(x) ==> *x == spec_next(self.state())->0,
    {
        if self.buf.len() > 0 {
            Some(&self.buf[self.buf.len() - 1])
        } else {
            None
        }
    }

    /// Returns the item at the peeking cursor and moves the cursor one item
    /// ahead, without advancing the iterator. `next` resets the cursor.
    pub fn peek_next(&mut self) -> (r: Option<&T>)
        requires
            old(self).wf(),
        ensures
            final(self).wf(),
            final(self).state() == spec_peek_next_state(old(self).state()),
            r is Some <==> spec_peek(old(self).state()) is Some,
            r matches Some(x) ==> *x == spec_peek(old(self).state())->0,
    {
        if self.index < self.buf.len() {
            let k = self.buf.len() - 1 - self.index;
            self.index = self.index + 1;
            Some(&self.buf[k])
        } else {
            None
        }
    }

    /// Resets the peeking cursor.
    pub fn reset_cursor(&mut self)
        requires
            old(self).wf(),
        ensures
            final(self).wf(),
            final(self).state() == (PeekState { items: old(self).state().items, cursor: 0 }),
    {
        self.index = 0;
    }

    /// Returns the peeking cursor.
    pub fn peek_cursor(&self) -> (c: usize)
        ensures
            c == self.state().cursor,
    {
        self.index
    }

    /// Consumes and returns the next item, and resets the peeking cursor.
    pub fn next(&mut self) -> (r: Option<T>)
        requires
            old(self).wf(),
        ensures
            final(self).wf(),
            r == spec_next(old(self).state()),
            final(self).state() == spec_next_state(old(self).state()),
    {
        self.index = 0;
        let r = self.buf.pop();
        proof {
            assert(self.buf@.reverse() =~= spec_next_state(old(self).state()).items);
        }
        r
    }

    /// The number of items that are left, as lower and upper bound.
    pub fn size_hint(&self) -> (r: (usize, Option<usize>))
        ensures
            r == (self.state().items.len() as usize, Some(self.state().items.len() as usize)),
    {
        add_scalar((0, Some(0)), self.buf.len())
    }

    /// Consumes and returns the next item if `func` holds of it;
    /// otherwise returns `None` and leaves the iterator as it is.
    pub fn next_if<F: FnOnce(&T) -> bool>(&mut self, func: F) -> (r: Option<T>)
        requires
            old(self).wf(),
            forall|x: &T| call_requires(func, (x,)),
        ensures
            final(self).wf(),
            r is Some ==> spec_next(old(self).state()) is Some && call_ensures(
                func,
                (&spec_next(old(self).state())->0,),
                true,
            ) && r == spec_next(old(self).state()) && final(self).state() == spec_next_state(
                old(self).state(),
            ),
            r is None ==> final(self).state() == old(self).state() && (spec_next(old(self).state()) is None
                || call_ensures(func, (&spec_next(old(self).state())->0,), false)),
    {
        let matched = match self.peek() {
            Some(x) => func(x),
            None => false,
        };
        if matched {
            self.next()
        } else {
            None
        }
    }
}

impl<T: PartialEq> MultiPeek<T> {
    /// Consumes and returns the next item if it equals `expected`; otherwise
    /// returns `None` and leaves the iterator as it is.
    pub fn next_if_eq(&mut self, expected: &T) -> (r: Option<T>)
        requires
            old(self).wf(),
        ensures
            final(self).wf(),
            r is Some ==> spec_next(old(self).state()) is Some && r == spec_next(old(self).state())
                && final(self).state() == spec_next_state(old(self).state()),
            r is None ==> final(self).state() == old(self).state(),
            T::obeys_eq_spec() ==> (r is Some <==> (spec_next(old(self).state()) matches Some(x)
                && x.eq_spec(expected))),
    {
        let matched = match self.peek() {
            Some(x) => *x == *expected,
            None => false,
        };
        if matched {
            self.next()
        } else {
            None
        }
    }
}

/// The integers from `start` up to but not including `end`, in order.
pub open spec fn range_items(start: i32, end: i32) -> Seq<i32> {
    Seq::new(if start < end { (end - start) as nat } else { 0 }, |k: int| (start + k) as i32)
}

impl PeekIteratorExt<i32> for core::ops::Range<i32> {
    fn multipeek(self) -> (iter: MultiPeek<i32>)
        ensures
            iter.wf(),
            iter.state() == (PeekState { items: range_items(self.start, self.end), cursor: 0 }),
    {
        let mut items: Vec<i32> = Vec::new();
        let mut i: i32 = self.start;
        while i < self.end
            invariant
                self.start <= i,
                self.start < self.end ==> i <= self.end,
                self.start >= self.end ==> i == self.start,
                items@ == range_items(self.start, i),
            decreases self.end - i,
        {
            assert(range_items(self.start, (i + 1) as i32) =~= range_items(self.start, i).push(i));
            items.push(i);
            i = i + 1;
        }
        assert(items@ =~= range_items(self.start, self.end));
        multipeek(items)
    }
}

/// Peeking never advances the iterator: after any number of `peek_next`
/// calls, `next` returns the same item and leaves the same items as it would
/// have without them.
pub proof fn law_peek_next_does_not_advance<T>(st: PeekState<T>)
    ensures
        spec_peek_next_state(st).items == st.items,
        spec_next(spec_peek_next_state(st)) == spec_next(st),
        spec_next_state(spec_peek_next_state(st)) == spec_next_state(st),
{
}

/// With the cursor reset, `peek_next` returns the item that `next` returns.
pub proof fn law_peek_after_reset_is_next<T>(st: PeekState<T>)
    ensures
        spec_peek(PeekState { items: st.items, cursor: 0 }) == spec_next(st),
{
}

/// After `next` the cursor is reset, so a following `peek_next` shows the
/// item after the one that was returned.
pub proof fn law_peek_after_next<T>(st: PeekState<T>)
    requires
        st.items.len() > 1,
    ensures
        spec_peek(spec_next_state(st)) == Some(st.items[1]),
{
}

} // verus!
