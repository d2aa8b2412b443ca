//! Cursors: single-pass sources that yield one element per pull.

use vstd::prelude::*;

verus! {

/// A single-pass source of elements: each pull yields the next element or
/// reports that none is left.
pub trait Cursor: Sized {
    type Item;

    /// The elements still to be yielded, in the order they will come.
    spec fn rest(&self) -> Seq<Self::Item>;

    /// The size estimate that `size_hint` reports.
    spec fn hint(&self) -> (usize, Option<usize>);

    /// Whether the cursor is known to have nothing left; from then on a pull
    /// changes nothing.
    spec fn exhausted(&self) -> bool;

    /// An exhausted cursor has no element left.
    proof fn lemma_exhausted_is_empty(&self)
        ensures
            self.exhausted() ==> self.rest().len() == 0,
    ;

    /// Tells whether the cursor is exhausted, without pulling.
    fn is_exhausted(&self) -> (r: bool)
        ensures
            r == self.exhausted(),
    ;

    /// Yields the first remaining element, or `None` once nothing is left;
    /// an exhausted cursor stays exhausted and is left as it is.
    fn pull(&mut self) -> (r: Option<Self::Item>)
        ensures
            old(self).exhausted() ==> r is None && *final(self) == *old(self),
            r is None ==> final(self).exhausted(),
            old(self).rest().len() == 0 ==> r is None && final(self).rest().len() == 0,
            old(self).rest().len() > 0 ==> r == Some(old(self).rest()[0])
                && final(self).rest() == old(self).rest().drop_first(),
    ;

    /// A lower bound and an optional upper bound on the number of elements left.
    fn size_hint(&self) -> (r: (usize, Option<usize>))
        ensures
            r == self.hint(),
            r.0 <= self.rest().len(),
            r.1 matches Some(u) ==> self.rest().len() <= u,
    ;
}

/// A cursor that owns the elements of a vector and yields them by value.
#[derive(Clone)]
pub struct VecCursor<T> {
    /// The remaining elements, last one first, so that a pull is a pop.
    pending: Vec<T>,
}

impl<T> VecCursor<T> {
    /// Takes ownership of `items`; no element is yielded before the first pull.
    pub fn new(items: Vec<T>) -> (r: Self)
        ensures
            r.rest() == items@,
    {
        let ghost all = items@;
        let mut items = items;
        let mut pending: Vec<T> = Vec::new();
        while items.len() > 0
            invariant
                items@ + pending@.reverse() == all,
            decreases items.len(),
        {
            let x = items.pop().unwrap();
            proof {
                assert(pending@.push(x).reverse() =~= seq![x] + pending@.reverse());
            }
            pending.push(x);
        }
        assert(items@ + pending@.reverse() =~= pending@.reverse());
        VecCursor { pending }
    }
}

impl<T> Cursor for VecCursor<T> {
    type Item = T;

    closed spec fn rest(&self) -> Seq<T> {
        self.pending@.reverse()
    }

    open spec fn hint(&self) -> (usize, Option<usize>) {
        (self.rest().len() as usize, Some(self.rest().len() as usize))
    }

    open spec fn exhausted(&self) -> bool {
        self.rest().len() == 0
    }

    proof fn lemma_exhausted_is_empty(&self) {
    }

    fn is_exhausted(&self) -> (r: bool) {
        self.size_hint().0 == 0
    }

    fn pull(&mut self) -> (r: Option<T>) {
        if self.pending.len() == 0 {
            return None;
        }
        let r = self.pending.pop();
        proof {
            if old(self).pending@.len() > 0 {
                assert(self.pending@.reverse() =~= old(self).pending@.reverse().drop_first());
            }
        }
        r
    }

    fn size_hint(&self) -> (r: (usize, Option<usize>)) {
        (self.pending.len(), Some(self.pending.len()))
    }
}

/// A cursor that borrows a slice and yields references to its elements.
#[derive(Clone)]
pub struct SliceCursor<'a, T> {
    items: &'a [T],
    next: usize,
}

impl<'a, T> SliceCursor<'a, T> {
    /// Starts at the first element of `items`.
    pub fn new(items: &'a [T]) -> (r: Self)
        ensures
            r.rest() == items@.map_values(|x: T| &x),
    {
        let r = SliceCursor { items, next: 0 };
        assert(r.rest() =~= items@.map_values(|x: T| &x));
        r
    }
}

impl<'a, T> Cursor for SliceCursor<'a, T> {
    type Item = &'a T;

    closed spec fn rest(&self) -> Seq<&'a T> {
        self.items@.subrange(
            if self.next <= self.items@.len() { self.next as int } else { self.items@.len() as int },
            self.items@.len() as int,
        ).map_values(|x: T| &x)
    }

    open spec fn hint(&self) -> (usize, Option<usize>) {
        (self.rest().len() as usize, Some(self.rest().len() as usize))
    }

    open spec fn exhausted(&self) -> bool {
        self.rest().len() == 0
    }

    proof fn lemma_exhausted_is_empty(&self) {
    }

    fn is_exhausted(&self) -> (r: bool) {
        self.size_hint().0 == 0
    }

    fn pull(&mut self) -> (r: Option<&'a T>) {
        if self.next < self.items.len() {
            let x = &self.items[self.next];
            self.next = self.next + 1;
            proof {
                assert(self.rest() =~= old(self).rest().drop_first());
            }
            Some(x)
        } else {
            None
        }
    }

    fn size_hint(&self) -> (r: (usize, Option<usize>)) {
        let n = if self.next <= self.items.len() { self.items.len() - self.next } else { 0 };
        (n, Some(n))
    }
}

/// Pulls `c` until it is exhausted and returns every element it yielded, in order.
pub fn drain<C: Cursor>(c: C) -> (r: Vec<C::Item>)
    ensures
        r@ == c.rest(),
{
    let mut c = c;
    let ghost all = c.rest();
    let mut out: Vec<C::Item> = Vec::new();
    assert(out@ + c.rest() =~= all);
    loop
        invariant
            out@ + c.rest() == all,
        ensures
            out@ == all,
        decreases c.rest().len(),
    {
        let ghost before = c.rest();
        match c.pull() {
            Some(x) => {
                proof {
                    assert(out@.push(x) + c.rest() =~= out@ + before);
                }
                out.push(x);
            },
            None => {
                assert(out@ + before =~= out@);
                break;
            },
        }
    }
    out
}

} // verus!
