//! The combination of two cursors into a cursor of pairs.

use vstd::prelude::*;

use crate::cursor::Cursor;

verus! {

/// The pairs of `a` and `b` taken position by position, up to the end of the
/// shorter of the two.
pub open spec fn zipped2<A, B>(a: Seq<A>, b: Seq<B>) -> Seq<(A, B)> {
    Seq::new(vstd::math::min(a.len() as int, b.len() as int) as nat, |i: int| (a[i], b[i]))
}

/// Two inputs of one length give exactly that many pairs, the `idx`-th
/// pairing the `idx`-th elements of the two.
pub proof fn lemma_equal_lengths2<A, B>(a: Seq<A>, b: Seq<B>, len: nat)
    requires
        a.len() == len,
        b.len() == len,
    ensures
        zipped2(a, b).len() == len,
        forall|idx: int| 0 <= idx < len ==> #[trigger] zipped2(a, b)[idx] == (a[idx], b[idx]),
{
}

/// If either input is empty, so is their combination.
pub proof fn lemma_empty_input2<A, B>(a: Seq<A>, b: Seq<B>)
    requires
        a.len() == 0 || b.len() == 0,
    ensures
        zipped2(a, b).len() == 0,
{
}

/// Rebuilding the pairing from fresh sources that hold the same elements
/// yields the same pairs, in the same order.
pub proof fn lemma_rederive2<A, B>(a: Seq<A>, b: Seq<B>, a2: Seq<A>, b2: Seq<B>)
    requires
        a == a2,
        b == b2,
    ensures
        zipped2(a, b) == zipped2(a2, b2),
{
}

/// The estimate of a pairing from the estimates of its two parts: the
/// smaller lower bound, and the smaller upper bound where both are known.
pub open spec fn combined_hint(x: (usize, Option<usize>), y: (usize, Option<usize>)) -> (usize, Option<usize>) {
    let lower = if x.0 <= y.0 { x.0 } else { y.0 };
    let upper = match (x.1, y.1) {
        (Some(u), Some(v)) => Some(if u <= v { u } else { v }),
        _ => None,
    };
    (lower, upper)
}

/// Lock-step combination of two cursors into a cursor of pairs.
///
/// Each pull takes one element from `a` and then one from `b`. Once either
/// is exhausted the pair is exhausted too: later pulls return `None` without
/// pulling anything, and whatever the other could still yield is left unread.
#[derive(Clone)]
#[must_use]
pub struct Zip2<A, B> {
    a: A,
    b: B,
}

/// Pairs two cursors; nothing is pulled until the first pull of the result.
pub fn zip2<A: Cursor, B: Cursor>(a: A, b: B) -> (r: Zip2<A, B>)
    ensures
        r.left() == a,
        r.right() == b,
        r.rest() == zipped2(a.rest(), b.rest()),
        r.hint() == combined_hint(a.hint(), b.hint()),
{
    Zip2 { a, b }
}

impl<A, B> Zip2<A, B> {
    /// The first of the two cursors, as far as it has been pulled.
    pub closed spec fn left(&self) -> A {
        self.a
    }

    /// The second of the two cursors, as far as it has been pulled.
    pub closed spec fn right(&self) -> B {
        self.b
    }
}

impl<A: Cursor, B: Cursor> Zip2<A, B> {
    /// What one pull does to the two held cursors, going from `self` to
    /// `next`: an exhausted pair is left as it is; otherwise the first cursor
    /// is pulled, the second is pulled only if the first yielded, and each
    /// loses exactly the element it yielded.
    pub open spec fn advanced(self, next: Self) -> bool {
        let (a, b) = (self.left().rest(), self.right().rest());
        if self.exhausted() {
            next == self
        } else if a.len() == 0 {
            &&& next.exhausted()
            &&& next.left().rest().len() == 0
            &&& next.right() == self.right()
        } else if b.len() == 0 {
            &&& next.exhausted()
            &&& next.left().rest() == a.drop_first()
            &&& next.right().rest().len() == 0
        } else {
            &&& next.left().rest() == a.drop_first()
            &&& next.right().rest() == b.drop_first()
        }
    }
}

impl<A: Cursor, B: Cursor> Cursor for Zip2<A, B> {
    type Item = (A::Item, B::Item);

    open spec fn rest(&self) -> Seq<(A::Item, B::Item)> {
        zipped2(self.left().rest(), self.right().rest())
    }

    open spec fn hint(&self) -> (usize, Option<usize>) {
        combined_hint(self.left().hint(), self.right().hint())
    }

    open spec fn exhausted(&self) -> bool {
        self.left().exhausted() || self.right().exhausted()
    }

    proof fn lemma_exhausted_is_empty(&self) {
        self.left().lemma_exhausted_is_empty();
        self.right().lemma_exhausted_is_empty();
    }

    fn is_exhausted(&self) -> (r: bool) {
        self.a.is_exhausted() || self.b.is_exhausted()
    }

    fn pull(&mut self) -> (r: Option<(A::Item, B::Item)>)
        ensures
            old(self).advanced(*final(self)),
    {
        proof {
            self.lemma_exhausted_is_empty();
            self.a.lemma_exhausted_is_empty();
            self.b.lemma_exhausted_is_empty();
        }
        if self.a.is_exhausted() || self.b.is_exhausted() {
            return None;
        }
        match self.a.pull() {
            Some(x) => match self.b.pull() {
                Some(y) => {
                    proof {
                        assert(self.rest() =~= old(self).rest().drop_first());
                    }
                    Some((x, y))
                },
                None => None,
            },
            None => None,
        }
    }

    fn size_hint(&self) -> (r: (usize, Option<usize>)) {
        let (la, ua) = self.a.size_hint();
        let (lb, ub) = self.b.size_hint();
        let upper = match (ua, ub) {
            (Some(u), Some(v)) => Some(if u <= v { u } else { v }),
            _ => None,
        };
        (if la <= lb { la } else { lb }, upper)
    }
}

} // verus!
