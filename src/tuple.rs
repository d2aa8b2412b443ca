use vstd::prelude::*;

use crate::cursor::Cursor;
use crate::model::{
    combined_hint3, flatten3, lemma_flatten3, zipped3, combined_hint4, flatten4,
    lemma_flatten4, zipped4, combined_hint5, flatten5, lemma_flatten5, zipped5,
    combined_hint6, flatten6, lemma_flatten6, zipped6, combined_hint7, flatten7,
    lemma_flatten7, zipped7, combined_hint8, flatten8, lemma_flatten8, zipped8,
    combined_hint9, flatten9, lemma_flatten9, zipped9, combined_hint10, flatten10,
    lemma_flatten10, zipped10, combined_hint11, flatten11, lemma_flatten11, zipped11,
    combined_hint12, flatten12, lemma_flatten12, zipped12,
};
use crate::zip::{zip2, Zip2};

verus! {

/// Lock-step combination of three cursors into a cursor of 3-tuples: a
/// [`Zip2`] of the combination of the first two with the third, whose
/// nested pairs are flattened as they are pulled.
#[derive(Clone)]
#[must_use]
pub struct Zip3<A, B, C> {
    subzip: Zip2<Zip2<A, B>, C>,
}

/// Combines three cursors; nothing is pulled until the first pull of the result.
pub fn zip3<A: Cursor, B: Cursor, C: Cursor>(a: A, b: B, c: C) -> (r: Zip3<A, B, C>)
    ensures
        r.exhausted() == (a.exhausted() || b.exhausted() || c.exhausted()),
        r.rest() == zipped3(a.rest(), b.rest(), c.rest()),
        r.hint() == combined_hint3(a.hint(), b.hint(), c.hint()),
{
    proof {
        lemma_flatten3(a.rest(), b.rest(), c.rest());
    }
    Zip3 { subzip: zip2(zip2(a, b), c) }
}

impl<A, B, C> Zip3<A, B, C> {
    /// The pairing of the first two cursors' combination with the third
    /// cursor, which this combination flattens.
    pub closed spec fn inner(&self) -> Zip2<Zip2<A, B>, C> {
        self.subzip
    }
}

impl<A: Cursor, B: Cursor, C: Cursor> Cursor for Zip3<A, B, C> {
    type Item = (A::Item, B::Item, C::Item);

    open spec fn rest(&self) -> Seq<(A::Item, B::Item, C::Item)> {
        flatten3(self.inner().rest())
    }

    open spec fn hint(&self) -> (usize, Option<usize>) {
        self.inner().hint()
    }

    open spec fn exhausted(&self) -> bool {
        self.inner().exhausted()
    }

    proof fn lemma_exhausted_is_empty(&self) {
        self.inner().lemma_exhausted_is_empty();
    }

    fn is_exhausted(&self) -> (r: bool) {
        self.subzip.is_exhausted()
    }

    fn pull(&mut self) -> (r: Option<(A::Item, B::Item, C::Item)>)
        ensures
            old(self).inner().advanced(final(self).inner()),
    {
        match self.subzip.pull() {
            Some(((a, b), c)) => {
                proof {
                    assert(self.rest() =~= old(self).rest().drop_first());
                }
                Some((a, b, c))
            },
            None => None,
        }
    }

    fn size_hint(&self) -> (r: (usize, Option<usize>)) {
        self.subzip.size_hint()
    }
}

/// Lock-step combination of four cursors into a cursor of 4-tuples: a
/// [`Zip2`] of the combination of the first three with the fourth, whose
/// nested pairs are flattened as they are pulled.
#[derive(Clone)]
#[must_use]
pub struct Zip4<A, B, C, D> {
    subzip: Zip2<Zip3<A, B, C>, D>,
}

/// Combines four cursors; nothing is pulled until the first pull of the result.
pub fn zip4<A: Cursor, B: Cursor, C: Cursor, D: Cursor>(
    a: A,
    b: B,
    c: C,
    d: D,
) -> (r: Zip4<A, B, C, D>)
    ensures
        r.exhausted() == (a.exhausted() || b.exhausted() || c.exhausted() || d.exhausted()),
        r.rest() == zipped4(a.rest(), b.rest(), c.rest(), d.rest()),
        r.hint() == combined_hint4(a.hint(), b.hint(), c.hint(), d.hint()),
{
    proof {
        lemma_flatten4(a.rest(), b.rest(), c.rest(), d.rest());
    }
    Zip4 { subzip: zip2(zip3(a, b, c), d) }
}

impl<A, B, C, D> Zip4<A, B, C, D> {
    /// The pairing of the first three cursors' combination with the fourth
    /// cursor, which this combination flattens.
    pub closed spec fn inner(&self) -> Zip2<Zip3<A, B, C>, D> {
        self.subzip
    }
}

impl<A: Cursor, B: Cursor, C: Cursor, D: Cursor> Cursor for Zip4<A, B, C, D> {
    type Item = (A::Item, B::Item, C::Item, D::Item);

    open spec fn rest(&self) -> Seq<(A::Item, B::Item, C::Item, D::Item)> {
        flatten4(self.inner().rest())
    }

    open spec fn hint(&self) -> (usize, Option<usize>) {
        self.inner().hint()
    }

    open spec fn exhausted(&self) -> bool {
        self.inner().exhausted()
    }

    proof fn lemma_exhausted_is_empty(&self) {
        self.inner().lemma_exhausted_is_empty();
    }

    fn is_exhausted(&self) -> (r: bool) {
        self.subzip.is_exhausted()
    }

    fn pull(&mut self) -> (r: Option<(A::Item, B::Item, C::Item, D::Item)>)
        ensures
            old(self).inner().advanced(final(self).inner()),
    {
        match self.subzip.pull() {
            Some(((a, b, c), d)) => {
                proof {
                    assert(self.rest() =~= old(self).rest().drop_first());
                }
                Some((a, b, c, d))
            },
            None => None,
        }
    }

    fn size_hint(&self) -> (r: (usize, Option<usize>)) {
        self.subzip.size_hint()
    }
}

/// Lock-step combination of five cursors into a cursor of 5-tuples: a
/// [`Zip2`] of the combination of the first four with the fifth, whose
/// nested pairs are flattened as they are pulled.
#[derive(Clone)]
#[must_use]
pub struct Zip5<A, B, C, D, E> {
    subzip: Zip2<Zip4<A, B, C, D>, E>,
}

/// Combines five cursors; nothing is pulled until the first pull of the result.
pub fn zip5<A: Cursor, B: Cursor, C: Cursor, D: Cursor, E: Cursor>(
    a: A,
    b: B,
    c: C,
    d: D,
    e: E,
) -> (r: Zip5<A, B, C, D, E>)
    ensures
        r.exhausted() == (a.exhausted()
            || b.exhausted()
            || c.exhausted()
            || d.exhausted()
            || e.exhausted()),
        r.rest() == zipped5(a.rest(), b.rest(), c.rest(), d.rest(), e.rest()),
        r.hint() == combined_hint5(a.hint(), b.hint(), c.hint(), d.hint(), e.hint()),
{
    proof {
        lemma_flatten5(a.rest(), b.rest(), c.rest(), d.rest(), e.rest());
    }
    Zip5 { subzip: zip2(zip4(a, b, c, d), e) }
}

impl<A, B, C, D, E> Zip5<A, B, C, D, E> {
    /// The pairing of the first four cursors' combination with the fifth
    /// cursor, which this combination flattens.
    pub closed spec fn inner(&self) -> Zip2<Zip4<A, B, C, D>, E> {
        self.subzip
    }
}

impl<A: Cursor, B: Cursor, C: Cursor, D: Cursor, E: Cursor> Cursor for Zip5<A, B, C, D, E> {
    type Item = (A::Item, B::Item, C::Item, D::Item, E::Item);

    open spec fn rest(&self) -> Seq<(A::Item, B::Item, C::Item, D::Item, E::Item)> {
        flatten5(self.inner().rest())
    }

    open spec fn hint(&self) -> (usize, Option<usize>) {
        self.inner().hint()
    }

    open spec fn exhausted(&self) -> bool {
        self.inner().exhausted()
    }

    proof fn lemma_exhausted_is_empty(&self) {
        self.inner().lemma_exhausted_is_empty();
    }

    fn is_exhausted(&self) -> (r: bool) {
        self.subzip.is_exhausted()
    }

    fn pull(&mut self) -> (r: Option<(A::Item, B::Item, C::Item, D::Item, E::Item)>)
        ensures
            old(self).inner().advanced(final(self).inner()),
    {
        match self.subzip.pull() {
            Some(((a, b, c, d), e)) => {
                proof {
                    assert(self.rest() =~= old(self).rest().drop_first());
                }
                Some((a, b, c, d, e))
            },
            None => None,
        }
    }

    fn size_hint(&self) -> (r: (usize, Option<usize>)) {
        self.subzip.size_hint()
    }
}

/// Lock-step combination of six cursors into a cursor of 6-tuples: a
/// [`Zip2`] of the combination of the first five with the sixth, whose
/// nested pairs are flattened as they are pulled.
#[derive(Clone)]
#[must_use]
pub struct Zip6<A, B, C, D, E, F> {
    subzip: Zip2<Zip5<A, B, C, D, E>, F>,
}

/// Combines six cursors; nothing is pulled until the first pull of the result.
pub fn zip6<A: Cursor, B: Cursor, C: Cursor, D: Cursor, E: Cursor, F: Cursor>(
    a: A,
    b: B,
    c: C,
    d: D,
    e: E,
    f: F,
) -> (r: Zip6<A, B, C, D, E, F>)
    ensures
        r.exhausted() == (a.exhausted()
            || b.exhausted()
            || c.exhausted()
            || d.exhausted()
            || e.exhausted()
            || f.exhausted()),
        r.rest() == zipped6(a.rest(), b.rest(), c.rest(), d.rest(), e.rest(), f.rest()),
        r.hint() == combined_hint6(a.hint(), b.hint(), c.hint(), d.hint(), e.hint(), f.hint()),
{
    proof {
        lemma_flatten6(a.rest(), b.rest(), c.rest(), d.rest(), e.rest(), f.rest());
    }
    Zip6 { subzip: zip2(zip5(a, b, c, d, e), f) }
}

impl<A, B, C, D, E, F> Zip6<A, B, C, D, E, F> {
    /// The pairing of the first five cursors' combination with the sixth
    /// cursor, which this combination flattens.
    pub closed spec fn inner(&self) -> Zip2<Zip5<A, B, C, D, E>, F> {
        self.subzip
    }
}

impl<A: Cursor, B: Cursor, C: Cursor, D: Cursor, E: Cursor, F: Cursor> Cursor for Zip6<A, B, C, D, E, F> {
    type Item = (A::Item, B::Item, C::Item, D::Item, E::Item, F::Item);

    open spec fn rest(&self) -> Seq<(A::Item, B::Item, C::Item, D::Item, E::Item, F::Item)> {
        flatten6(self.inner().rest())
    }

    open spec fn hint(&self) -> (usize, Option<usize>) {
        self.inner().hint()
    }

    open spec fn exhausted(&self) -> bool {
        self.inner().exhausted()
    }

    proof fn lemma_exhausted_is_empty(&self) {
        self.inner().lemma_exhausted_is_empty();
    }

    fn is_exhausted(&self) -> (r: bool) {
        self.subzip.is_exhausted()
    }

    fn pull(&mut self) -> (r: Option<(A::Item, B::Item, C::Item, D::Item, E::Item, F::Item)>)
        ensures
            old(self).inner().advanced(final(self).inner()),
    {
        match self.subzip.pull() {
            Some(((a, b, c, d, e), f)) => {
                proof {
                    assert(self.rest() =~= old(self).rest().drop_first());
                }
                Some((a, b, c, d, e, f))
            },
            None => None,
        }
    }

    fn size_hint(&self) -> (r: (usize, Option<usize>)) {
        self.subzip.size_hint()
    }
}

/// Lock-step combination of seven cursors into a cursor of 7-tuples: a
/// [`Zip2`] of the combination of the first six with the seventh, whose
/// nested pairs are flattened as they are pulled.
#[derive(Clone)]
#[must_use]
pub struct Zip7<A, B, C, D, E, F, G> {
    subzip: Zip2<Zip6<A, B, C, D, E, F>, G>,
}

/// Combines seven cursors; nothing is pulled until the first pull of the result.
pub fn zip7<A: Cursor, B: Cursor, C: Cursor, D: Cursor, E: Cursor, F: Cursor, G: Cursor>(
    a: A,
    b: B,
    c: C,
    d: D,
    e: E,
    f: F,
    g: G,
) -> (r: Zip7<A, B, C, D, E, F, G>)
    ensures
        r.exhausted() == (a.exhausted()
            || b.exhausted()
            || c.exhausted()
            || d.exhausted()
            || e.exhausted()
            || f.exhausted()
            || g.exhausted()),
        r.rest() == zipped7(a.rest(), b.rest(), c.rest(), d.rest(), e.rest(), f.rest(), g.rest()),
        r.hint() == combined_hint7(a.hint(), b.hint(), c.hint(), d.hint(), e.hint(), f.hint(), g.hint()),
{
    proof {
        lemma_flatten7(a.rest(), b.rest(), c.rest(), d.rest(), e.rest(), f.rest(), g.rest());
    }
    Zip7 { subzip: zip2(zip6(a, b, c, d, e, f), g) }
}

impl<A, B, C, D, E, F, G> Zip7<A, B, C, D, E, F, G> {
    /// The pairing of the first six cursors' combination with the seventh
    /// cursor, which this combination flattens.
    pub closed spec fn inner(&self) -> Zip2<Zip6<A, B, C, D, E, F>, G> {
        self.subzip
    }
}

impl<A: Cursor, B: Cursor, C: Cursor, D: Cursor, E: Cursor, F: Cursor, G: Cursor> Cursor for Zip7<A, B, C, D, E, F, G> {
    type Item = (A::Item, B::Item, C::Item, D::Item, E::Item, F::Item, G::Item);

    open spec fn rest(
        &self,
    ) -> Seq<(A::Item, B::Item, C::Item, D::Item, E::Item, F::Item, G::Item)> {
        flatten7(self.inner().rest())
    }

    open spec fn hint(&self) -> (usize, Option<usize>) {
        self.inner().hint()
    }

    open spec fn exhausted(&self) -> bool {
        self.inner().exhausted()
    }

    proof fn lemma_exhausted_is_empty(&self) {
        self.inner().lemma_exhausted_is_empty();
    }

    fn is_exhausted(&self) -> (r: bool) {
        self.subzip.is_exhausted()
    }

    fn pull(
        &mut self,
    ) -> (r: Option<(A::Item, B::Item, C::Item, D::Item, E::Item, F::Item, G::Item)>)
        ensures
            old(self).inner().advanced(final(self).inner()),
    {
        match self.subzip.pull() {
            Some(((a, b, c, d, e, f), g)) => {
                proof {
                    assert(self.rest() =~= old(self).rest().drop_first());
                }
                Some((a, b, c, d, e, f, g))
            },
            None => None,
        }
    }

    fn size_hint(&self) -> (r: (usize, Option<usize>)) {
        self.subzip.size_hint()
    }
}

/// Lock-step combination of eight cursors into a cursor of 8-tuples: a
/// [`Zip2`] of the combination of the first seven with the eighth, whose
/// nested pairs are flattened as they are pulled.
#[derive(Clone)]
#[must_use]
pub struct Zip8<A, B, C, D, E, F, G, H> {
    subzip: Zip2<Zip7<A, B, C, D, E, F, G>, H>,
}

/// Combines eight cursors; nothing is pulled until the first pull of the result.
pub fn zip8<A: Cursor, B: Cursor, C: Cursor, D: Cursor, E: Cursor, F: Cursor, G: Cursor, H: Cursor>(
    a: A,
    b: B,
    c: C,
    d: D,
    e: E,
    f: F,
    g: G,
    h: H,
) -> (r: Zip8<A, B, C, D, E, F, G, H>)
    ensures
        r.exhausted() == (a.exhausted()
            || b.exhausted()
            || c.exhausted()
            || d.exhausted()
            || e.exhausted()
            || f.exhausted()
            || g.exhausted()
            || h.exhausted()),
        r.rest() == zipped8(a.rest(), b.rest(), c.rest(), d.rest(), e.rest(), f.rest(), g.rest(), h.rest()),
        r.hint() == combined_hint8(a.hint(), b.hint(), c.hint(), d.hint(), e.hint(), f.hint(), g.hint(), h.hint()),
{
    proof {
        lemma_flatten8(a.rest(), b.rest(), c.rest(), d.rest(), e.rest(), f.rest(), g.rest(), h.rest());
    }
    Zip8 { subzip: zip2(zip7(a, b, c, d, e, f, g), h) }
}

impl<A, B, C, D, E, F, G, H> Zip8<A, B, C, D, E, F, G, H> {
    /// The pairing of the first seven cursors' combination with the eighth
    /// cursor, which this combination flattens.
    pub closed spec fn inner(&self) -> Zip2<Zip7<A, B, C, D, E, F, G>, H> {
        self.subzip
    }
}

impl<A: Cursor, B: Cursor, C: Cursor, D: Cursor, E: Cursor, F: Cursor, G: Cursor, H: Cursor> Cursor for Zip8<A, B, C, D, E, F, G, H> {
    type Item = (A::Item, B::Item, C::Item, D::Item, E::Item, F::Item, G::Item, H::Item);

    open spec fn rest(
        &self,
    ) -> Seq<(A::Item, B::Item, C::Item, D::Item, E::Item, F::Item, G::Item, H::Item)> {
        flatten8(self.inner().rest())
    }

    open spec fn hint(&self) -> (usize, Option<usize>) {
        self.inner().hint()
    }

    open spec fn exhausted(&self) -> bool {
        self.inner().exhausted()
    }

    proof fn lemma_exhausted_is_empty(&self) {
        self.inner().lemma_exhausted_is_empty();
    }

    fn is_exhausted(&self) -> (r: bool) {
        self.subzip.is_exhausted()
    }

    fn pull(
        &mut self,
    ) -> (r: Option<(A::Item, B::Item, C::Item, D::Item, E::Item, F::Item, G::Item, H::Item)>)
        ensures
            old(self).inner().advanced(final(self).inner()),
    {
        match self.subzip.pull() {
            Some(((a, b, c, d, e, f, g), h)) => {
                proof {
                    assert(self.rest() =~= old(self).rest().drop_first());
                }
                Some((a, b, c, d, e, f, g, h))
            },
            None => None,
        }
    }

    fn size_hint(&self) -> (r: (usize, Option<usize>)) {
        self.subzip.size_hint()
    }
}

/// Lock-step combination of nine cursors into a cursor of 9-tuples: a
/// [`Zip2`] of the combination of the first eight with the ninth, whose
/// nested pairs are flattened as they are pulled.
#[derive(Clone)]
#[must_use]
pub struct Zip9<A, B, C, D, E, F, G, H, I> {
    subzip: Zip2<Zip8<A, B, C, D, E, F, G, H>, I>,
}

/// Combines nine cursors; nothing is pulled until the first pull of the result.
pub fn zip9<A: Cursor, B: Cursor, C: Cursor, D: Cursor, E: Cursor, F: Cursor, G: Cursor, H: Cursor, I: Cursor>(
    a: A,
    b: B,
    c: C,
    d: D,
    e: E,
    f: F,
    g: G,
    h: H,
    i: I,
) -> (r: Zip9<A, B, C, D, E, F, G, H, I>)
    ensures
        r.exhausted() == (a.exhausted()
            || b.exhausted()
            || c.exhausted()
            || d.exhausted()
            || e.exhausted()
            || f.exhausted()
            || g.exhausted()
            || h.exhausted()
            || i.exhausted()),
        r.rest() == zipped9(a.rest(), b.rest(), c.rest(), d.rest(), e.rest(), f.rest(), g.rest(), h.rest(), i.rest()),
        r.hint() == combined_hint9(a.hint(), b.hint(), c.hint(), d.hint(), e.hint(), f.hint(), g.hint(), h.hint(), i.hint()),
{
    proof {
        lemma_flatten9(a.rest(), b.rest(), c.rest(), d.rest(), e.rest(), f.rest(), g.rest(), h.rest(), i.rest());
    }
    Zip9 { subzip: zip2(zip8(a, b, c, d, e, f, g, h), i) }
}

impl<A, B, C, D, E, F, G, H, I> Zip9<A, B, C, D, E, F, G, H, I> {
    /// The pairing of the first eight cursors' combination with the ninth
    /// cursor, which this combination flattens.
    pub closed spec fn inner(&self) -> Zip2<Zip8<A, B, C, D, E, F, G, H>, I> {
        self.subzip
    }
}

impl<A: Cursor, B: Cursor, C: Cursor, D: Cursor, E: Cursor, F: Cursor, G: Cursor, H: Cursor, I: Cursor> Cursor for Zip9<A, B, C, D, E, F, G, H, I> {
    type Item = (A::Item, B::Item, C::Item, D::Item, E::Item, F::Item, G::Item, H::Item, I::Item);

    open spec fn rest(
        &self,
    ) -> Seq<(A::Item, B::Item, C::Item, D::Item, E::Item, F::Item, G::Item, H::Item, I::Item)> {
        flatten9(self.inner().rest())
    }

    open spec fn hint(&self) -> (usize, Option<usize>) {
        self.inner().hint()
    }

    open spec fn exhausted(&self) -> bool {
        self.inner().exhausted()
    }

    proof fn lemma_exhausted_is_empty(&self) {
        self.inner().lemma_exhausted_is_empty();
    }

    fn is_exhausted(&self) -> (r: bool) {
        self.subzip.is_exhausted()
    }

    fn pull(
        &mut self,
    ) -> (r: Option<(A::Item, B::Item, C::Item, D::Item, E::Item, F::Item, G::Item, H::Item, I::Item)>)
        ensures
            old(self).inner().advanced(final(self).inner()),
    {
        match self.subzip.pull() {
            Some(((a, b, c, d, e, f, g, h), i)) => {
                proof {
                    assert(self.rest() =~= old(self).rest().drop_first());
                }
                Some((a, b, c, d, e, f, g, h, i))
            },
            None => None,
        }
    }

    fn size_hint(&self) -> (r: (usize, Option<usize>)) {
        self.subzip.size_hint()
    }
}

/// Lock-step combination of ten cursors into a cursor of 10-tuples: a
/// [`Zip2`] of the combination of the first nine with the tenth, whose
/// nested pairs are flattened as they are pulled.
#[derive(Clone)]
#[must_use]
pub struct Zip10<A, B, C, D, E, F, G, H, I, J> {
    subzip: Zip2<Zip9<A, B, C, D, E, F, G, H, I>, J>,
}

/// Combines ten cursors; nothing is pulled until the first pull of the result.
pub fn zip10<A: Cursor, B: Cursor, C: Cursor, D: Cursor, E: Cursor, F: Cursor, G: Cursor, H: Cursor, I: Cursor, J: Cursor>(
    a: A,
    b: B,
    c: C,
    d: D,
    e: E,
    f: F,
    g: G,
    h: H,
    i: I,
    j: J,
) -> (r: Zip10<A, B, C, D, E, F, G, H, I, J>)
    ensures
        r.exhausted() == (a.exhausted()
            || b.exhausted()
            || c.exhausted()
            || d.exhausted()
            || e.exhausted()
            || f.exhausted()
            || g.exhausted()
            || h.exhausted()
            || i.exhausted()
            || j.exhausted()),
        r.rest() == zipped10(a.rest(), b.rest(), c.rest(), d.rest(), e.rest(), f.rest(), g.rest(), h.rest(), i.rest(), j.rest()),
        r.hint() == combined_hint10(a.hint(), b.hint(), c.hint(), d.hint(), e.hint(), f.hint(), g.hint(), h.hint(), i.hint(), j.hint()),
{
    proof {
        lemma_flatten10(a.rest(), b.rest(), c.rest(), d.rest(), e.rest(), f.rest(), g.rest(), h.rest(), i.rest(), j.rest());
    }
    Zip10 { subzip: zip2(zip9(a, b, c, d, e, f, g, h, i), j) }
}

impl<A, B, C, D, E, F, G, H, I, J> Zip10<A, B, C, D, E, F, G, H, I, J> {
    /// The pairing of the first nine cursors' combination with the tenth
    /// cursor, which this combination flattens.
    pub closed spec fn inner(&self) -> Zip2<Zip9<A, B, C, D, E, F, G, H, I>, J> {
        self.subzip
    }
}

impl<A: Cursor, B: Cursor, C: Cursor, D: Cursor, E: Cursor, F: Cursor, G: Cursor, H: Cursor, I: Cursor, J: Cursor> Cursor for Zip10<A, B, C, D, E, F, G, H, I, J> {
    type Item = (A::Item, B::Item, C::Item, D::Item, E::Item, F::Item, G::Item, H::Item, I::Item, J::Item);

    open spec fn rest(
        &self,
    ) -> Seq<(A::Item, B::Item, C::Item, D::Item, E::Item, F::Item, G::Item, H::Item, I::Item, J::Item)> {
        flatten10(self.inner().rest())
    }

    open spec fn hint(&self) -> (usize, Option<usize>) {
        self.inner().hint()
    }

    open spec fn exhausted(&self) -> bool {
        self.inner().exhausted()
    }

    proof fn lemma_exhausted_is_empty(&self) {
        self.inner().lemma_exhausted_is_empty();
    }

    fn is_exhausted(&self) -> (r: bool) {
        self.subzip.is_exhausted()
    }

    fn pull(
        &mut self,
    ) -> (r: Option<(A::Item, B::Item, C::Item, D::Item, E::Item, F::Item, G::Item, H::Item, I::Item, J::Item)>)
        ensures
            old(self).inner().advanced(final(self).inner()),
    {
        match self.subzip.pull() {
            Some(((a, b, c, d, e, f, g, h, i), j)) => {
                proof {
                    assert(self.rest() =~= old(self).rest().drop_first());
                }
                Some((a, b, c, d, e, f, g, h, i, j))
            },
            None => None,
        }
    }

    fn size_hint(&self) -> (r: (usize, Option<usize>)) {
        self.subzip.size_hint()
    }
}

/// Lock-step combination of eleven cursors into a cursor of 11-tuples: a
/// [`Zip2`] of the combination of the first ten with the eleventh, whose
/// nested pairs are flattened as they are pulled.
#[derive(Clone)]
#[must_use]
pub struct Zip11<A, B, C, D, E, F, G, H, I, J, K> {
    subzip: Zip2<Zip10<A, B, C, D, E, F, G, H, I, J>, K>,
}

/// Combines eleven cursors; nothing is pulled until the first pull of the result.
pub fn zip11<A: Cursor, B: Cursor, C: Cursor, D: Cursor, E: Cursor, F: Cursor, G: Cursor, H: Cursor, I: Cursor, J: Cursor, K: Cursor>(
    a: A,
    b: B,
    c: C,
    d: D,
    e: E,
    f: F,
    g: G,
    h: H,
    i: I,
    j: J,
    k: K,
) -> (r: Zip11<A, B, C, D, E, F, G, H, I, J, K>)
    ensures
        r.exhausted() == (a.exhausted()
            || b.exhausted()
            || c.exhausted()
            || d.exhausted()
            || e.exhausted()
            || f.exhausted()
            || g.exhausted()
            || h.exhausted()
            || i.exhausted()
            || j.exhausted()
            || k.exhausted()),
        r.rest() == zipped11(a.rest(), b.rest(), c.rest(), d.rest(), e.rest(), f.rest(), g.rest(), h.rest(), i.rest(), j.rest(), k.rest()),
        r.hint() == combined_hint11(a.hint(), b.hint(), c.hint(), d.hint(), e.hint(), f.hint(), g.hint(), h.hint(), i.hint(), j.hint(), k.hint()),
{
    proof {
        lemma_flatten11(a.rest(), b.rest(), c.rest(), d.rest(), e.rest(), f.rest(), g.rest(), h.rest(), i.rest(), j.rest(), k.rest());
    }
    Zip11 { subzip: zip2(zip10(a, b, c, d, e, f, g, h, i, j), k) }
}

impl<A, B, C, D, E, F, G, H, I, J, K> Zip11<A, B, C, D, E, F, G, H, I, J, K> {
    /// The pairing of the first ten cursors' combination with the eleventh
    /// cursor, which this combination flattens.
    pub closed spec fn inner(&self) -> Zip2<Zip10<A, B, C, D, E, F, G, H, I, J>, K> {
        self.subzip
    }
}

impl<A: Cursor, B: Cursor, C: Cursor, D: Cursor, E: Cursor, F: Cursor, G: Cursor, H: Cursor, I: Cursor, J: Cursor, K: Cursor> Cursor for Zip11<A, B, C, D, E, F, G, H, I, J, K> {
    type Item = (A::Item, B::Item, C::Item, D::Item, E::Item, F::Item, G::Item, H::Item, I::Item, J::Item, K::Item);

    open spec fn rest(
        &self,
    ) -> Seq<(A::Item, B::Item, C::Item, D::Item, E::Item, F::Item, G::Item, H::Item, I::Item, J::Item, K::Item)> {
        flatten11(self.inner().rest())
    }

    open spec fn hint(&self) -> (usize, Option<usize>) {
        self.inner().hint()
    }

    open spec fn exhausted(&self) -> bool {
        self.inner().exhausted()
    }

    proof fn lemma_exhausted_is_empty(&self) {
        self.inner().lemma_exhausted_is_empty();
    }

    fn is_exhausted(&self) -> (r: bool) {
        self.subzip.is_exhausted()
    }

    fn pull(
        &mut self,
    ) -> (r: Option<(A::Item, B::Item, C::Item, D::Item, E::Item, F::Item, G::Item, H::Item, I::Item, J::Item, K::Item)>)
        ensures
            old(self).inner().advanced(final(self).inner()),
    {
        match self.subzip.pull() {
            Some(((a, b, c, d, e, f, g, h, i, j), k)) => {
                proof {
                    assert(self.rest() =~= old(self).rest().drop_first());
                }
                Some((a, b, c, d, e, f, g, h, i, j, k))
            },
            None => None,
        }
    }

    fn size_hint(&self) -> (r: (usize, Option<usize>)) {
        self.subzip.size_hint()
    }
}

/// Lock-step combination of twelve cursors into a cursor of 12-tuples: a
/// [`Zip2`] of the combination of the first eleven with the twelfth, whose
/// nested pairs are flattened as they are pulled.
#[derive(Clone)]
#[must_use]
pub struct Zip12<A, B, C, D, E, F, G, H, I, J, K, L> {
    subzip: Zip2<Zip11<A, B, C, D, E, F, G, H, I, J, K>, L>,
}

/// Combines twelve cursors; nothing is pulled until the first pull of the result.
pub fn zip12<A: Cursor, B: Cursor, C: Cursor, D: Cursor, E: Cursor, F: Cursor, G: Cursor, H: Cursor, I: Cursor, J: Cursor, K: Cursor, L: Cursor>(
    a: A,
    b: B,
    c: C,
    d: D,
    e: E,
    f: F,
    g: G,
    h: H,
    i: I,
    j: J,
    k: K,
    l: L,
) -> (r: Zip12<A, B, C, D, E, F, G, H, I, J, K, L>)
    ensures
        r.exhausted() == (a.exhausted()
            || b.exhausted()
            || c.exhausted()
            || d.exhausted()
            || e.exhausted()
            || f.exhausted()
            || g.exhausted()
            || h.exhausted()
            || i.exhausted()
            || j.exhausted()
            || k.exhausted()
            || l.exhausted()),
        r.rest() == zipped12(a.rest(), b.rest(), c.rest(), d.rest(), e.rest(), f.rest(), g.rest(), h.rest(), i.rest(), j.rest(), k.rest(), l.rest()),
        r.hint() == combined_hint12(a.hint(), b.hint(), c.hint(), d.hint(), e.hint(), f.hint(), g.hint(), h.hint(), i.hint(), j.hint(), k.hint(), l.hint()),
{
    proof {
        lemma_flatten12(a.rest(), b.rest(), c.rest(), d.rest(), e.rest(), f.rest(), g.rest(), h.rest(), i.rest(), j.rest(), k.rest(), l.rest());
    }
    Zip12 { subzip: zip2(zip11(a, b, c, d, e, f, g, h, i, j, k), l) }
}

impl<A, B, C, D, E, F, G, H, I, J, K, L> Zip12<A, B, C, D, E, F, G, H, I, J, K, L> {
    /// The pairing of the first eleven cursors' combination with the twelfth
    /// cursor, which this combination flattens.
    pub closed spec fn inner(&self) -> Zip2<Zip11<A, B, C, D, E, F, G, H, I, J, K>, L> {
        self.subzip
    }
}

impl<A: Cursor, B: Cursor, C: Cursor, D: Cursor, E: Cursor, F: Cursor, G: Cursor, H: Cursor, I: Cursor, J: Cursor, K: Cursor, L: Cursor> Cursor for Zip12<A, B, C, D, E, F, G, H, I, J, K, L> {
    type Item = (A::Item, B::Item, C::Item, D::Item, E::Item, F::Item, G::Item, H::Item, I::Item, J::Item, K::Item, L::Item);

    open spec fn rest(
        &self,
    ) -> Seq<(A::Item, B::Item, C::Item, D::Item, E::Item, F::Item, G::Item, H::Item, I::Item, J::Item, K::Item, L::Item)> {
        flatten12(self.inner().rest())
    }

    open spec fn hint(&self) -> (usize, Option<usize>) {
        self.inner().hint()
    }

    open spec fn exhausted(&self) -> bool {
        self.inner().exhausted()
    }

    proof fn lemma_exhausted_is_empty(&self) {
        self.inner().lemma_exhausted_is_empty();
    }

    fn is_exhausted(&self) -> (r: bool) {
        self.subzip.is_exhausted()
    }

    fn pull(
        &mut self,
    ) -> (r: Option<(A::Item, B::Item, C::Item, D::Item, E::Item, F::Item, G::Item, H::Item, I::Item, J::Item, K::Item, L::Item)>)
        ensures
            old(self).inner().advanced(final(self).inner()),
    {
        match self.subzip.pull() {
            Some(((a, b, c, d, e, f, g, h, i, j, k), l)) => {
                proof {
                    assert(self.rest() =~= old(self).rest().drop_first());
                }
                Some((a, b, c, d, e, f, g, h, i, j, k, l))
            },
            None => None,
        }
    }

    fn size_hint(&self) -> (r: (usize, Option<usize>)) {
        self.subzip.size_hint()
    }
}

} // verus!
