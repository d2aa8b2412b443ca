use vstd::math::min;
use vstd::prelude::*;

use crate::zip::{combined_hint, zipped2};

verus! {

/// The 3-tuples of the inputs taken position by position, up to the end of
/// the shortest input.
pub open spec fn zipped3<A, B, C>(a: Seq<A>, b: Seq<B>, c: Seq<C>) -> Seq<(A, B, C)> {
    let len = min(a.len() as int, b.len() as int);
    let len = min(len, c.len() as int);
    Seq::new(len as nat, |idx: int| (a[idx], b[idx], c[idx]))
}

/// Each nested `((a, b), c)` of `s` written as the flat tuple `(a, b, c)`.
pub open spec fn flatten3<A, B, C>(s: Seq<((A, B), C)>) -> Seq<(A, B, C)> {
    s.map_values(|p: ((A, B), C)| (p.0.0, p.0.1, p.1))
}

/// The estimate of a 3-way combination from the estimates of its inputs:
/// the smallest lower bound, and the smallest upper bound where all are known.
pub open spec fn combined_hint3(
    a: (usize, Option<usize>),
    b: (usize, Option<usize>),
    c: (usize, Option<usize>),
) -> (usize, Option<usize>) {
    combined_hint(combined_hint(a, b), c)
}

/// The 4-tuples of the inputs taken position by position, up to the end of
/// the shortest input.
pub open spec fn zipped4<A, B, C, D>(
    a: Seq<A>,
    b: Seq<B>,
    c: Seq<C>,
    d: Seq<D>,
) -> Seq<(A, B, C, D)> {
    let len = min(a.len() as int, b.len() as int);
    let len = min(len, c.len() as int);
    let len = min(len, d.len() as int);
    Seq::new(len as nat, |idx: int| (a[idx], b[idx], c[idx], d[idx]))
}

/// Each nested `((a, b, c), d)` of `s` written as the flat tuple `(a, b, c, d)`.
pub open spec fn flatten4<A, B, C, D>(s: Seq<((A, B, C), D)>) -> Seq<(A, B, C, D)> {
    s.map_values(|p: ((A, B, C), D)| (p.0.0, p.0.1, p.0.2, p.1))
}

/// The estimate of a 4-way combination from the estimates of its inputs:
/// the smallest lower bound, and the smallest upper bound where all are known.
pub open spec fn combined_hint4(
    a: (usize, Option<usize>),
    b: (usize, Option<usize>),
    c: (usize, Option<usize>),
    d: (usize, Option<usize>),
) -> (usize, Option<usize>) {
    combined_hint(combined_hint3(a, b, c), d)
}

/// The 5-tuples of the inputs taken position by position, up to the end of
/// the shortest input.
pub open spec fn zipped5<A, B, C, D, E>(
    a: Seq<A>,
    b: Seq<B>,
    c: Seq<C>,
    d: Seq<D>,
    e: Seq<E>,
) -> Seq<(A, B, C, D, E)> {
    let len = min(a.len() as int, b.len() as int);
    let len = min(len, c.len() as int);
    let len = min(len, d.len() as int);
    let len = min(len, e.len() as int);
    Seq::new(len as nat, |idx: int| (a[idx], b[idx], c[idx], d[idx], e[idx]))
}

/// Each nested `((a, b, c, d), e)` of `s` written as the flat tuple `(a, b, c, d, e)`.
pub open spec fn flatten5<A, B, C, D, E>(s: Seq<((A, B, C, D), E)>) -> Seq<(A, B, C, D, E)> {
    s.map_values(|p: ((A, B, C, D), E)| (p.0.0, p.0.1, p.0.2, p.0.3, p.1))
}

/// The estimate of a 5-way combination from the estimates of its inputs:
/// the smallest lower bound, and the smallest upper bound where all are known.
pub open spec fn combined_hint5(
    a: (usize, Option<usize>),
    b: (usize, Option<usize>),
    c: (usize, Option<usize>),
    d: (usize, Option<usize>),
    e: (usize, Option<usize>),
) -> (usize, Option<usize>) {
    combined_hint(combined_hint4(a, b, c, d), e)
}

/// The 6-tuples of the inputs taken position by position, up to the end of
/// the shortest input.
pub open spec fn zipped6<A, B, C, D, E, F>(
    a: Seq<A>,
    b: Seq<B>,
    c: Seq<C>,
    d: Seq<D>,
    e: Seq<E>,
    f: Seq<F>,
) -> Seq<(A, B, C, D, E, F)> {
    let len = min(a.len() as int, b.len() as int);
    let len = min(len, c.len() as int);
    let len = min(len, d.len() as int);
    let len = min(len, e.len() as int);
    let len = min(len, f.len() as int);
    Seq::new(len as nat, |idx: int| (a[idx], b[idx], c[idx], d[idx], e[idx], f[idx]))
}

/// Each nested `((a, b, c, d, e), f)` of `s` written as the flat tuple `(a, b, c, d, e, f)`.
pub open spec fn flatten6<A, B, C, D, E, F>(
    s: Seq<((A, B, C, D, E), F)>,
) -> Seq<(A, B, C, D, E, F)> {
    s.map_values(|p: ((A, B, C, D, E), F)| (p.0.0, p.0.1, p.0.2, p.0.3, p.0.4, p.1))
}

/// The estimate of a 6-way combination from the estimates of its inputs:
/// the smallest lower bound, and the smallest upper bound where all are known.
pub open spec fn combined_hint6(
    a: (usize, Option<usize>),
    b: (usize, Option<usize>),
    c: (usize, Option<usize>),
    d: (usize, Option<usize>),
    e: (usize, Option<usize>),
    f: (usize, Option<usize>),
) -> (usize, Option<usize>) {
    combined_hint(combined_hint5(a, b, c, d, e), f)
}

/// The 7-tuples of the inputs taken position by position, up to the end of
/// the shortest input.
pub open spec fn zipped7<A, B, C, D, E, F, G>(
    a: Seq<A>,
    b: Seq<B>,
    c: Seq<C>,
    d: Seq<D>,
    e: Seq<E>,
    f: Seq<F>,
    g: Seq<G>,
) -> Seq<(A, B, C, D, E, F, G)> {
    let len = min(a.len() as int, b.len() as int);
    let len = min(len, c.len() as int);
    let len = min(len, d.len() as int);
    let len = min(len, e.len() as int);
    let len = min(len, f.len() as int);
    let len = min(len, g.len() as int);
    Seq::new(len as nat, |idx: int| (a[idx], b[idx], c[idx], d[idx], e[idx], f[idx], g[idx]))
}

/// Each nested `((a, b, c, d, e, f), g)` of `s` written as the flat tuple `(a, b, c, d, e, f, g)`.
pub open spec fn flatten7<A, B, C, D, E, F, G>(
    s: Seq<((A, B, C, D, E, F), G)>,
) -> Seq<(A, B, C, D, E, F, G)> {
    s.map_values(|p: ((A, B, C, D, E, F), G)| (p.0.0, p.0.1, p.0.2, p.0.3, p.0.4, p.0.5, p.1))
}

/// The estimate of a 7-way combination from the estimates of its inputs:
/// the smallest lower bound, and the smallest upper bound where all are known.
pub open spec fn combined_hint7(
    a: (usize, Option<usize>),
    b: (usize, Option<usize>),
    c: (usize, Option<usize>),
    d: (usize, Option<usize>),
    e: (usize, Option<usize>),
    f: (usize, Option<usize>),
    g: (usize, Option<usize>),
) -> (usize, Option<usize>) {
    combined_hint(combined_hint6(a, b, c, d, e, f), g)
}

/// The 8-tuples of the inputs taken position by position, up to the end of
/// the shortest input.
pub open spec fn zipped8<A, B, C, D, E, F, G, H>(
    a: Seq<A>,
    b: Seq<B>,
    c: Seq<C>,
    d: Seq<D>,
    e: Seq<E>,
    f: Seq<F>,
    g: Seq<G>,
    h: Seq<H>,
) -> Seq<(A, B, C, D, E, F, G, H)> {
    let len = min(a.len() as int, b.len() as int);
    let len = min(len, c.len() as int);
    let len = min(len, d.len() as int);
    let len = min(len, e.len() as int);
    let len = min(len, f.len() as int);
    let len = min(len, g.len() as int);
    let len = min(len, h.len() as int);
    Seq::new(len as nat, |idx: int| (a[idx], b[idx], c[idx], d[idx], e[idx], f[idx], g[idx], h[idx]))
}

/// Each nested `((a, b, c, d, e, f, g), h)` of `s` written as the flat tuple `(a, b, c, d, e, f, g, h)`.
pub open spec fn flatten8<A, B, C, D, E, F, G, H>(
    s: Seq<((A, B, C, D, E, F, G), H)>,
) -> Seq<(A, B, C, D, E, F, G, H)> {
    s.map_values(|p: ((A, B, C, D, E, F, G), H)| (p.0.0, p.0.1, p.0.2, p.0.3, p.0.4, p.0.5, p.0.6, p.1))
}

/// The estimate of a 8-way combination from the estimates of its inputs:
/// the smallest lower bound, and the smallest upper bound where all are known.
pub open spec fn combined_hint8(
    a: (usize, Option<usize>),
    b: (usize, Option<usize>),
    c: (usize, Option<usize>),
    d: (usize, Option<usize>),
    e: (usize, Option<usize>),
    f: (usize, Option<usize>),
    g: (usize, Option<usize>),
    h: (usize, Option<usize>),
) -> (usize, Option<usize>) {
    combined_hint(combined_hint7(a, b, c, d, e, f, g), h)
}

/// The 9-tuples of the inputs taken position by position, up to the end of
/// the shortest input.
pub open spec fn zipped9<A, B, C, D, E, F, G, H, I>(
    a: Seq<A>,
    b: Seq<B>,
    c: Seq<C>,
    d: Seq<D>,
    e: Seq<E>,
    f: Seq<F>,
    g: Seq<G>,
    h: Seq<H>,
    i: Seq<I>,
) -> Seq<(A, B, C, D, E, F, G, H, I)> {
    let len = min(a.len() as int, b.len() as int);
    let len = min(len, c.len() as int);
    let len = min(len, d.len() as int);
    let len = min(len, e.len() as int);
    let len = min(len, f.len() as int);
    let len = min(len, g.len() as int);
    let len = min(len, h.len() as int);
    let len = min(len, i.len() as int);
    Seq::new(len as nat, |idx: int| (a[idx], b[idx], c[idx], d[idx], e[idx], f[idx], g[idx], h[idx], i[idx]))
}

/// Each nested `((a, b, c, d, e, f, g, h), i)` of `s` written as the flat tuple `(a, b, c, d, e, f, g, h, i)`.
pub open spec fn flatten9<A, B, C, D, E, F, G, H, I>(
    s: Seq<((A, B, C, D, E, F, G, H), I)>,
) -> Seq<(A, B, C, D, E, F, G, H, I)> {
    s.map_values(|p: ((A, B, C, D, E, F, G, H), I)| (p.0.0, p.0.1, p.0.2, p.0.3, p.0.4, p.0.5, p.0.6, p.0.7, p.1))
}

/// The estimate of a 9-way combination from the estimates of its inputs:
/// the smallest lower bound, and the smallest upper bound where all are known.
pub open spec fn combined_hint9(
    a: (usize, Option<usize>),
    b: (usize, Option<usize>),
    c: (usize, Option<usize>),
    d: (usize, Option<usize>),
    e: (usize, Option<usize>),
    f: (usize, Option<usize>),
    g: (usize, Option<usize>),
    h: (usize, Option<usize>),
    i: (usize, Option<usize>),
) -> (usize, Option<usize>) {
    combined_hint(combined_hint8(a, b, c, d, e, f, g, h), i)
}

/// The 10-tuples of the inputs taken position by position, up to the end of
/// the shortest input.
pub open spec fn zipped10<A, B, C, D, E, F, G, H, I, J>(
    a: Seq<A>,
    b: Seq<B>,
    c: Seq<C>,
    d: Seq<D>,
    e: Seq<E>,
    f: Seq<F>,
    g: Seq<G>,
    h: Seq<H>,
    i: Seq<I>,
    j: Seq<J>,
) -> Seq<(A, B, C, D, E, F, G, H, I, J)> {
    let len = min(a.len() as int, b.len() as int);
    let len = min(len, c.len() as int);
    let len = min(len, d.len() as int);
    let len = min(len, e.len() as int);
    let len = min(len, f.len() as int);
    let len = min(len, g.len() as int);
    let len = min(len, h.len() as int);
    let len = min(len, i.len() as int);
    let len = min(len, j.len() as int);
    Seq::new(len as nat, |idx: int| (a[idx], b[idx], c[idx], d[idx], e[idx], f[idx], g[idx], h[idx], i[idx], j[idx]))
}

/// Each nested `((a, b, c, d, e, f, g, h, i), j)` of `s` written as the flat tuple `(a, b, c, d, e, f, g, h, i, j)`.
pub open spec fn flatten10<A, B, C, D, E, F, G, H, I, J>(
    s: Seq<((A, B, C, D, E, F, G, H, I), J)>,
) -> Seq<(A, B, C, D, E, F, G, H, I, J)> {
    s.map_values(|p: ((A, B, C, D, E, F, G, H, I), J)| (p.0.0, p.0.1, p.0.2, p.0.3, p.0.4, p.0.5, p.0.6, p.0.7, p.0.8, p.1))
}

/// The estimate of a 10-way combination from the estimates of its inputs:
/// the smallest lower bound, and the smallest upper bound where all are known.
pub open spec fn combined_hint10(
    a: (usize, Option<usize>),
    b: (usize, Option<usize>),
    c: (usize, Option<usize>),
    d: (usize, Option<usize>),
    e: (usize, Option<usize>),
    f: (usize, Option<usize>),
    g: (usize, Option<usize>),
    h: (usize, Option<usize>),
    i: (usize, Option<usize>),
    j: (usize, Option<usize>),
) -> (usize, Option<usize>) {
    combined_hint(combined_hint9(a, b, c, d, e, f, g, h, i), j)
}

/// The 11-tuples of the inputs taken position by position, up to the end of
/// the shortest input.
pub open spec fn zipped11<A, B, C, D, E, F, G, H, I, J, K>(
    a: Seq<A>,
    b: Seq<B>,
    c: Seq<C>,
    d: Seq<D>,
    e: Seq<E>,
    f: Seq<F>,
    g: Seq<G>,
    h: Seq<H>,
    i: Seq<I>,
    j: Seq<J>,
    k: Seq<K>,
) -> Seq<(A, B, C, D, E, F, G, H, I, J, K)> {
    let len = min(a.len() as int, b.len() as int);
    let len = min(len, c.len() as int);
    let len = min(len, d.len() as int);
    let len = min(len, e.len() as int);
    let len = min(len, f.len() as int);
    let len = min(len, g.len() as int);
    let len = min(len, h.len() as int);
    let len = min(len, i.len() as int);
    let len = min(len, j.len() as int);
    let len = min(len, k.len() as int);
    Seq::new(len as nat, |idx: int| (a[idx], b[idx], c[idx], d[idx], e[idx], f[idx], g[idx], h[idx], i[idx], j[idx], k[idx]))
}

/// Each nested `((a, b, c, d, e, f, g, h, i, j), k)` of `s` written as the flat tuple `(a, b, c, d, e, f, g, h, i, j, k)`.
pub open spec fn flatten11<A, B, C, D, E, F, G, H, I, J, K>(
    s: Seq<((A, B, C, D, E, F, G, H, I, J), K)>,
) -> Seq<(A, B, C, D, E, F, G, H, I, J, K)> {
    s.map_values(|p: ((A, B, C, D, E, F, G, H, I, J), K)| (p.0.0, p.0.1, p.0.2, p.0.3, p.0.4, p.0.5, p.0.6, p.0.7, p.0.8, p.0.9, p.1))
}

/// The estimate of a 11-way combination from the estimates of its inputs:
/// the smallest lower bound, and the smallest upper bound where all are known.
pub open spec fn combined_hint11(
    a: (usize, Option<usize>),
    b: (usize, Option<usize>),
    c: (usize, Option<usize>),
    d: (usize, Option<usize>),
    e: (usize, Option<usize>),
    f: (usize, Option<usize>),
    g: (usize, Option<usize>),
    h: (usize, Option<usize>),
    i: (usize, Option<usize>),
    j: (usize, Option<usize>),
    k: (usize, Option<usize>),
) -> (usize, Option<usize>) {
    combined_hint(combined_hint10(a, b, c, d, e, f, g, h, i, j), k)
}

/// The 12-tuples of the inputs taken position by position, up to the end of
/// the shortest input.
pub open spec fn zipped12<A, B, C, D, E, F, G, H, I, J, K, L>(
    a: Seq<A>,
    b: Seq<B>,
    c: Seq<C>,
    d: Seq<D>,
    e: Seq<E>,
    f: Seq<F>,
    g: Seq<G>,
    h: Seq<H>,
    i: Seq<I>,
    j: Seq<J>,
    k: Seq<K>,
    l: Seq<L>,
) -> Seq<(A, B, C, D, E, F, G, H, I, J, K, L)> {
    let len = min(a.len() as int, b.len() as int);
    let len = min(len, c.len() as int);
    let len = min(len, d.len() as int);
    let len = min(len, e.len() as int);
    let len = min(len, f.len() as int);
    let len = min(len, g.len() as int);
    let len = min(len, h.len() as int);
    let len = min(len, i.len() as int);
    let len = min(len, j.len() as int);
    let len = min(len, k.len() as int);
    let len = min(len, l.len() as int);
    Seq::new(len as nat, |idx: int| (a[idx], b[idx], c[idx], d[idx], e[idx], f[idx], g[idx], h[idx], i[idx], j[idx], k[idx], l[idx]))
}

/// Each nested `((a, b, c, d, e, f, g, h, i, j, k), l)` of `s` written as the flat tuple `(a, b, c, d, e, f, g, h, i, j, k, l)`.
pub open spec fn flatten12<A, B, C, D, E, F, G, H, I, J, K, L>(
    s: Seq<((A, B, C, D, E, F, G, H, I, J, K), L)>,
) -> Seq<(A, B, C, D, E, F, G, H, I, J, K, L)> {
    s.map_values(|p: ((A, B, C, D, E, F, G, H, I, J, K), L)| (p.0.0, p.0.1, p.0.2, p.0.3, p.0.4, p.0.5, p.0.6, p.0.7, p.0.8, p.0.9, p.0.10, p.1))
}

/// The estimate of a 12-way combination from the estimates of its inputs:
/// the smallest lower bound, and the smallest upper bound where all are known.
pub open spec fn combined_hint12(
    a: (usize, Option<usize>),
    b: (usize, Option<usize>),
    c: (usize, Option<usize>),
    d: (usize, Option<usize>),
    e: (usize, Option<usize>),
    f: (usize, Option<usize>),
    g: (usize, Option<usize>),
    h: (usize, Option<usize>),
    i: (usize, Option<usize>),
    j: (usize, Option<usize>),
    k: (usize, Option<usize>),
    l: (usize, Option<usize>),
) -> (usize, Option<usize>) {
    combined_hint(combined_hint11(a, b, c, d, e, f, g, h, i, j, k), l)
}

/// Combining the first 2 inputs, pairing the result with the third and
/// flattening loses nothing and keeps the order: it is the direct
/// 3-way combination.
pub proof fn lemma_flatten3<A, B, C>(a: Seq<A>, b: Seq<B>, c: Seq<C>)
    ensures
        flatten3(zipped2(zipped2(a, b), c)) == zipped3(a, b, c),
{
    assert(flatten3(zipped2(zipped2(a, b), c)) =~= zipped3(a, b, c));
}

/// Three inputs of one length give exactly that many tuples, the
/// `idx`-th holding the `idx`-th element of each input, in argument order.
pub proof fn lemma_equal_lengths3<A, B, C>(a: Seq<A>, b: Seq<B>, c: Seq<C>, len: nat)
    requires
        a.len() == len,
        b.len() == len,
        c.len() == len,
    ensures
        zipped3(a, b, c).len() == len,
        forall|idx: int| 0 <= idx < len ==> #[trigger] zipped3(a, b, c)[idx] == (a[idx], b[idx], c[idx]),
{
}

/// If any of the three inputs is empty, so is their combination.
pub proof fn lemma_empty_input3<A, B, C>(a: Seq<A>, b: Seq<B>, c: Seq<C>)
    requires
        a.len() == 0 || b.len() == 0 || c.len() == 0,
    ensures
        zipped3(a, b, c).len() == 0,
{
}

/// Rebuilding the 3-way combination from fresh sources that hold the same
/// elements yields the same tuples, in the same order.
pub proof fn lemma_rederive3<A, B, C>(
    a: Seq<A>,
    b: Seq<B>,
    c: Seq<C>,
    a2: Seq<A>,
    b2: Seq<B>,
    c2: Seq<C>,
)
    requires
        a == a2,
        b == b2,
        c == c2,
    ensures
        zipped3(a, b, c) == zipped3(a2, b2, c2),
{
}

/// Combining the first 3 inputs, pairing the result with the fourth and
/// flattening loses nothing and keeps the order: it is the direct
/// 4-way combination.
pub proof fn lemma_flatten4<A, B, C, D>(a: Seq<A>, b: Seq<B>, c: Seq<C>, d: Seq<D>)
    ensures
        flatten4(zipped2(zipped3(a, b, c), d)) == zipped4(a, b, c, d),
{
    assert(flatten4(zipped2(zipped3(a, b, c), d)) =~= zipped4(a, b, c, d));
}

/// Four inputs of one length give exactly that many tuples, the
/// `idx`-th holding the `idx`-th element of each input, in argument order.
pub proof fn lemma_equal_lengths4<A, B, C, D>(a: Seq<A>, b: Seq<B>, c: Seq<C>, d: Seq<D>, len: nat)
    requires
        a.len() == len,
        b.len() == len,
        c.len() == len,
        d.len() == len,
    ensures
        zipped4(a, b, c, d).len() == len,
        forall|idx: int| 0 <= idx < len ==> #[trigger] zipped4(a, b, c, d)[idx] == (a[idx], b[idx], c[idx], d[idx]),
{
}

/// If any of the four inputs is empty, so is their combination.
pub proof fn lemma_empty_input4<A, B, C, D>(a: Seq<A>, b: Seq<B>, c: Seq<C>, d: Seq<D>)
    requires
        a.len() == 0 || b.len() == 0 || c.len() == 0 || d.len() == 0,
    ensures
        zipped4(a, b, c, d).len() == 0,
{
}

/// Rebuilding the 4-way combination from fresh sources that hold the same
/// elements yields the same tuples, in the same order.
pub proof fn lemma_rederive4<A, B, C, D>(
    a: Seq<A>,
    b: Seq<B>,
    c: Seq<C>,
    d: Seq<D>,
    a2: Seq<A>,
    b2: Seq<B>,
    c2: Seq<C>,
    d2: Seq<D>,
)
    requires
        a == a2,
        b == b2,
        c == c2,
        d == d2,
    ensures
        zipped4(a, b, c, d) == zipped4(a2, b2, c2, d2),
{
}

/// Combining the first 4 inputs, pairing the result with the fifth and
/// flattening loses nothing and keeps the order: it is the direct
/// 5-way combination.
pub proof fn lemma_flatten5<A, B, C, D, E>(a: Seq<A>, b: Seq<B>, c: Seq<C>, d: Seq<D>, e: Seq<E>)
    ensures
        flatten5(zipped2(zipped4(a, b, c, d), e)) == zipped5(a, b, c, d, e),
{
    assert(flatten5(zipped2(zipped4(a, b, c, d), e)) =~= zipped5(a, b, c, d, e));
}

/// Five inputs of one length give exactly that many tuples, the
/// `idx`-th holding the `idx`-th element of each input, in argument order.
pub proof fn lemma_equal_lengths5<A, B, C, D, E>(
    a: Seq<A>,
    b: Seq<B>,
    c: Seq<C>,
    d: Seq<D>,
    e: Seq<E>,
    len: nat,
)
    requires
        a.len() == len,
        b.len() == len,
        c.len() == len,
        d.len() == len,
        e.len() == len,
    ensures
        zipped5(a, b, c, d, e).len() == len,
        forall|idx: int| 0 <= idx < len ==> #[trigger] zipped5(a, b, c, d, e)[idx] == (a[idx], b[idx], c[idx], d[idx], e[idx]),
{
}

/// If any of the five inputs is empty, so is their combination.
pub proof fn lemma_empty_input5<A, B, C, D, E>(
    a: Seq<A>,
    b: Seq<B>,
    c: Seq<C>,
    d: Seq<D>,
    e: Seq<E>,
)
    requires
        a.len() == 0 || b.len() == 0 || c.len() == 0 || d.len() == 0 || e.len() == 0,
    ensures
        zipped5(a, b, c, d, e).len() == 0,
{
}

/// Rebuilding the 5-way combination from fresh sources that hold the same
/// elements yields the same tuples, in the same order.
pub proof fn lemma_rederive5<A, B, C, D, E>(
    a: Seq<A>,
    b: Seq<B>,
    c: Seq<C>,
    d: Seq<D>,
    e: Seq<E>,
    a2: Seq<A>,
    b2: Seq<B>,
    c2: Seq<C>,
    d2: Seq<D>,
    e2: Seq<E>,
)
    requires
        a == a2,
        b == b2,
        c == c2,
        d == d2,
        e == e2,
    ensures
        zipped5(a, b, c, d, e) == zipped5(a2, b2, c2, d2, e2),
{
}

/// Combining the first 5 inputs, pairing the result with the sixth and
/// flattening loses nothing and keeps the order: it is the direct
/// 6-way combination.
pub proof fn lemma_flatten6<A, B, C, D, E, F>(
    a: Seq<A>,
    b: Seq<B>,
    c: Seq<C>,
    d: Seq<D>,
    e: Seq<E>,
    f: Seq<F>,
)
    ensures
        flatten6(zipped2(zipped5(a, b, c, d, e), f)) == zipped6(a, b, c, d, e, f),
{
    assert(flatten6(zipped2(zipped5(a, b, c, d, e), f)) =~= zipped6(a, b, c, d, e, f));
}

/// Six inputs of one length give exactly that many tuples, the
/// `idx`-th holding the `idx`-th element of each input, in argument order.
pub proof fn lemma_equal_lengths6<A, B, C, D, E, F>(
    a: Seq<A>,
    b: Seq<B>,
    c: Seq<C>,
    d: Seq<D>,
    e: Seq<E>,
    f: Seq<F>,
    len: nat,
)
    requires
        a.len() == len,
        b.len() == len,
        c.len() == len,
        d.len() == len,
        e.len() == len,
        f.len() == len,
    ensures
        zipped6(a, b, c, d, e, f).len() == len,
        forall|idx: int| 0 <= idx < len ==> #[trigger] zipped6(a, b, c, d, e, f)[idx] == (a[idx], b[idx], c[idx], d[idx], e[idx], f[idx]),
{
}

/// If any of the six inputs is empty, so is their combination.
pub proof fn lemma_empty_input6<A, B, C, D, E, F>(
    a: Seq<A>,
    b: Seq<B>,
    c: Seq<C>,
    d: Seq<D>,
    e: Seq<E>,
    f: Seq<F>,
)
    requires
        a.len() == 0
            || b.len() == 0
            || c.len() == 0
            || d.len() == 0
            || e.len() == 0
            || f.len() == 0,
    ensures
        zipped6(a, b, c, d, e, f).len() == 0,
{
}

/// Rebuilding the 6-way combination from fresh sources that hold the same
/// elements yields the same tuples, in the same order.
pub proof fn lemma_rederive6<A, B, C, D, E, F>(
    a: Seq<A>,
    b: Seq<B>,
    c: Seq<C>,
    d: Seq<D>,
    e: Seq<E>,
    f: Seq<F>,
    a2: Seq<A>,
    b2: Seq<B>,
    c2: Seq<C>,
    d2: Seq<D>,
    e2: Seq<E>,
    f2: Seq<F>,
)
    requires
        a == a2,
        b == b2,
        c == c2,
        d == d2,
        e == e2,
        f == f2,
    ensures
        zipped6(a, b, c, d, e, f) == zipped6(a2, b2, c2, d2, e2, f2),
{
}

/// Combining the first 6 inputs, pairing the result with the seventh and
/// flattening loses nothing and keeps the order: it is the direct
/// 7-way combination.
pub proof fn lemma_flatten7<A, B, C, D, E, F, G>(
    a: Seq<A>,
    b: Seq<B>,
    c: Seq<C>,
    d: Seq<D>,
    e: Seq<E>,
    f: Seq<F>,
    g: Seq<G>,
)
    ensures
        flatten7(zipped2(zipped6(a, b, c, d, e, f), g)) == zipped7(a, b, c, d, e, f, g),
{
    assert(flatten7(zipped2(zipped6(a, b, c, d, e, f), g)) =~= zipped7(a, b, c, d, e, f, g));
}

/// Seven inputs of one length give exactly that many tuples, the
/// `idx`-th holding the `idx`-th element of each input, in argument order.
pub proof fn lemma_equal_lengths7<A, B, C, D, E, F, G>(
    a: Seq<A>,
    b: Seq<B>,
    c: Seq<C>,
    d: Seq<D>,
    e: Seq<E>,
    f: Seq<F>,
    g: Seq<G>,
    len: nat,
)
    requires
        a.len() == len,
        b.len() == len,
        c.len() == len,
        d.len() == len,
        e.len() == len,
        f.len() == len,
        g.len() == len,
    ensures
        zipped7(a, b, c, d, e, f, g).len() == len,
        forall|idx: int| 0 <= idx < len ==> #[trigger] zipped7(a, b, c, d, e, f, g)[idx] == (a[idx], b[idx], c[idx], d[idx], e[idx], f[idx], g[idx]),
{
}

/// If any of the seven inputs is empty, so is their combination.
pub proof fn lemma_empty_input7<A, B, C, D, E, F, G>(
    a: Seq<A>,
    b: Seq<B>,
    c: Seq<C>,
    d: Seq<D>,
    e: Seq<E>,
    f: Seq<F>,
    g: Seq<G>,
)
    requires
        a.len() == 0
            || b.len() == 0
            || c.len() == 0
            || d.len() == 0
            || e.len() == 0
            || f.len() == 0
            || g.len() == 0,
    ensures
        zipped7(a, b, c, d, e, f, g).len() == 0,
{
}

/// Rebuilding the 7-way combination from fresh sources that hold the same
/// elements yields the same tuples, in the same order.
pub proof fn lemma_rederive7<A, B, C, D, E, F, G>(
    a: Seq<A>,
    b: Seq<B>,
    c: Seq<C>,
    d: Seq<D>,
    e: Seq<E>,
    f: Seq<F>,
    g: Seq<G>,
    a2: Seq<A>,
    b2: Seq<B>,
    c2: Seq<C>,
    d2: Seq<D>,
    e2: Seq<E>,
    f2: Seq<F>,
    g2: Seq<G>,
)
    requires
        a == a2,
        b == b2,
        c == c2,
        d == d2,
        e == e2,
        f == f2,
        g == g2,
    ensures
        zipped7(a, b, c, d, e, f, g) == zipped7(a2, b2, c2, d2, e2, f2, g2),
{
}

/// Combining the first 7 inputs, pairing the result with the eighth and
/// flattening loses nothing and keeps the order: it is the direct
/// 8-way combination.
pub proof fn lemma_flatten8<A, B, C, D, E, F, G, H>(
    a: Seq<A>,
    b: Seq<B>,
    c: Seq<C>,
    d: Seq<D>,
    e: Seq<E>,
    f: Seq<F>,
    g: Seq<G>,
    h: Seq<H>,
)
    ensures
        flatten8(zipped2(zipped7(a, b, c, d, e, f, g), h)) == zipped8(a, b, c, d, e, f, g, h),
{
    assert(flatten8(zipped2(zipped7(a, b, c, d, e, f, g), h)) =~= zipped8(a, b, c, d, e, f, g, h));
}

/// Eight inputs of one length give exactly that many tuples, the
/// `idx`-th holding the `idx`-th element of each input, in argument order.
pub proof fn lemma_equal_lengths8<A, B, C, D, E, F, G, H>(
    a: Seq<A>,
    b: Seq<B>,
    c: Seq<C>,
    d: Seq<D>,
    e: Seq<E>,
    f: Seq<F>,
    g: Seq<G>,
    h: Seq<H>,
    len: nat,
)
    requires
        a.len() == len,
        b.len() == len,
        c.len() == len,
        d.len() == len,
        e.len() == len,
        f.len() == len,
        g.len() == len,
        h.len() == len,
    ensures
        zipped8(a, b, c, d, e, f, g, h).len() == len,
        forall|idx: int| 0 <= idx < len ==> #[trigger] zipped8(a, b, c, d, e, f, g, h)[idx] == (a[idx], b[idx], c[idx], d[idx], e[idx], f[idx], g[idx], h[idx]),
{
}

/// If any of the eight inputs is empty, so is their combination.
pub proof fn lemma_empty_input8<A, B, C, D, E, F, G, H>(
    a: Seq<A>,
    b: Seq<B>,
    c: Seq<C>,
    d: Seq<D>,
    e: Seq<E>,
    f: Seq<F>,
    g: Seq<G>,
    h: Seq<H>,
)
    requires
        a.len() == 0
            || b.len() == 0
            || c.len() == 0
            || d.len() == 0
            || e.len() == 0
            || f.len() == 0
            || g.len() == 0
            || h.len() == 0,
    ensures
        zipped8(a, b, c, d, e, f, g, h).len() == 0,
{
}

/// Rebuilding the 8-way combination from fresh sources that hold the same
/// elements yields the same tuples, in the same order.
pub proof fn lemma_rederive8<A, B, C, D, E, F, G, H>(
    a: Seq<A>,
    b: Seq<B>,
    c: Seq<C>,
    d: Seq<D>,
    e: Seq<E>,
    f: Seq<F>,
    g: Seq<G>,
    h: Seq<H>,
    a2: Seq<A>,
    b2: Seq<B>,
    c2: Seq<C>,
    d2: Seq<D>,
    e2: Seq<E>,
    f2: Seq<F>,
    g2: Seq<G>,
    h2: Seq<H>,
)
    requires
        a == a2,
        b == b2,
        c == c2,
        d == d2,
        e == e2,
        f == f2,
        g == g2,
        h == h2,
    ensures
        zipped8(a, b, c, d, e, f, g, h) == zipped8(a2, b2, c2, d2, e2, f2, g2, h2),
{
}

/// Combining the first 8 inputs, pairing the result with the ninth and
/// flattening loses nothing and keeps the order: it is the direct
/// 9-way combination.
pub proof fn lemma_flatten9<A, B, C, D, E, F, G, H, I>(
    a: Seq<A>,
    b: Seq<B>,
    c: Seq<C>,
    d: Seq<D>,
    e: Seq<E>,
    f: Seq<F>,
    g: Seq<G>,
    h: Seq<H>,
    i: Seq<I>,
)
    ensures
        flatten9(zipped2(zipped8(a, b, c, d, e, f, g, h), i)) == zipped9(a, b, c, d, e, f, g, h, i),
{
    assert(flatten9(zipped2(zipped8(a, b, c, d, e, f, g, h), i)) =~= zipped9(a, b, c, d, e, f, g, h, i));
}

/// Nine inputs of one length give exactly that many tuples, the
/// `idx`-th holding the `idx`-th element of each input, in argument order.
pub proof fn lemma_equal_lengths9<A, B, C, D, E, F, G, H, I>(
    a: Seq<A>,
    b: Seq<B>,
    c: Seq<C>,
    d: Seq<D>,
    e: Seq<E>,
    f: Seq<F>,
    g: Seq<G>,
    h: Seq<H>,
    i: Seq<I>,
    len: nat,
)
    requires
        a.len() == len,
        b.len() == len,
        c.len() == len,
        d.len() == len,
        e.len() == len,
        f.len() == len,
        g.len() == len,
        h.len() == len,
        i.len() == len,
    ensures
        zipped9(a, b, c, d, e, f, g, h, i).len() == len,
        forall|idx: int| 0 <= idx < len ==> #[trigger] zipped9(a, b, c, d, e, f, g, h, i)[idx] == (a[idx], b[idx], c[idx], d[idx], e[idx], f[idx], g[idx], h[idx], i[idx]),
{
}

/// If any of the nine inputs is empty, so is their combination.
pub proof fn lemma_empty_input9<A, B, C, D, E, F, G, H, I>(
    a: Seq<A>,
    b: Seq<B>,
    c: Seq<C>,
    d: Seq<D>,
    e: Seq<E>,
    f: Seq<F>,
    g: Seq<G>,
    h: Seq<H>,
    i: Seq<I>,
)
    requires
        a.len() == 0
            || b.len() == 0
            || c.len() == 0
            || d.len() == 0
            || e.len() == 0
            || f.len() == 0
            || g.len() == 0
            || h.len() == 0
            || i.len() == 0,
    ensures
        zipped9(a, b, c, d, e, f, g, h, i).len() == 0,
{
}

/// Rebuilding the 9-way combination from fresh sources that hold the same
/// elements yields the same tuples, in the same order.
pub proof fn lemma_rederive9<A, B, C, D, E, F, G, H, I>(
    a: Seq<A>,
    b: Seq<B>,
    c: Seq<C>,
    d: Seq<D>,
    e: Seq<E>,
    f: Seq<F>,
    g: Seq<G>,
    h: Seq<H>,
    i: Seq<I>,
    a2: Seq<A>,
    b2: Seq<B>,
    c2: Seq<C>,
    d2: Seq<D>,
    e2: Seq<E>,
    f2: Seq<F>,
    g2: Seq<G>,
    h2: Seq<H>,
    i2: Seq<I>,
)
    requires
        a == a2,
        b == b2,
        c == c2,
        d == d2,
        e == e2,
        f == f2,
        g == g2,
        h == h2,
        i == i2,
    ensures
        zipped9(a, b, c, d, e, f, g, h, i) == zipped9(a2, b2, c2, d2, e2, f2, g2, h2, i2),
{
}

/// Combining the first 9 inputs, pairing the result with the tenth and
/// flattening loses nothing and keeps the order: it is the direct
/// 10-way combination.
pub proof fn lemma_flatten10<A, B, C, D, E, F, G, H, I, J>(
    a: Seq<A>,
    b: Seq<B>,
    c: Seq<C>,
    d: Seq<D>,
    e: Seq<E>,
    f: Seq<F>,
    g: Seq<G>,
    h: Seq<H>,
    i: Seq<I>,
    j: Seq<J>,
)
    ensures
        flatten10(zipped2(zipped9(a, b, c, d, e, f, g, h, i), j)) == zipped10(a, b, c, d, e, f, g, h, i, j),
{
    assert(flatten10(zipped2(zipped9(a, b, c, d, e, f, g, h, i), j)) =~= zipped10(a, b, c, d, e, f, g, h, i, j));
}

/// Ten inputs of one length give exactly that many tuples, the
/// `idx`-th holding the `idx`-th element of each input, in argument order.
pub proof fn lemma_equal_lengths10<A, B, C, D, E, F, G, H, I, J>(
    a: Seq<A>,
    b: Seq<B>,
    c: Seq<C>,
    d: Seq<D>,
    e: Seq<E>,
    f: Seq<F>,
    g: Seq<G>,
    h: Seq<H>,
    i: Seq<I>,
    j: Seq<J>,
    len: nat,
)
    requires
        a.len() == len,
        b.len() == len,
        c.len() == len,
        d.len() == len,
        e.len() == len,
        f.len() == len,
        g.len() == len,
        h.len() == len,
        i.len() == len,
        j.len() == len,
    ensures
        zipped10(a, b, c, d, e, f, g, h, i, j).len() == len,
        forall|idx: int| 0 <= idx < len ==> #[trigger] zipped10(a, b, c, d, e, f, g, h, i, j)[idx] == (a[idx], b[idx], c[idx], d[idx], e[idx], f[idx], g[idx], h[idx], i[idx], j[idx]),
{
}

/// If any of the ten inputs is empty, so is their combination.
pub proof fn lemma_empty_input10<A, B, C, D, E, F, G, H, I, J>(
    a: Seq<A>,
    b: Seq<B>,
    c: Seq<C>,
    d: Seq<D>,
    e: Seq<E>,
    f: Seq<F>,
    g: Seq<G>,
    h: Seq<H>,
    i: Seq<I>,
    j: Seq<J>,
)
    requires
        a.len() == 0
            || b.len() == 0
            || c.len() == 0
            || d.len() == 0
            || e.len() == 0
            || f.len() == 0
            || g.len() == 0
            || h.len() == 0
            || i.len() == 0
            || j.len() == 0,
    ensures
        zipped10(a, b, c, d, e, f, g, h, i, j).len() == 0,
{
}

/// Rebuilding the 10-way combination from fresh sources that hold the same
/// elements yields the same tuples, in the same order.
pub proof fn lemma_rederive10<A, B, C, D, E, F, G, H, I, J>(
    a: Seq<A>,
    b: Seq<B>,
    c: Seq<C>,
    d: Seq<D>,
    e: Seq<E>,
    f: Seq<F>,
    g: Seq<G>,
    h: Seq<H>,
    i: Seq<I>,
    j: Seq<J>,
    a2: Seq<A>,
    b2: Seq<B>,
    c2: Seq<C>,
    d2: Seq<D>,
    e2: Seq<E>,
    f2: Seq<F>,
    g2: Seq<G>,
    h2: Seq<H>,
    i2: Seq<I>,
    j2: Seq<J>,
)
    requires
        a == a2,
        b == b2,
        c == c2,
        d == d2,
        e == e2,
        f == f2,
        g == g2,
        h == h2,
        i == i2,
        j == j2,
    ensures
        zipped10(a, b, c, d, e, f, g, h, i, j) == zipped10(a2, b2, c2, d2, e2, f2, g2, h2, i2, j2),
{
}

/// Combining the first 10 inputs, pairing the result with the eleventh and
/// flattening loses nothing and keeps the order: it is the direct
/// 11-way combination.
pub proof fn lemma_flatten11<A, B, C, D, E, F, G, H, I, J, K>(
    a: Seq<A>,
    b: Seq<B>,
    c: Seq<C>,
    d: Seq<D>,
    e: Seq<E>,
    f: Seq<F>,
    g: Seq<G>,
    h: Seq<H>,
    i: Seq<I>,
    j: Seq<J>,
    k: Seq<K>,
)
    ensures
        flatten11(zipped2(zipped10(a, b, c, d, e, f, g, h, i, j), k)) == zipped11(a, b, c, d, e, f, g, h, i, j, k),
{
    assert(flatten11(zipped2(zipped10(a, b, c, d, e, f, g, h, i, j), k)) =~= zipped11(a, b, c, d, e, f, g, h, i, j, k));
}

/// Eleven inputs of one length give exactly that many tuples, the
/// `idx`-th holding the `idx`-th element of each input, in argument order.
pub proof fn lemma_equal_lengths11<A, B, C, D, E, F, G, H, I, J, K>(
    a: Seq<A>,
    b: Seq<B>,
    c: Seq<C>,
    d: Seq<D>,
    e: Seq<E>,
    f: Seq<F>,
    g: Seq<G>,
    h: Seq<H>,
    i: Seq<I>,
    j: Seq<J>,
    k: Seq<K>,
    len: nat,
)
    requires
        a.len() == len,
        b.len() == len,
        c.len() == len,
        d.len() == len,
        e.len() == len,
        f.len() == len,
        g.len() == len,
        h.len() == len,
        i.len() == len,
        j.len() == len,
        k.len() == len,
    ensures
        zipped11(a, b, c, d, e, f, g, h, i, j, k).len() == len,
        forall|idx: int| 0 <= idx < len ==> #[trigger] zipped11(a, b, c, d, e, f, g, h, i, j, k)[idx] == (a[idx], b[idx], c[idx], d[idx], e[idx], f[idx], g[idx], h[idx], i[idx], j[idx], k[idx]),
{
}

/// If any of the eleven inputs is empty, so is their combination.
pub proof fn lemma_empty_input11<A, B, C, D, E, F, G, H, I, J, K>(
    a: Seq<A>,
    b: Seq<B>,
    c: Seq<C>,
    d: Seq<D>,
    e: Seq<E>,
    f: Seq<F>,
    g: Seq<G>,
    h: Seq<H>,
    i: Seq<I>,
    j: Seq<J>,
    k: Seq<K>,
)
    requires
        a.len() == 0
            || b.len() == 0
            || c.len() == 0
            || d.len() == 0
            || e.len() == 0
            || f.len() == 0
            || g.len() == 0
            || h.len() == 0
            || i.len() == 0
            || j.len() == 0
            || k.len() == 0,
    ensures
        zipped11(a, b, c, d, e, f, g, h, i, j, k).len() == 0,
{
}

/// Rebuilding the 11-way combination from fresh sources that hold the same
/// elements yields the same tuples, in the same order.
pub proof fn lemma_rederive11<A, B, C, D, E, F, G, H, I, J, K>(
    a: Seq<A>,
    b: Seq<B>,
    c: Seq<C>,
    d: Seq<D>,
    e: Seq<E>,
    f: Seq<F>,
    g: Seq<G>,
    h: Seq<H>,
    i: Seq<I>,
    j: Seq<J>,
    k: Seq<K>,
    a2: Seq<A>,
    b2: Seq<B>,
    c2: Seq<C>,
    d2: Seq<D>,
    e2: Seq<E>,
    f2: Seq<F>,
    g2: Seq<G>,
    h2: Seq<H>,
    i2: Seq<I>,
    j2: Seq<J>,
    k2: Seq<K>,
)
    requires
        a == a2,
        b == b2,
        c == c2,
        d == d2,
        e == e2,
        f == f2,
        g == g2,
        h == h2,
        i == i2,
        j == j2,
        k == k2,
    ensures
        zipped11(a, b, c, d, e, f, g, h, i, j, k) == zipped11(a2, b2, c2, d2, e2, f2, g2, h2, i2, j2, k2),
{
}

/// Combining the first 11 inputs, pairing the result with the twelfth and
/// flattening loses nothing and keeps the order: it is the direct
/// 12-way combination.
pub proof fn lemma_flatten12<A, B, C, D, E, F, G, H, I, J, K, L>(
    a: Seq<A>,
    b: Seq<B>,
    c: Seq<C>,
    d: Seq<D>,
    e: Seq<E>,
    f: Seq<F>,
    g: Seq<G>,
    h: Seq<H>,
    i: Seq<I>,
    j: Seq<J>,
    k: Seq<K>,
    l: Seq<L>,
)
    ensures
        flatten12(zipped2(zipped11(a, b, c, d, e, f, g, h, i, j, k), l)) == zipped12(a, b, c, d, e, f, g, h, i, j, k, l),
{
    assert(flatten12(zipped2(zipped11(a, b, c, d, e, f, g, h, i, j, k), l)) =~= zipped12(a, b, c, d, e, f, g, h, i, j, k, l));
}

/// Twelve inputs of one length give exactly that many tuples, the
/// `idx`-th holding the `idx`-th element of each input, in argument order.
pub proof fn lemma_equal_lengths12<A, B, C, D, E, F, G, H, I, J, K, L>(
    a: Seq<A>,
    b: Seq<B>,
    c: Seq<C>,
    d: Seq<D>,
    e: Seq<E>,
    f: Seq<F>,
    g: Seq<G>,
    h: Seq<H>,
    i: Seq<I>,
    j: Seq<J>,
    k: Seq<K>,
    l: Seq<L>,
    len: nat,
)
    requires
        a.len() == len,
        b.len() == len,
        c.len() == len,
        d.len() == len,
        e.len() == len,
        f.len() == len,
        g.len() == len,
        h.len() == len,
        i.len() == len,
        j.len() == len,
        k.len() == len,
        l.len() == len,
    ensures
        zipped12(a, b, c, d, e, f, g, h, i, j, k, l).len() == len,
        forall|idx: int| 0 <= idx < len ==> #[trigger] zipped12(a, b, c, d, e, f, g, h, i, j, k, l)[idx] == (a[idx], b[idx], c[idx], d[idx], e[idx], f[idx], g[idx], h[idx], i[idx], j[idx], k[idx], l[idx]),
{
}

/// If any of the twelve inputs is empty, so is their combination.
pub proof fn lemma_empty_input12<A, B, C, D, E, F, G, H, I, J, K, L>(
    a: Seq<A>,
    b: Seq<B>,
    c: Seq<C>,
    d: Seq<D>,
    e: Seq<E>,
    f: Seq<F>,
    g: Seq<G>,
    h: Seq<H>,
    i: Seq<I>,
    j: Seq<J>,
    k: Seq<K>,
    l: Seq<L>,
)
    requires
        a.len() == 0
            || b.len() == 0
            || c.len() == 0
            || d.len() == 0
            || e.len() == 0
            || f.len() == 0
            || g.len() == 0
            || h.len() == 0
            || i.len() == 0
            || j.len() == 0
            || k.len() == 0
            || l.len() == 0,
    ensures
        zipped12(a, b, c, d, e, f, g, h, i, j, k, l).len() == 0,
{
}

/// Rebuilding the 12-way combination from fresh sources that hold the same
/// elements yields the same tuples, in the same order.
pub proof fn lemma_rederive12<A, B, C, D, E, F, G, H, I, J, K, L>(
    a: Seq<A>,
    b: Seq<B>,
    c: Seq<C>,
    d: Seq<D>,
    e: Seq<E>,
    f: Seq<F>,
    g: Seq<G>,
    h: Seq<H>,
    i: Seq<I>,
    j: Seq<J>,
    k: Seq<K>,
    l: Seq<L>,
    a2: Seq<A>,
    b2: Seq<B>,
    c2: Seq<C>,
    d2: Seq<D>,
    e2: Seq<E>,
    f2: Seq<F>,
    g2: Seq<G>,
    h2: Seq<H>,
    i2: Seq<I>,
    j2: Seq<J>,
    k2: Seq<K>,
    l2: Seq<L>,
)
    requires
        a == a2,
        b == b2,
        c == c2,
        d == d2,
        e == e2,
        f == f2,
        g == g2,
        h == h2,
        i == i2,
        j == j2,
        k == k2,
        l == l2,
    ensures
        zipped12(a, b, c, d, e, f, g, h, i, j, k, l) == zipped12(a2, b2, c2, d2, e2, f2, g2, h2, i2, j2, k2, l2),
{
}

} // verus!
