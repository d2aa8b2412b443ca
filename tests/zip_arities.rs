#![allow(non_upper_case_globals)]

use multizip::{
    drain, zip10, zip11, zip12, zip2, zip3, zip4, zip5, zip6, zip7, zip8, zip9, SliceCursor,
};

const a: [i8; 3] = [0, 1, 2];
const b: [i8; 3] = [3, 4, 5];
const c: [i8; 3] = [6, 7, 8];
const d: [i8; 3] = [9, 10, 11];
const e: [i8; 3] = [12, 13, 14];
const f: [i8; 3] = [15, 16, 17];
const g: [i8; 3] = [18, 19, 20];
const h: [i8; 3] = [21, 22, 23];
const i: [i8; 3] = [24, 25, 26];
const j: [i8; 3] = [27, 28, 29];
const k: [i8; 3] = [30, 31, 32];
const l: [i8; 3] = [33, 34, 35];

#[test]
fn test_zip2() {
    let got = drain(zip2(
        SliceCursor::new(&a),
        SliceCursor::new(&b),
    ))
    .into_iter()
    .map(|(&aa, &bb)| (aa, bb))
    .collect::<Vec<_>>();
    assert_eq!(
        got,
        vec![
            (0, 3),
            (1, 4),
            (2, 5),
        ]
    );
}

#[test]
fn test_zip3() {
    let got = drain(zip3(
        SliceCursor::new(&a),
        SliceCursor::new(&b),
        SliceCursor::new(&c),
    ))
    .into_iter()
    .map(|(&aa, &bb, &cc)| (aa, bb, cc))
    .collect::<Vec<_>>();
    assert_eq!(
        got,
        vec![
            (0, 3, 6),
            (1, 4, 7),
            (2, 5, 8),
        ]
    );
}

#[test]
fn test_zip4() {
    let got = drain(zip4(
        SliceCursor::new(&a),
        SliceCursor::new(&b),
        SliceCursor::new(&c),
        SliceCursor::new(&d),
    ))
    .into_iter()
    .map(|(&aa, &bb, &cc, &dd)| (aa, bb, cc, dd))
    .collect::<Vec<_>>();
    assert_eq!(
        got,
        vec![
            (0, 3, 6, 9),
            (1, 4, 7, 10),
            (2, 5, 8, 11),
        ]
    );
}

#[test]
fn test_zip5() {
    let got = drain(zip5(
        SliceCursor::new(&a),
        SliceCursor::new(&b),
        SliceCursor::new(&c),
        SliceCursor::new(&d),
        SliceCursor::new(&e),
    ))
    .into_iter()
    .map(|(&aa, &bb, &cc, &dd, &ee)| (aa, bb, cc, dd, ee))
    .collect::<Vec<_>>();
    assert_eq!(
        got,
        vec![
            (0, 3, 6, 9, 12),
            (1, 4, 7, 10, 13),
            (2, 5, 8, 11, 14),
        ]
    );
}

#[test]
fn test_zip6() {
    let got = drain(zip6(
        SliceCursor::new(&a),
        SliceCursor::new(&b),
        SliceCursor::new(&c),
        SliceCursor::new(&d),
        SliceCursor::new(&e),
        SliceCursor::new(&f),
    ))
    .into_iter()
    .map(|(&aa, &bb, &cc, &dd, &ee, &ff)| (aa, bb, cc, dd, ee, ff))
    .collect::<Vec<_>>();
    assert_eq!(
        got,
        vec![
            (0, 3, 6, 9, 12, 15),
            (1, 4, 7, 10, 13, 16),
            (2, 5, 8, 11, 14, 17),
        ]
    );
}

#[test]
fn test_zip7() {
    let got = drain(zip7(
        SliceCursor::new(&a),
        SliceCursor::new(&b),
        SliceCursor::new(&c),
        SliceCursor::new(&d),
        SliceCursor::new(&e),
        SliceCursor::new(&f),
        SliceCursor::new(&g),
    ))
    .into_iter()
    .map(|(&aa, &bb, &cc, &dd, &ee, &ff, &gg)| (aa, bb, cc, dd, ee, ff, gg))
    .collect::<Vec<_>>();
    assert_eq!(
        got,
        vec![
            (0, 3, 6, 9, 12, 15, 18),
            (1, 4, 7, 10, 13, 16, 19),
            (2, 5, 8, 11, 14, 17, 20),
        ]
    );
}

#[test]
fn test_zip8() {
    let got = drain(zip8(
        SliceCursor::new(&a),
        SliceCursor::new(&b),
        SliceCursor::new(&c),
        SliceCursor::new(&d),
        SliceCursor::new(&e),
        SliceCursor::new(&f),
        SliceCursor::new(&g),
        SliceCursor::new(&h),
    ))
    .into_iter()
    .map(|(&aa, &bb, &cc, &dd, &ee, &ff, &gg, &hh)| (aa, bb, cc, dd, ee, ff, gg, hh))
    .collect::<Vec<_>>();
    assert_eq!(
        got,
        vec![
            (0, 3, 6, 9, 12, 15, 18, 21),
            (1, 4, 7, 10, 13, 16, 19, 22),
            (2, 5, 8, 11, 14, 17, 20, 23),
        ]
    );
}

#[test]
fn test_zip9() {
    let got = drain(zip9(
        SliceCursor::new(&a),
        SliceCursor::new(&b),
        SliceCursor::new(&c),
        SliceCursor::new(&d),
        SliceCursor::new(&e),
        SliceCursor::new(&f),
        SliceCursor::new(&g),
        SliceCursor::new(&h),
        SliceCursor::new(&i),
    ))
    .into_iter()
    .map(|(&aa, &bb, &cc, &dd, &ee, &ff, &gg, &hh, &ii)| (aa, bb, cc, dd, ee, ff, gg, hh, ii))
    .collect::<Vec<_>>();
    assert_eq!(
        got,
        vec![
            (0, 3, 6, 9, 12, 15, 18, 21, 24),
            (1, 4, 7, 10, 13, 16, 19, 22, 25),
            (2, 5, 8, 11, 14, 17, 20, 23, 26),
        ]
    );
}

#[test]
fn test_zip10() {
    let got = drain(zip10(
        SliceCursor::new(&a),
        SliceCursor::new(&b),
        SliceCursor::new(&c),
        SliceCursor::new(&d),
        SliceCursor::new(&e),
        SliceCursor::new(&f),
        SliceCursor::new(&g),
        SliceCursor::new(&h),
        SliceCursor::new(&i),
        SliceCursor::new(&j),
    ))
    .into_iter()
    .map(|(&aa, &bb, &cc, &dd, &ee, &ff, &gg, &hh, &ii, &jj)| (aa, bb, cc, dd, ee, ff, gg, hh, ii, jj))
    .collect::<Vec<_>>();
    assert_eq!(
        got,
        vec![
            (0, 3, 6, 9, 12, 15, 18, 21, 24, 27),
            (1, 4, 7, 10, 13, 16, 19, 22, 25, 28),
            (2, 5, 8, 11, 14, 17, 20, 23, 26, 29),
        ]
    );
}

#[test]
fn test_zip11() {
    let got = drain(zip11(
        SliceCursor::new(&a),
        SliceCursor::new(&b),
        SliceCursor::new(&c),
        SliceCursor::new(&d),
        SliceCursor::new(&e),
        SliceCursor::new(&f),
        SliceCursor::new(&g),
        SliceCursor::new(&h),
        SliceCursor::new(&i),
        SliceCursor::new(&j),
        SliceCursor::new(&k),
    ))
    .into_iter()
    .map(|(&aa, &bb, &cc, &dd, &ee, &ff, &gg, &hh, &ii, &jj, &kk)| (aa, bb, cc, dd, ee, ff, gg, hh, ii, jj, kk))
    .collect::<Vec<_>>();
    assert_eq!(
        got,
        vec![
            (0, 3, 6, 9, 12, 15, 18, 21, 24, 27, 30),
            (1, 4, 7, 10, 13, 16, 19, 22, 25, 28, 31),
            (2, 5, 8, 11, 14, 17, 20, 23, 26, 29, 32),
        ]
    );
}

#[test]
fn test_zip12() {
    let got = drain(zip12(
        SliceCursor::new(&a),
        SliceCursor::new(&b),
        SliceCursor::new(&c),
        SliceCursor::new(&d),
        SliceCursor::new(&e),
        SliceCursor::new(&f),
        SliceCursor::new(&g),
        SliceCursor::new(&h),
        SliceCursor::new(&i),
        SliceCursor::new(&j),
        SliceCursor::new(&k),
        SliceCursor::new(&l),
    ))
    .into_iter()
    .map(|(&aa, &bb, &cc, &dd, &ee, &ff, &gg, &hh, &ii, &jj, &kk, &ll)| (aa, bb, cc, dd, ee, ff, gg, hh, ii, jj, kk, ll))
    .collect::<Vec<_>>();
    assert_eq!(
        got,
        vec![
            (0, 3, 6, 9, 12, 15, 18, 21, 24, 27, 30, 33),
            (1, 4, 7, 10, 13, 16, 19, 22, 25, 28, 31, 34),
            (2, 5, 8, 11, 14, 17, 20, 23, 26, 29, 32, 35),
        ]
    );
}
