use multizip::{
    drain, zip12, zip2, zip3, zip4, Cursor, SliceCursor, VecCursor,
};

#[test]
fn three_ranges_combine_positionally() {
    let got = drain(zip3(
        VecCursor::new(vec![0, 1, 2]),
        VecCursor::new(vec![3, 4, 5]),
        VecCursor::new(vec![6, 7, 8]),
    ));
    assert_eq!(got, vec![(0, 3, 6), (1, 4, 7), (2, 5, 8)]);
}

#[test]
fn four_unequal_lengths_stop_at_shortest() {
    let got = drain(zip4(
        VecCursor::new(vec![0, 1, 2, 9]),
        VecCursor::new(vec![3, 4, 5]),
        VecCursor::new(vec![6, 7, 8]),
        VecCursor::new(vec![9, 10, 11]),
    ));
    assert_eq!(got.len(), 3);
    assert_eq!(got, vec![(0, 3, 6, 9), (1, 4, 7, 10), (2, 5, 8, 11)]);
}

#[test]
fn shortest_input_last_truncates() {
    let got = drain(zip3(
        VecCursor::new(vec![1, 2, 3, 4]),
        VecCursor::new(vec![5, 6, 7]),
        VecCursor::new(vec![8]),
    ));
    assert_eq!(got, vec![(1, 5, 8)]);
}

#[test]
fn twelve_ranges_make_three_tuples() {
    let r = |k: u32| VecCursor::new(vec![3 * k, 3 * k + 1, 3 * k + 2]);
    let got = drain(zip12(
        r(0),
        r(1),
        r(2),
        r(3),
        r(4),
        r(5),
        r(6),
        r(7),
        r(8),
        r(9),
        r(10),
        r(11),
    ));
    assert_eq!(got.len(), 3);
    for (row, t) in got.iter().enumerate() {
        let row = row as u32;
        let flat = [t.0, t.1, t.2, t.3, t.4, t.5, t.6, t.7, t.8, t.9, t.10, t.11];
        for (k, x) in flat.iter().enumerate() {
            assert_eq!(*x, 3 * k as u32 + row);
        }
    }
}

#[test]
fn empty_middle_input_gives_nothing() {
    let got = drain(zip3(
        VecCursor::new(vec![1, 2, 3]),
        VecCursor::new(Vec::<u8>::new()),
        VecCursor::new(vec![4, 5, 6]),
    ));
    assert!(got.is_empty());
}

#[test]
fn empty_first_input_of_pair_gives_nothing() {
    let empty: [i32; 0] = [];
    let full = [1, 2, 3];
    let got = drain(zip2(SliceCursor::new(&empty), SliceCursor::new(&full)));
    assert!(got.is_empty());
}

#[test]
fn empty_last_of_twelve_gives_nothing() {
    let one = || VecCursor::new(vec![7u8]);
    let got = drain(zip12(
        one(),
        one(),
        one(),
        one(),
        one(),
        one(),
        one(),
        one(),
        one(),
        one(),
        one(),
        VecCursor::new(Vec::<u8>::new()),
    ));
    assert!(got.is_empty());
}

#[test]
fn rebuilding_from_equal_sources_repeats_output() {
    let run = || {
        drain(zip4(
            VecCursor::new(vec![1, 2, 3]),
            VecCursor::new(vec!['x', 'y']),
            VecCursor::new(vec![true, false, true]),
            VecCursor::new(vec![10u64, 20, 30, 40]),
        ))
    };
    let first = run();
    let second = run();
    assert_eq!(first, vec![(1, 'x', true, 10), (2, 'y', false, 20)]);
    assert_eq!(first, second);
}

#[test]
fn nested_pairs_match_flat_triples() {
    let nested = drain(zip2(
        zip2(VecCursor::new(vec![1, 2]), VecCursor::new(vec![3, 4])),
        VecCursor::new(vec![5, 6]),
    ));
    let flat = drain(zip3(
        VecCursor::new(vec![1, 2]),
        VecCursor::new(vec![3, 4]),
        VecCursor::new(vec![5, 6]),
    ));
    let flattened: Vec<_> = nested.into_iter().map(|((x, y), z)| (x, y, z)).collect();
    assert_eq!(flattened, flat);
}

#[test]
fn construction_pulls_nothing() {
    let z = zip3(
        VecCursor::new(vec![1, 2, 3]),
        VecCursor::new(vec![4, 5, 6, 7]),
        VecCursor::new(vec![8, 9, 10]),
    );
    assert_eq!(z.size_hint(), (3, Some(3)));
    assert_eq!(drain(z).len(), 3);
}

#[test]
fn exhausted_stays_exhausted() {
    let mut z = zip2(VecCursor::new(vec![1]), VecCursor::new(vec![2, 3]));
    assert_eq!(z.pull(), Some((1, 2)));
    assert_eq!(z.pull(), None);
    assert_eq!(z.pull(), None);
    assert_eq!(z.size_hint(), (0, Some(0)));
}

#[test]
fn pulls_one_tuple_at_a_time() {
    let mut z = zip3(
        VecCursor::new(vec!["a", "b"]),
        VecCursor::new(vec![1, 2]),
        VecCursor::new(vec![true, false]),
    );
    assert_eq!(z.size_hint(), (2, Some(2)));
    assert_eq!(z.pull(), Some(("a", 1, true)));
    assert_eq!(z.size_hint(), (1, Some(1)));
    assert_eq!(z.pull(), Some(("b", 2, false)));
    assert_eq!(z.pull(), None);
}

#[test]
fn size_hint_takes_smaller_bounds() {
    let z = zip2(VecCursor::new(vec![1, 2, 3, 4, 5]), VecCursor::new(vec![6, 7]));
    assert_eq!(z.size_hint(), (2, Some(2)));
}

#[test]
fn owned_values_move_through() {
    let got = drain(zip2(
        VecCursor::new(vec![String::from("one"), String::from("two")]),
        VecCursor::new(vec![vec![1u8], vec![2u8, 2u8]]),
    ));
    assert_eq!(
        got,
        vec![
            (String::from("one"), vec![1u8]),
            (String::from("two"), vec![2u8, 2u8]),
        ]
    );
}

#[test]
fn vec_cursor_yields_in_order() {
    let mut c = VecCursor::new(vec![5, 6, 7]);
    assert_eq!(c.size_hint(), (3, Some(3)));
    assert_eq!(c.pull(), Some(5));
    assert_eq!(drain(c), vec![6, 7]);
}

#[test]
fn slice_cursor_yields_references() {
    let data = [10, 20, 30];
    let mut c = SliceCursor::new(&data);
    assert_eq!(c.pull(), Some(&10));
    assert_eq!(c.size_hint(), (2, Some(2)));
    assert_eq!(drain(c), vec![&20, &30]);
}

#[test]
fn pair_of_slices_estimates_shorter_length() {
    let x = [0i8, 1, 2, 9];
    let y = [3i8, 4, 5];
    let z = zip2(SliceCursor::new(&x), SliceCursor::new(&y));
    assert_eq!(z.size_hint(), (3, Some(3)));
}

#[test]
fn nested_estimate_takes_smallest_of_three() {
    let z = zip3(
        VecCursor::new(vec![1, 2, 3, 4]),
        VecCursor::new(vec![5, 6]),
        VecCursor::new(vec![7, 8, 9]),
    );
    assert_eq!(z.size_hint(), (2, Some(2)));
}

#[test]
fn exhausted_combination_estimates_zero() {
    let mut z = zip3(
        VecCursor::new(vec![1, 2]),
        VecCursor::new(vec![3]),
        VecCursor::new(vec![4, 5]),
    );
    assert_eq!(z.pull(), Some((1, 3, 4)));
    assert_eq!(z.pull(), None);
    assert_eq!(z.size_hint(), (0, Some(0)));
    assert_eq!(z.pull(), None);
}

#[test]
fn cloned_combination_pulls_independently() {
    let mut z = zip2(VecCursor::new(vec![1, 2]), VecCursor::new(vec![3, 4]));
    assert_eq!(z.pull(), Some((1, 3)));
    let copy = z.clone();
    assert_eq!(drain(z), vec![(2, 4)]);
    assert_eq!(drain(copy), vec![(2, 4)]);
}
