use std::hash::Hasher;

use rls_span::{Column, Location, OneIndexed, Position, Range, Row, Span, ZeroIndexed};

fn pos(row: u32, col: u32) -> Position<ZeroIndexed> {
    Position::new(Row::new(row), Column::new(col))
}

#[test]
fn position_column_breaks_ties() {
    let p1 = pos(3, 5);
    let p2 = pos(3, 7);
    assert!(p1 < p2);
    assert!(p2 > p1);
    assert_ne!(p1, p2);
}

#[test]
fn position_row_dominates_column() {
    let p1 = pos(2, 99);
    let p2 = pos(3, 0);
    assert!(p1 < p2);
}

#[test]
fn position_equality_is_structural() {
    assert_eq!(pos(4, 2), pos(4, 2));
    let p1: Position<OneIndexed> = Position::new(Row::new(1), Column::new(1));
    let p2: Position<OneIndexed> = Position::new(Row::new(1), Column::new(1));
    assert_eq!(p1, p2);
    assert_eq!(p1.partial_cmp(&p2), Some(std::cmp::Ordering::Equal));
}

#[test]
fn coordinate_order_follows_raw_value() {
    let a: Row<ZeroIndexed> = Row::new(1);
    let b: Row<ZeroIndexed> = Row::new(2);
    assert!(a < b);
    assert!(Column::<OneIndexed>::new(0) < Column::<OneIndexed>::new(u32::MAX));
}

#[test]
fn range_order_is_lexicographic() {
    let mk = |a: u32, b: u32, c: u32, d: u32| -> Range<ZeroIndexed> {
        Range::new(Row::new(a), Row::new(b), Column::new(c), Column::new(d))
    };
    assert!(mk(0, 9, 9, 9) < mk(1, 0, 0, 0));
    assert!(mk(1, 2, 9, 9) < mk(1, 3, 0, 0));
    assert!(mk(1, 2, 3, 9) < mk(1, 2, 4, 0));
    assert!(mk(1, 2, 3, 4) < mk(1, 2, 3, 5));
    assert_eq!(mk(1, 2, 3, 4), mk(1, 2, 3, 4));
}

#[test]
fn location_order_file_first() {
    let a: Location<ZeroIndexed> =
        Location::new(Row::new(9), Column::new(9), String::from("a.x"));
    let b: Location<ZeroIndexed> =
        Location::new(Row::new(0), Column::new(0), String::from("b.x"));
    assert!(a < b);
    let c: Location<ZeroIndexed> =
        Location::new(Row::new(1), Column::new(0), String::from("a.x"));
    assert!(a > c);
}

#[test]
fn span_equality_and_order() {
    let mk = |file: &str, rs: u32| -> Span<ZeroIndexed> {
        Span::new(Row::new(rs), Row::new(5), Column::new(0), Column::new(1), String::from(file))
    };
    assert_eq!(mk("s.x", 1), mk("s.x", 1));
    assert!(mk("s.x", 1) < mk("s.x", 2));
    assert!(mk("a.x", 9) < mk("s.x", 0));
}

fn hash_of<T: std::hash::Hash>(t: &T) -> u64 {
    let mut h = std::collections::hash_map::DefaultHasher::new();
    t.hash(&mut h);
    h.finish()
}

#[test]
fn equal_values_hash_identically() {
    let s1: Span<ZeroIndexed> = Span::new(
        Row::new(0),
        Row::new(2),
        Column::new(4),
        Column::new(0),
        String::from("h.x"),
    );
    let s2: Span<ZeroIndexed> = Span::from_range(
        Range::new(Row::new(0), Row::new(2), Column::new(4), Column::new(0)),
        String::from("h.x"),
    );
    assert_eq!(s1, s2);
    assert_eq!(hash_of(&s1), hash_of(&s2));
    assert_eq!(hash_of(&pos(7, 8)), hash_of(&pos(7, 8)));
}

#[test]
fn positions_sort_by_row_then_column() {
    let mut v = vec![pos(3, 0), pos(1, 5), pos(2, 9), pos(1, 2)];
    v.sort();
    assert_eq!(v, vec![pos(1, 2), pos(1, 5), pos(2, 9), pos(3, 0)]);
}

#[test]
fn clone_preserves_value() {
    let l: Location<OneIndexed> =
        Location::new(Row::new(2), Column::new(3), String::from("c.x"));
    assert_eq!(l.clone(), l);
    let s: Span<OneIndexed> = Span::from_range(
        Range::new(Row::new(1), Row::new(2), Column::new(3), Column::new(4)),
        String::from("d.x"),
    );
    assert_eq!(s.clone(), s);
}
