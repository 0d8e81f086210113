use rls_span::{Column, ConvertError, Location, OneIndexed, Position, Range, Row, Span, ZeroIndexed};

fn one_pos(row: u32, col: u32) -> Position<OneIndexed> {
    Position::new(Row::new(row), Column::new(col))
}

#[test]
fn column_round_trip() {
    for v in [1u32, 2, 77, u32::MAX] {
        let c: Column<OneIndexed> = Column::new(v);
        let back = c.zero_indexed().unwrap().one_indexed();
        assert_eq!(back, c);
        assert_eq!(back.0, v);
    }
}

#[test]
fn row_round_trip() {
    for v in [1u32, 2, 77, u32::MAX] {
        let r: Row<OneIndexed> = Row::new(v);
        let back = r.zero_indexed().unwrap().one_indexed();
        assert_eq!(back, r);
        assert_eq!(back.0, v);
    }
}

#[test]
fn position_round_trip() {
    let p = one_pos(3, 1);
    let back = p.zero_indexed().unwrap().one_indexed();
    assert_eq!(back, p);
}

#[test]
fn range_round_trip() {
    let r: Range<OneIndexed> =
        Range::new(Row::new(1), Row::new(4), Column::new(2), Column::new(9));
    let back = r.zero_indexed().unwrap().one_indexed();
    assert_eq!(back, r);
}

#[test]
fn location_round_trip() {
    let l: Location<OneIndexed> =
        Location::new(Row::new(5), Column::new(6), String::from("lib.x"));
    let back = l.zero_indexed().unwrap().one_indexed();
    assert_eq!(back, l);
}

#[test]
fn span_round_trip() {
    let s: Span<OneIndexed> = Span::new(
        Row::new(1),
        Row::new(3),
        Column::new(1),
        Column::new(80),
        String::from("mod.x"),
    );
    let back = s.zero_indexed().unwrap().one_indexed();
    assert_eq!(back, s);
}

#[test]
fn conversion_arithmetic_to_zero_indexed() {
    for v in [1u32, 2, u32::MAX - 1, u32::MAX] {
        let c: Column<OneIndexed> = Column::new(v);
        assert_eq!(c.zero_indexed().unwrap().0, v - 1);
        let r: Row<OneIndexed> = Row::new(v);
        assert_eq!(r.zero_indexed().unwrap().0, v - 1);
    }
}

#[test]
fn conversion_arithmetic_to_one_indexed() {
    for v in [0u32, 1, 2, u32::MAX - 1] {
        let c: Column<ZeroIndexed> = Column::new(v);
        assert_eq!(c.one_indexed().0, v + 1);
        let r: Row<ZeroIndexed> = Row::new(v);
        assert_eq!(r.one_indexed().0, v + 1);
    }
}

#[test]
fn underflow_column() {
    let c: Column<OneIndexed> = Column::new(0);
    assert_eq!(c.zero_indexed(), Err(ConvertError::ArithmeticUnderflow));
}

#[test]
fn underflow_row() {
    let r: Row<OneIndexed> = Row::new(0);
    assert_eq!(r.zero_indexed(), Err(ConvertError::ArithmeticUnderflow));
}

#[test]
fn underflow_position() {
    assert_eq!(one_pos(0, 7).zero_indexed(), Err(ConvertError::ArithmeticUnderflow));
    assert_eq!(one_pos(7, 0).zero_indexed(), Err(ConvertError::ArithmeticUnderflow));
    assert!(one_pos(7, 7).zero_indexed().is_ok());
}

#[test]
fn underflow_range() {
    let mk = |a: u32, b: u32, c: u32, d: u32| -> Range<OneIndexed> {
        Range::new(Row::new(a), Row::new(b), Column::new(c), Column::new(d))
    };
    assert_eq!(mk(0, 1, 1, 1).zero_indexed(), Err(ConvertError::ArithmeticUnderflow));
    assert_eq!(mk(1, 0, 1, 1).zero_indexed(), Err(ConvertError::ArithmeticUnderflow));
    assert_eq!(mk(1, 1, 0, 1).zero_indexed(), Err(ConvertError::ArithmeticUnderflow));
    assert_eq!(mk(1, 1, 1, 0).zero_indexed(), Err(ConvertError::ArithmeticUnderflow));
    assert!(mk(1, 1, 1, 1).zero_indexed().is_ok());
}

#[test]
fn underflow_location() {
    let l: Location<OneIndexed> =
        Location::new(Row::new(0), Column::new(3), String::from("a.x"));
    assert_eq!(l.zero_indexed(), Err(ConvertError::ArithmeticUnderflow));
}

#[test]
fn underflow_span() {
    let s: Span<OneIndexed> = Span::new(
        Row::new(1),
        Row::new(1),
        Column::new(0),
        Column::new(1),
        String::from("a.x"),
    );
    assert_eq!(s.zero_indexed(), Err(ConvertError::ArithmeticUnderflow));
}

#[test]
fn conversion_keeps_inverted_ranges() {
    let r: Range<OneIndexed> =
        Range::new(Row::new(9), Row::new(2), Column::new(8), Column::new(1));
    let z = r.zero_indexed().unwrap();
    assert_eq!(z, Range::new(Row::new(8), Row::new(1), Column::new(7), Column::new(0)));
}

#[test]
fn conversion_preserves_file() {
    let l: Location<ZeroIndexed> =
        Location::new(Row::new(0), Column::new(0), String::from("deep/dir/name.x"));
    assert_eq!(l.one_indexed().file, "deep/dir/name.x");
}
