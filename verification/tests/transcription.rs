use rls_span::{Column, Location, OneIndexed, Position, Range, Row, Span, ZeroIndexed};

#[test]
fn span_json_round_trip_zero_indexed() {
    let span: Span<ZeroIndexed> = Span::new(
        Row::new(0),
        Row::new(2),
        Column::new(4),
        Column::new(0),
        String::from("src/main.x"),
    );
    let text = serde_json::to_string(&span.encode()).unwrap();
    let enc: (String, u32, u32, u32, u32) = serde_json::from_str(&text).unwrap();
    let decoded: Span<ZeroIndexed> = Span::decode(enc);
    assert_eq!(decoded, span);
}

#[test]
fn span_json_round_trip_one_indexed() {
    let span: Span<OneIndexed> = Span::new(
        Row::new(1),
        Row::new(3),
        Column::new(5),
        Column::new(1),
        String::from("src/main.x"),
    );
    let text = serde_json::to_string(&span.encode()).unwrap();
    let enc: (String, u32, u32, u32, u32) = serde_json::from_str(&text).unwrap();
    let decoded: Span<OneIndexed> = Span::decode(enc);
    assert_eq!(decoded, span);
}

#[test]
fn location_json_round_trip() {
    let loc: Location<OneIndexed> =
        Location::new(Row::new(1), Column::new(u32::MAX), String::from(""));
    let text = serde_json::to_string(&loc.encode()).unwrap();
    let enc: (String, u32, u32) = serde_json::from_str(&text).unwrap();
    assert_eq!(Location::<OneIndexed>::decode(enc), loc);
}

#[test]
fn position_and_range_transcription() {
    let p: Position<ZeroIndexed> = Position::new(Row::new(0), Column::new(u32::MAX));
    assert_eq!(Position::<ZeroIndexed>::decode(p.encode()), p);
    let r: Range<ZeroIndexed> =
        Range::new(Row::new(4), Row::new(3), Column::new(2), Column::new(1));
    assert_eq!(Range::<ZeroIndexed>::decode(r.encode()), r);
    assert_eq!(r.encode(), (4, 3, 2, 1));
}

#[test]
fn range_from_positions_takes_columns_from_start() {
    let start: Position<OneIndexed> = Position::new(Row::new(1), Column::new(1));
    let end: Position<OneIndexed> = Position::new(Row::new(1), Column::new(10));
    let r = Range::from_positions(start, end);
    assert_eq!(r.row_start, Row::new(1));
    assert_eq!(r.row_end, Row::new(1));
    assert_eq!(r.col_start, Column::new(1));
    // Documented policy: the closing column also comes from the start
    // position, not from the end position's column of 10.
    assert_eq!(r.col_end, Column::new(1));
}

#[test]
fn span_from_positions_matches_range_policy() {
    let start: Position<ZeroIndexed> = Position::new(Row::new(2), Column::new(7));
    let end: Position<ZeroIndexed> = Position::new(Row::new(4), Column::new(3));
    let s = Span::from_positions(start, end, String::from("p.x"));
    assert_eq!(s.file, "p.x");
    assert_eq!(s.range, Range::from_positions(start, end));
    assert_eq!(s.range.encode(), (2, 4, 7, 7));
}

#[test]
fn location_from_position_and_span_from_range_agree_with_new() {
    let p: Position<OneIndexed> = Position::new(Row::new(8), Column::new(9));
    let l1 = Location::from_position(p, String::from("f.x"));
    let l2 = Location::new(Row::new(8), Column::new(9), String::from("f.x"));
    assert_eq!(l1, l2);
    let r: Range<OneIndexed> =
        Range::new(Row::new(1), Row::new(2), Column::new(3), Column::new(4));
    let s1 = Span::from_range(r, String::from("f.x"));
    let s2 = Span::new(Row::new(1), Row::new(2), Column::new(3), Column::new(4), String::from("f.x"));
    assert_eq!(s1, s2);
}
