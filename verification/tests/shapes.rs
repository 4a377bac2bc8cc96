use ts_bridge::document::{EditSnap, PointSnap, RangeSnap};

fn sample_point() -> PointSnap {
    PointSnap { row: 3, column: 17 }
}

fn sample_range() -> RangeSnap {
    RangeSnap {
        start_byte: 5,
        end_byte: 42,
        start_point: PointSnap { row: 0, column: 5 },
        end_point: PointSnap { row: 2, column: 7 },
    }
}

fn sample_edit() -> EditSnap {
    EditSnap {
        start_byte: 3,
        old_end_byte: 5,
        new_end_byte: 8,
        start_position: PointSnap { row: 0, column: 3 },
        old_end_position: PointSnap { row: 0, column: 5 },
        new_end_position: PointSnap { row: 0, column: 8 },
    }
}

#[test]
fn point_round_trip() {
    let p = sample_point();
    let back = PointSnap::from_engine(&p.to_engine());
    assert_eq!(back, p);
}

#[test]
fn engine_point_round_trip() {
    let ep = tree_sitter::Point { row: 11, column: 0 };
    let back = PointSnap::from_engine(&ep).to_engine();
    assert_eq!(back, ep);
}

#[test]
fn range_round_trip() {
    let r = sample_range();
    let back = RangeSnap::from_engine(&r.to_engine());
    assert_eq!(back, r);
}

#[test]
fn engine_range_round_trip() {
    let er = tree_sitter::Range {
        start_byte: 0,
        end_byte: 12,
        start_point: tree_sitter::Point { row: 0, column: 0 },
        end_point: tree_sitter::Point { row: 0, column: 12 },
    };
    let back = RangeSnap::from_engine(&er).to_engine();
    assert_eq!(back, er);
}

#[test]
fn edit_round_trip() {
    let e = sample_edit();
    let back = EditSnap::from_engine(&e.to_engine());
    assert_eq!(back, e);
}

#[test]
fn engine_edit_round_trip() {
    let ee = tree_sitter::InputEdit {
        start_byte: 3,
        old_end_byte: 5,
        new_end_byte: 8,
        start_position: tree_sitter::Point { row: 0, column: 3 },
        old_end_position: tree_sitter::Point { row: 0, column: 5 },
        new_end_position: tree_sitter::Point { row: 0, column: 8 },
    };
    let back = EditSnap::from_engine(&ee).to_engine();
    assert_eq!(back, ee);
}
