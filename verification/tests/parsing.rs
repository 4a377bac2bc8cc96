use ts_bridge::document::{EditSnap, PointSnap, RangeSnap};
use ts_bridge::error::Error;
use ts_bridge::language::LangTag;
use ts_bridge::{parser_new, parser_parse, parser_set_included_ranges, parser_set_language};
use ts_bridge::{tree_edit, tree_pre_walk, tree_root_node};

#[test]
fn parse_simple_javascript() {
    let mut parser = parser_new(LangTag::Javascript).unwrap();
    let tree = parser_parse(&mut parser, b"const x = 1;", None).unwrap();
    let root = tree_root_node(&tree);
    assert_eq!(root.kind, "program");
    assert!(!root.has_error);
    assert_eq!(root.range.start_byte, 0);
    assert_eq!(root.range.end_byte, 12);
    assert_eq!(root.text, None);
}

#[test]
fn malformed_javascript_has_error() {
    let mut parser = parser_new(LangTag::Javascript).unwrap();
    let tree = parser_parse(&mut parser, b"const x =", None).unwrap();
    assert!(tree_root_node(&tree).has_error);
}

#[test]
fn every_supported_tag_parses_empty_input() {
    let tags = [
        LangTag::Css,
        LangTag::Elixir,
        LangTag::EmbeddedTemplate,
        LangTag::Erlang,
        LangTag::Gleam,
        LangTag::Html,
        LangTag::Javascript,
        LangTag::Typescript,
    ];
    for tag in tags {
        let mut parser = parser_new(tag).unwrap();
        let tree = parser_parse(&mut parser, b"", None);
        assert!(tree.is_some(), "{tag:?} failed to parse empty input");
    }
}

#[test]
fn unsupported_tag_is_rejected() {
    match parser_new(LangTag::Sql) {
        Err(Error::UnsupportedLanguage) => {}
        Err(other) => panic!("expected UnsupportedLanguage, got {other:?}"),
        Ok(_) => panic!("expected UnsupportedLanguage, got a parser"),
    }
}

#[test]
fn set_language_switches_grammar() {
    let mut parser = parser_new(LangTag::Css).unwrap();
    parser_set_language(&mut parser, LangTag::Html).unwrap();
    let tree = parser_parse(&mut parser, b"<a>hi</a>", None).unwrap();
    assert_eq!(tree_root_node(&tree).kind, "document");
}

#[test]
fn set_language_unsupported_tag() {
    let mut parser = parser_new(LangTag::Css).unwrap();
    match parser_set_language(&mut parser, LangTag::Sql) {
        Err(Error::UnsupportedLanguage) => {}
        other => panic!("expected UnsupportedLanguage, got {other:?}"),
    }
}

fn byte_range(start: usize, end: usize) -> RangeSnap {
    RangeSnap {
        start_byte: start,
        end_byte: end,
        start_point: PointSnap { row: 0, column: start },
        end_point: PointSnap { row: 0, column: end },
    }
}

#[test]
fn included_ranges_accepts_ordered_disjoint() {
    let mut parser = parser_new(LangTag::Javascript).unwrap();
    let ranges = vec![byte_range(0, 4), byte_range(4, 9), byte_range(12, 20)];
    assert!(parser_set_included_ranges(&mut parser, ranges).is_ok());
    // An empty list restores the entire input.
    assert!(parser_set_included_ranges(&mut parser, vec![]).is_ok());
}

#[test]
fn included_ranges_rejects_overlap() {
    let mut parser = parser_new(LangTag::Javascript).unwrap();
    let ranges = vec![byte_range(0, 6), byte_range(4, 9)];
    match parser_set_included_ranges(&mut parser, ranges) {
        Err(Error::IncludedRangesError(i)) => assert_eq!(i, 1),
        other => panic!("expected IncludedRangesError, got {other:?}"),
    }
}

#[test]
fn included_ranges_rejects_backwards_range() {
    let mut parser = parser_new(LangTag::Javascript).unwrap();
    let ranges = vec![byte_range(5, 2)];
    match parser_set_included_ranges(&mut parser, ranges) {
        Err(Error::IncludedRangesError(i)) => assert_eq!(i, 0),
        other => panic!("expected IncludedRangesError, got {other:?}"),
    }
}

#[test]
fn pre_walk_starts_at_root() {
    let mut parser = parser_new(LangTag::Javascript).unwrap();
    let tree = parser_parse(&mut parser, b"const x = 1;", None).unwrap();
    let root = tree_root_node(&tree);
    let walk = tree_pre_walk(&tree);
    assert!(!walk.is_empty());
    assert_eq!(walk[0].id, root.id);
    assert_eq!(walk[0].range, root.range);
    assert_eq!(walk[0].kind, root.kind);
}

#[test]
fn pre_walk_visits_each_node_once() {
    let mut parser = parser_new(LangTag::Javascript).unwrap();
    let tree = parser_parse(&mut parser, b"function f(a) { return a + 1; }", None).unwrap();
    let walk = tree_pre_walk(&tree);
    // Every node is someone's child except the root, so the total visit
    // count must be one more than the sum of all child counts.
    let child_total: usize = walk.iter().map(|n| n.child_count).sum();
    assert_eq!(walk.len(), child_total + 1);
    // Node identities are unique within one tree: no node is visited twice.
    let mut ids: Vec<usize> = walk.iter().map(|n| n.id).collect();
    ids.sort_unstable();
    ids.dedup();
    assert_eq!(ids.len(), walk.len());
    // Walk snapshots omit text.
    assert!(walk.iter().all(|n| n.text.is_none()));
}

fn edit_hi_to_hello() -> EditSnap {
    EditSnap {
        start_byte: 3,
        old_end_byte: 5,
        new_end_byte: 8,
        start_position: PointSnap { row: 0, column: 3 },
        old_end_position: PointSnap { row: 0, column: 5 },
        new_end_position: PointSnap { row: 0, column: 8 },
    }
}

#[test]
fn incremental_reparse_after_edit() {
    let mut parser = parser_new(LangTag::Html).unwrap();
    let mut tree = parser_parse(&mut parser, b"<a>hi</a>", None).unwrap();
    tree_edit(&mut tree, edit_hi_to_hello());
    let new_tree = parser_parse(&mut parser, b"<a>HELLO</a>", Some(&tree)).unwrap();
    let root = tree_root_node(&new_tree);
    assert_eq!(root.range.start_byte, 0);
    assert_eq!(root.range.end_byte, 12);
    assert!(!root.has_error);
}

#[test]
fn incremental_reparse_matches_scratch_parse() {
    let bytes1 = b"<a>hi</a>";
    let bytes2 = b"<a>HELLO</a>";

    let mut parser = parser_new(LangTag::Html).unwrap();
    let mut tree1 = parser_parse(&mut parser, bytes1, None).unwrap();
    tree_edit(&mut tree1, edit_hi_to_hello());
    let incremental = parser_parse(&mut parser, bytes2, Some(&tree1)).unwrap();

    let mut fresh_parser = parser_new(LangTag::Html).unwrap();
    let scratch = parser_parse(&mut fresh_parser, bytes2, None).unwrap();

    assert_eq!(
        tree_root_node(&incremental).range,
        tree_root_node(&scratch).range
    );
    let walk_inc = tree_pre_walk(&incremental);
    let walk_scr = tree_pre_walk(&scratch);
    assert_eq!(walk_inc.len(), walk_scr.len());
    for (a, b) in walk_inc.iter().zip(walk_scr.iter()) {
        assert_eq!(a.kind, b.kind);
        assert_eq!(a.range, b.range);
    }
}

#[test]
fn edit_preserves_tree_shape() {
    let mut parser = parser_new(LangTag::Html).unwrap();
    let mut tree = parser_parse(&mut parser, b"<a>hi</a>", None).unwrap();
    let before = tree_pre_walk(&tree);
    tree_edit(&mut tree, edit_hi_to_hello());
    let after = tree_pre_walk(&tree);
    assert_eq!(before.len(), after.len());
    for (a, b) in before.iter().zip(after.iter()) {
        assert_eq!(a.kind, b.kind);
        assert_eq!(a.kind_id, b.kind_id);
        assert_eq!(a.child_count, b.child_count);
    }
}


#[test]
fn included_ranges_restrict_the_parse() {
    let mut parser = parser_new(LangTag::Javascript).unwrap();
    parser_set_included_ranges(&mut parser, vec![byte_range(2, 4)]).unwrap();
    let tree = parser_parse(&mut parser, b"@@1;", None).unwrap();
    let root = tree_root_node(&tree);
    assert_eq!(root.kind, "program");
    assert_eq!(root.range.start_byte, 2);
    assert_eq!(root.range.end_byte, 4);
    assert!(!root.has_error);
}

#[test]
fn edit_shifts_the_root_range() {
    let mut parser = parser_new(LangTag::Html).unwrap();
    let mut tree = parser_parse(&mut parser, b"<a>hi</a>", None).unwrap();
    assert_eq!(tree_root_node(&tree).range.end_byte, 9);
    // Replacing the two-byte span with a five-byte one stretches every
    // offset at or after the old end by three, the root's end included.
    tree_edit(&mut tree, edit_hi_to_hello());
    let root = tree_root_node(&tree);
    assert_eq!(root.range.start_byte, 0);
    assert_eq!(root.range.end_byte, 12);
}
