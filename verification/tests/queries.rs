use ts_bridge::error::Error;
use ts_bridge::language::LangTag;
use ts_bridge::{language_queries, parser_new, parser_parse, query_matches};

#[test]
fn number_capture_with_text() {
    let mut parser = parser_new(LangTag::Javascript).unwrap();
    let source = b"const x = 1;";
    let tree = parser_parse(&mut parser, source, None).unwrap();
    let matches = query_matches(&tree, LangTag::Javascript, b"(number) @n", source).unwrap();
    assert_eq!(matches.len(), 1);
    assert_eq!(matches[0].captures.len(), 1);
    let capture = &matches[0].captures[0];
    assert_eq!(capture.capture_name, "n");
    assert_eq!(capture.node.text.as_deref(), Some("1"));
    assert_eq!(capture.node.kind, "number");
    assert_eq!(capture.node.range.start_byte, 10);
    assert_eq!(capture.node.range.end_byte, 11);
}

#[test]
fn two_captures_resolve_names_by_index() {
    let mut parser = parser_new(LangTag::Javascript).unwrap();
    let source = b"let y = 2;";
    let tree = parser_parse(&mut parser, source, None).unwrap();
    let query = b"(variable_declarator name: (identifier) @name value: (number) @value)";
    let matches = query_matches(&tree, LangTag::Javascript, query, source).unwrap();
    assert_eq!(matches.len(), 1);
    let caps = &matches[0].captures;
    assert_eq!(caps.len(), 2);
    assert_eq!(caps[0].capture_name, "name");
    assert_eq!(caps[0].node.text.as_deref(), Some("y"));
    assert_eq!(caps[1].capture_name, "value");
    assert_eq!(caps[1].node.text.as_deref(), Some("2"));
}

#[test]
fn pattern_index_is_reported() {
    let mut parser = parser_new(LangTag::Javascript).unwrap();
    let source = b"let y = 2;";
    let tree = parser_parse(&mut parser, source, None).unwrap();
    let query = b"(string) @s (number) @n";
    let matches = query_matches(&tree, LangTag::Javascript, query, source).unwrap();
    assert_eq!(matches.len(), 1);
    assert_eq!(matches[0].pattern_index, 1);
    assert_eq!(matches[0].captures[0].capture_name, "n");
}

#[test]
fn bad_query_source_fails_to_compile() {
    let mut parser = parser_new(LangTag::Css).unwrap();
    let tree = parser_parse(&mut parser, b"", None).unwrap();
    match query_matches(&tree, LangTag::Css, b"(((", b"") {
        Err(Error::QueryError(_)) => {}
        other => panic!("expected QueryError, got {other:?}"),
    }
}

#[test]
fn non_utf8_query_is_rejected() {
    let mut parser = parser_new(LangTag::Css).unwrap();
    let tree = parser_parse(&mut parser, b"", None).unwrap();
    match query_matches(&tree, LangTag::Css, &[0xff, 0xfe], b"") {
        Err(Error::InvalidUtf8) => {}
        other => panic!("expected InvalidUtf8, got {other:?}"),
    }
}

#[test]
fn unsupported_tag_is_rejected_for_queries() {
    let mut parser = parser_new(LangTag::Javascript).unwrap();
    let tree = parser_parse(&mut parser, b"", None).unwrap();
    match query_matches(&tree, LangTag::Sql, b"(number) @n", b"") {
        Err(Error::UnsupportedLanguage) => {}
        other => panic!("expected UnsupportedLanguage, got {other:?}"),
    }
}

#[test]
fn canned_queries_run_over_own_grammar() {
    let cases: [(LangTag, &[u8]); 7] = [
        (LangTag::Css, b"a { color: red; }"),
        (LangTag::Elixir, b"defmodule M do\nend\n"),
        (LangTag::EmbeddedTemplate, b"<%= x %>"),
        (LangTag::Gleam, b"pub fn f() { 1 }"),
        (LangTag::Html, b"<a>hi</a>"),
        (LangTag::Javascript, b"const x = 1;"),
        (LangTag::Typescript, b"const x: number = 1;"),
    ];
    for (tag, source) in cases {
        let mut parser = parser_new(tag).unwrap();
        let tree = parser_parse(&mut parser, source, None).unwrap();
        for (name, query_src) in language_queries(tag) {
            let result = query_matches(&tree, tag, query_src.as_bytes(), source);
            assert!(
                result.is_ok(),
                "canned query {name:?} of {tag:?} failed: {:?}",
                result.err()
            );
        }
    }
}

#[test]
fn query_over_empty_source() {
    let mut parser = parser_new(LangTag::Javascript).unwrap();
    let tree = parser_parse(&mut parser, b"", None).unwrap();
    let matches = query_matches(&tree, LangTag::Javascript, b"(number) @n", b"").unwrap();
    assert!(matches.is_empty());
}

#[test]
fn capture_text_absent_for_non_utf8_span() {
    let mut parser = parser_new(LangTag::Javascript).unwrap();
    let source = b"const s = \"\xff\";";
    let tree = parser_parse(&mut parser, source, None).unwrap();
    let matches = query_matches(&tree, LangTag::Javascript, b"(string) @s", source).unwrap();
    assert_eq!(matches.len(), 1);
    let capture = &matches[0].captures[0];
    // The captured span holds a byte that is not UTF-8: the text is simply
    // absent, not an error.
    assert_eq!(capture.node.text, None);
    assert_eq!(capture.node.kind, "string");
}

#[test]
fn capture_text_absent_when_source_is_too_short() {
    let mut parser = parser_new(LangTag::Javascript).unwrap();
    let tree = parser_parse(&mut parser, b"const x = 1;", None).unwrap();
    // A mismatched (here: empty) source buffer yields no capture text.
    let matches = query_matches(&tree, LangTag::Javascript, b"(number) @n", b"").unwrap();
    assert_eq!(matches.len(), 1);
    assert_eq!(matches[0].captures[0].node.text, None);
}
