use ts_bridge::language::{LangTag, QueryName};
use ts_bridge::language_queries;
use ts_bridge::language_supported;

#[test]
fn supported_tags() {
    assert!(language_supported(LangTag::Css));
    assert!(language_supported(LangTag::Elixir));
    assert!(language_supported(LangTag::EmbeddedTemplate));
    assert!(language_supported(LangTag::Erlang));
    assert!(language_supported(LangTag::Gleam));
    assert!(language_supported(LangTag::Html));
    assert!(language_supported(LangTag::Javascript));
    assert!(!language_supported(LangTag::Sql));
    assert!(language_supported(LangTag::Typescript));
}

#[test]
fn css_query_list() {
    let qs = language_queries(LangTag::Css);
    assert_eq!(qs.len(), 1);
    assert_eq!(qs[0].0, QueryName::Highlights);
    assert_eq!(qs[0].1, tree_sitter_css::HIGHLIGHTS_QUERY);
}

#[test]
fn elixir_query_list() {
    let qs = language_queries(LangTag::Elixir);
    assert_eq!(qs.len(), 2);
    assert_eq!(qs[0].0, QueryName::Highlights);
    assert_eq!(qs[0].1, tree_sitter_elixir::HIGHLIGHTS_QUERY);
    assert_eq!(qs[1].0, QueryName::Tags);
    assert_eq!(qs[1].1, tree_sitter_elixir::TAGS_QUERY);
}

#[test]
fn embedded_template_query_list() {
    let qs = language_queries(LangTag::EmbeddedTemplate);
    assert_eq!(qs.len(), 1);
    assert_eq!(qs[0].0, QueryName::Highlights);
    assert_eq!(qs[0].1, tree_sitter_embedded_template::HIGHLIGHTS_QUERY);
}

#[test]
fn erlang_query_list_is_empty() {
    assert!(language_queries(LangTag::Erlang).is_empty());
}

#[test]
fn gleam_query_list() {
    let qs = language_queries(LangTag::Gleam);
    assert_eq!(qs.len(), 3);
    assert_eq!(qs[0].0, QueryName::Highlights);
    assert_eq!(qs[0].1, tree_sitter_gleam::HIGHLIGHT_QUERY);
    assert_eq!(qs[1].0, QueryName::Locals);
    assert_eq!(qs[1].1, tree_sitter_gleam::LOCALS_QUERY);
    assert_eq!(qs[2].0, QueryName::Tags);
    assert_eq!(qs[2].1, tree_sitter_gleam::TAGS_QUERY);
}

#[test]
fn html_query_list() {
    let qs = language_queries(LangTag::Html);
    assert_eq!(qs.len(), 2);
    assert_eq!(qs[0].0, QueryName::Highlights);
    assert_eq!(qs[0].1, tree_sitter_html::HIGHLIGHTS_QUERY);
    assert_eq!(qs[1].0, QueryName::Injection);
    assert_eq!(qs[1].1, tree_sitter_html::INJECTIONS_QUERY);
}

#[test]
fn javascript_query_list() {
    let qs = language_queries(LangTag::Javascript);
    assert_eq!(qs.len(), 5);
    assert_eq!(qs[0].0, QueryName::Highlights);
    assert_eq!(qs[0].1, tree_sitter_javascript::HIGHLIGHT_QUERY);
    assert_eq!(qs[1].0, QueryName::Injection);
    assert_eq!(qs[1].1, tree_sitter_javascript::INJECTIONS_QUERY);
    assert_eq!(qs[2].0, QueryName::Jsx);
    assert_eq!(qs[2].1, tree_sitter_javascript::JSX_HIGHLIGHT_QUERY);
    assert_eq!(qs[3].0, QueryName::Locals);
    assert_eq!(qs[3].1, tree_sitter_javascript::LOCALS_QUERY);
    assert_eq!(qs[4].0, QueryName::Tags);
    assert_eq!(qs[4].1, tree_sitter_javascript::TAGS_QUERY);
}

#[test]
fn sql_query_list_is_empty() {
    assert!(language_queries(LangTag::Sql).is_empty());
}

#[test]
fn typescript_query_list() {
    let qs = language_queries(LangTag::Typescript);
    assert_eq!(qs.len(), 3);
    assert_eq!(qs[0].0, QueryName::Highlights);
    assert_eq!(qs[0].1, tree_sitter_typescript::HIGHLIGHTS_QUERY);
    assert_eq!(qs[1].0, QueryName::Locals);
    assert_eq!(qs[1].1, tree_sitter_typescript::LOCALS_QUERY);
    assert_eq!(qs[2].0, QueryName::Tags);
    assert_eq!(qs[2].1, tree_sitter_typescript::TAGS_QUERY);
}
