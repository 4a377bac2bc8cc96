//! The grammar registry: the closed set of supported grammar tags, each
//! tag's engine-level language descriptor, and its canned queries.
use vstd::prelude::*;

verus! {

// The engine's language descriptor is an opaque handle.
#[verifier::external_type_specification]
#[verifier::external_body]
pub struct ExLanguage(tree_sitter::Language);

/// The closed set of grammar tags the bridge knows about.
#[derive(Clone, Copy, Debug, PartialEq, Eq, Structural)]
pub enum LangTag {
    Css,
    Elixir,
    EmbeddedTemplate,
    Erlang,
    Gleam,
    Html,
    Javascript,
    Sql,
    Typescript,
}

/// The conventional names a canned query can have.
#[derive(Clone, Copy, Debug, PartialEq, Eq, Structural)]
pub enum QueryName {
    Highlights,
    Locals,
    Tags,
    Injection,
    Jsx,
}

/// The language descriptor that the grammar crate of the given tag code
/// provides; a fixed value per grammar.
pub uninterp spec fn descriptor_of(tag: int) -> tree_sitter::Language;

/// The text of the canned query in the given slot of the given tag's list;
/// fixed grammar-provided constants.
pub uninterp spec fn canned_source(tag: int, slot: int) -> Seq<char>;

impl LangTag {
    /// A distinct code per tag, used to index the grammar-provided constants.
    pub open spec fn code(self) -> int {
        match self {
            LangTag::Css => 0,
            LangTag::Elixir => 1,
            LangTag::EmbeddedTemplate => 2,
            LangTag::Erlang => 3,
            LangTag::Gleam => 4,
            LangTag::Html => 5,
            LangTag::Javascript => 6,
            LangTag::Sql => 7,
            LangTag::Typescript => 8,
        }
    }

    /// Whether the tag's grammar is compiled into the bridge. The sql grammar
    /// is built against an older engine ABI and is left out.
    pub open spec fn is_supported(self) -> bool {
        !(self is Sql)
    }

    /// The names of the tag's canned queries, in order.
    pub open spec fn canned_names(self) -> Seq<QueryName> {
        match self {
            LangTag::Css => seq![QueryName::Highlights],
            LangTag::Elixir => seq![QueryName::Highlights, QueryName::Tags],
            LangTag::EmbeddedTemplate => seq![QueryName::Highlights],
            LangTag::Erlang => seq![],
            LangTag::Gleam => seq![QueryName::Highlights, QueryName::Locals, QueryName::Tags],
            LangTag::Html => seq![QueryName::Highlights, QueryName::Injection],
            LangTag::Javascript => seq![
                QueryName::Highlights,
                QueryName::Injection,
                QueryName::Jsx,
                QueryName::Locals,
                QueryName::Tags,
            ],
            LangTag::Sql => seq![],
            LangTag::Typescript => seq![QueryName::Highlights, QueryName::Locals, QueryName::Tags],
        }
    }

    /// True iff the tag's grammar was compiled in.
    pub fn supported(&self) -> (r: bool)
        ensures
            r == self.is_supported(),
    {
        match self {
            LangTag::Sql => false,
            _ => true,
        }
    }

    /// The engine-level language descriptor for this tag: present exactly
    /// when the grammar is compiled in.
    pub fn get_language(&self) -> (r: Option<tree_sitter::Language>)
        ensures
            r is Some <==> self.is_supported(),
            self.is_supported() ==> r == Some(descriptor_of(self.code())),
    {
        match self {
            LangTag::Css => Some(css_language()),
            LangTag::Elixir => Some(elixir_language()),
            LangTag::EmbeddedTemplate => Some(embedded_template_language()),
            LangTag::Erlang => Some(erlang_language()),
            LangTag::Gleam => Some(gleam_language()),
            LangTag::Html => Some(html_language()),
            LangTag::Javascript => Some(javascript_language()),
            LangTag::Sql => None,
            LangTag::Typescript => Some(typescript_language()),
        }
    }

    /// The tag's canned queries: the names of `canned_names`, each paired
    /// with the grammar-provided source text for its slot.
    pub fn queries(&self) -> (r: Vec<(QueryName, String)>)
        ensures
            queries_match(*self, r@),
    {
        match self {
            LangTag::Css => css_queries(),
            LangTag::Elixir => elixir_queries(),
            LangTag::EmbeddedTemplate => embedded_template_queries(),
            LangTag::Erlang => Vec::new(),
            LangTag::Gleam => gleam_queries(),
            LangTag::Html => html_queries(),
            LangTag::Javascript => javascript_queries(),
            LangTag::Sql => Vec::new(),
            LangTag::Typescript => typescript_queries(),
        }
    }
}

/// `r` is exactly the canned query list of tag `t`: the canned names in
/// order, each paired with the grammar's source text for that slot.
pub open spec fn queries_match(t: LangTag, r: Seq<(QueryName, String)>) -> bool {
    &&& r.len() == t.canned_names().len()
    &&& forall|i: int|
        0 <= i < r.len() ==> (#[trigger] r[i]).0 == t.canned_names()[i] && r[i].1@
            == canned_source(t.code(), i)
}

// Relies on each grammar crate's language descriptor constant; a fixed value
// per grammar, converted through tree_sitter::Language::new.
#[verifier::external_body]
fn css_language() -> (r: tree_sitter::Language)
    ensures
        r == descriptor_of(0),
{
    tree_sitter::Language::new(tree_sitter_css::LANGUAGE)
}

#[verifier::external_body]
fn elixir_language() -> (r: tree_sitter::Language)
    ensures
        r == descriptor_of(1),
{
    tree_sitter::Language::new(tree_sitter_elixir::LANGUAGE)
}

#[verifier::external_body]
fn embedded_template_language() -> (r: tree_sitter::Language)
    ensures
        r == descriptor_of(2),
{
    tree_sitter::Language::new(tree_sitter_embedded_template::LANGUAGE)
}

#[verifier::external_body]
fn erlang_language() -> (r: tree_sitter::Language)
    ensures
        r == descriptor_of(3),
{
    tree_sitter::Language::new(tree_sitter_erlang::LANGUAGE)
}

#[verifier::external_body]
fn gleam_language() -> (r: tree_sitter::Language)
    ensures
        r == descriptor_of(4),
{
    tree_sitter::Language::new(tree_sitter_gleam::LANGUAGE)
}

#[verifier::external_body]
fn html_language() -> (r: tree_sitter::Language)
    ensures
        r == descriptor_of(5),
{
    tree_sitter::Language::new(tree_sitter_html::LANGUAGE)
}

#[verifier::external_body]
fn javascript_language() -> (r: tree_sitter::Language)
    ensures
        r == descriptor_of(6),
{
    tree_sitter::Language::new(tree_sitter_javascript::LANGUAGE)
}

#[verifier::external_body]
fn typescript_language() -> (r: tree_sitter::Language)
    ensures
        r == descriptor_of(8),
{
    tree_sitter::Language::new(tree_sitter_typescript::LANGUAGE_TYPESCRIPT)
}

// Relies on each grammar crate's canned query constants; fixed text per
// grammar, named by `canned_source`.
#[verifier::external_body]
fn css_highlights_src() -> (r: String)
    ensures
        r@ == canned_source(0, 0),
{
    tree_sitter_css::HIGHLIGHTS_QUERY.to_string()
}

#[verifier::external_body]
fn elixir_highlights_src() -> (r: String)
    ensures
        r@ == canned_source(1, 0),
{
    tree_sitter_elixir::HIGHLIGHTS_QUERY.to_string()
}

#[verifier::external_body]
fn elixir_tags_src() -> (r: String)
    ensures
        r@ == canned_source(1, 1),
{
    tree_sitter_elixir::TAGS_QUERY.to_string()
}

#[verifier::external_body]
fn embedded_template_highlights_src() -> (r: String)
    ensures
        r@ == canned_source(2, 0),
{
    tree_sitter_embedded_template::HIGHLIGHTS_QUERY.to_string()
}

#[verifier::external_body]
fn gleam_highlights_src() -> (r: String)
    ensures
        r@ == canned_source(4, 0),
{
    tree_sitter_gleam::HIGHLIGHT_QUERY.to_string()
}

#[verifier::external_body]
fn gleam_locals_src() -> (r: String)
    ensures
        r@ == canned_source(4, 1),
{
    tree_sitter_gleam::LOCALS_QUERY.to_string()
}

#[verifier::external_body]
fn gleam_tags_src() -> (r: String)
    ensures
        r@ == canned_source(4, 2),
{
    tree_sitter_gleam::TAGS_QUERY.to_string()
}

#[verifier::external_body]
fn html_highlights_src() -> (r: String)
    ensures
        r@ == canned_source(5, 0),
{
    tree_sitter_html::HIGHLIGHTS_QUERY.to_string()
}

#[verifier::external_body]
fn html_injection_src() -> (r: String)
    ensures
        r@ == canned_source(5, 1),
{
    tree_sitter_html::INJECTIONS_QUERY.to_string()
}

#[verifier::external_body]
fn javascript_highlights_src() -> (r: String)
    ensures
        r@ == canned_source(6, 0),
{
    tree_sitter_javascript::HIGHLIGHT_QUERY.to_string()
}

#[verifier::external_body]
fn javascript_injection_src() -> (r: String)
    ensures
        r@ == canned_source(6, 1),
{
    tree_sitter_javascript::INJECTIONS_QUERY.to_string()
}

#[verifier::external_body]
fn javascript_jsx_src() -> (r: String)
    ensures
        r@ == canned_source(6, 2),
{
    tree_sitter_javascript::JSX_HIGHLIGHT_QUERY.to_string()
}

#[verifier::external_body]
fn javascript_locals_src() -> (r: String)
    ensures
        r@ == canned_source(6, 3),
{
    tree_sitter_javascript::LOCALS_QUERY.to_string()
}

#[verifier::external_body]
fn javascript_tags_src() -> (r: String)
    ensures
        r@ == canned_source(6, 4),
{
    tree_sitter_javascript::TAGS_QUERY.to_string()
}

#[verifier::external_body]
fn typescript_highlights_src() -> (r: String)
    ensures
        r@ == canned_source(8, 0),
{
    tree_sitter_typescript::HIGHLIGHTS_QUERY.to_string()
}

#[verifier::external_body]
fn typescript_locals_src() -> (r: String)
    ensures
        r@ == canned_source(8, 1),
{
    tree_sitter_typescript::LOCALS_QUERY.to_string()
}

#[verifier::external_body]
fn typescript_tags_src() -> (r: String)
    ensures
        r@ == canned_source(8, 2),
{
    tree_sitter_typescript::TAGS_QUERY.to_string()
}

fn css_queries() -> (r: Vec<(QueryName, String)>)
    ensures
        queries_match(LangTag::Css, r@),
{
    let mut r: Vec<(QueryName, String)> = Vec::new();
    r.push((QueryName::Highlights, css_highlights_src()));
    r
}

fn elixir_queries() -> (r: Vec<(QueryName, String)>)
    ensures
        queries_match(LangTag::Elixir, r@),
{
    let mut r: Vec<(QueryName, String)> = Vec::new();
    r.push((QueryName::Highlights, elixir_highlights_src()));
    r.push((QueryName::Tags, elixir_tags_src()));
    r
}

fn embedded_template_queries() -> (r: Vec<(QueryName, String)>)
    ensures
        queries_match(LangTag::EmbeddedTemplate, r@),
{
    let mut r: Vec<(QueryName, String)> = Vec::new();
    r.push((QueryName::Highlights, embedded_template_highlights_src()));
    r
}

fn gleam_queries() -> (r: Vec<(QueryName, String)>)
    ensures
        queries_match(LangTag::Gleam, r@),
{
    let mut r: Vec<(QueryName, String)> = Vec::new();
    r.push((QueryName::Highlights, gleam_highlights_src()));
    r.push((QueryName::Locals, gleam_locals_src()));
    r.push((QueryName::Tags, gleam_tags_src()));
    r
}

fn html_queries() -> (r: Vec<(QueryName, String)>)
    ensures
        queries_match(LangTag::Html, r@),
{
    let mut r: Vec<(QueryName, String)> = Vec::new();
    r.push((QueryName::Highlights, html_highlights_src()));
    r.push((QueryName::Injection, html_injection_src()));
    r
}

fn javascript_queries() -> (r: Vec<(QueryName, String)>)
    ensures
        queries_match(LangTag::Javascript, r@),
{
    let mut r: Vec<(QueryName, String)> = Vec::new();
    r.push((QueryName::Highlights, javascript_highlights_src()));
    r.push((QueryName::Injection, javascript_injection_src()));
    r.push((QueryName::Jsx, javascript_jsx_src()));
    r.push((QueryName::Locals, javascript_locals_src()));
    r.push((QueryName::Tags, javascript_tags_src()));
    r
}

fn typescript_queries() -> (r: Vec<(QueryName, String)>)
    ensures
        queries_match(LangTag::Typescript, r@),
{
    let mut r: Vec<(QueryName, String)> = Vec::new();
    r.push((QueryName::Highlights, typescript_highlights_src()));
    r.push((QueryName::Locals, typescript_locals_src()));
    r.push((QueryName::Tags, typescript_tags_src()));
    r
}

} // verus!
