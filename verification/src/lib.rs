//! Bridge core for exposing an incremental parsing engine to a managed host
//! runtime: a grammar registry, plain value snapshots of engine data, parser
//! and tree handles, and an S-expression query executor. Host-side plumbing
//! (resource registration, locking, scheduling hints) sits outside this
//! crate; everything here is plain values and owned handles.
use vstd::prelude::*;

pub mod document;
pub mod error;
pub mod language;
pub mod parser;
pub mod query;

use crate::document::{is_snap_of, EditSnap, NodeSnap, RangeSnap};
use crate::error::Error;
use crate::language::{descriptor_of, queries_match, LangTag, QueryName};
use crate::parser::{
    bad_range_report, edited_nodes, eng_of_snaps, language_compatible, normalized_ranges,
    ranges_ok, same_shape, ParserHandle, TreeHandle,
};
use crate::query::{matches_reported, QueryMatch};

verus! {

/// True iff the tag's grammar was compiled into the bridge.
pub fn language_supported(lang: LangTag) -> (r: bool)
    ensures
        r == lang.is_supported(),
{
    lang.supported()
}

/// The tag's canned queries: each conventional name paired with the
/// grammar-provided source text. Empty when the grammar is not compiled in
/// or ships no queries.
pub fn language_queries(lang: LangTag) -> (r: Vec<(QueryName, String)>)
    ensures
        queries_match(lang, r@),
{
    lang.queries()
}

/// Create a fresh parser for the tag's grammar. Fails with
/// `UnsupportedLanguage` exactly when the tag is not compiled in, and with
/// `LanguageError` exactly when the engine rejects the tag's descriptor.
pub fn parser_new(lang: LangTag) -> (r: Result<ParserHandle, Error>)
    ensures
        !lang.is_supported() <==> (r matches Err(e) && e is UnsupportedLanguage),
        (lang.is_supported() && !language_compatible(descriptor_of(lang.code()))) <==> (r matches Err(
            e,
        ) && e is LanguageError),
        r is Ok <==> (lang.is_supported() && language_compatible(descriptor_of(lang.code()))),
        r matches Ok(h) ==> h.lang_model() == Some(descriptor_of(lang.code())) && h.ranges_model()
            == Seq::<tree_sitter::Range>::empty(),
{
    match lang.get_language() {
        Some(l) => ParserHandle::new(l),
        None => Err(Error::UnsupportedLanguage),
    }
}

/// Reassign a parser's grammar, discarding state tied to the previous one.
/// Same error conditions as `parser_new`.
pub fn parser_set_language(parser: &mut ParserHandle, lang: LangTag) -> (r: Result<(), Error>)
    ensures
        !lang.is_supported() <==> (r matches Err(e) && e is UnsupportedLanguage),
        (lang.is_supported() && !language_compatible(descriptor_of(lang.code()))) <==> (r matches Err(
            e,
        ) && e is LanguageError),
        r is Ok <==> (lang.is_supported() && language_compatible(descriptor_of(lang.code()))),
        r is Ok ==> final(parser).lang_model() == Some(descriptor_of(lang.code())),
        r is Err ==> *final(parser) == *old(parser),
        final(parser).ranges_model() == old(parser).ranges_model(),
{
    match lang.get_language() {
        Some(l) => parser.set_language(l),
        None => Err(Error::UnsupportedLanguage),
    }
}

/// Restrict the parser's subsequent parses to the given byte ranges; an
/// empty list restores the entire input. Succeeds exactly when every range
/// runs forward and consecutive ranges are ordered without overlap, in the
/// engine's 32-bit offset space; those ranges are then in force on the
/// parser, and on failure the parser is untouched.
pub fn parser_set_included_ranges(parser: &mut ParserHandle, ranges: Vec<RangeSnap>) -> (r: Result<
    (),
    Error,
>)
    ensures
        r is Ok <==> ranges_ok(ranges@),
        r matches Err(e) ==> e == Error::IncludedRangesError(bad_range_report(ranges@) as usize),
        r is Ok ==> final(parser).ranges_model() == normalized_ranges(eng_of_snaps(ranges@)),
        r is Err ==> *final(parser) == *old(parser),
        final(parser).lang_model() == old(parser).lang_model(),
{
    parser.set_included_ranges(&ranges)
}

/// Parse `text`; when `old_tree` is given, re-parse incrementally using it
/// as prior state (the caller must already have applied every edit to it).
/// An absent tree is a normal outcome, not an error.
pub fn parser_parse(parser: &mut ParserHandle, text: &[u8], old_tree: Option<&TreeHandle>) -> (r:
    Option<TreeHandle>)
    ensures
        r matches Some(t) ==> t.wf(),
        final(parser).lang_model() == old(parser).lang_model(),
        final(parser).ranges_model() == old(parser).ranges_model(),
{
    parser.parse(text, old_tree)
}

/// Apply one edit to the tree in place: the result is the engine's edit of
/// the tree with the given edit — byte offsets and points shift and affected
/// subtrees are marked changed — while the tree's shape (pre-order, depths,
/// and every structural attribute of every node) is preserved.
pub fn tree_edit(tree: &mut TreeHandle, edit: EditSnap)
    ensures
        final(tree).model() == edited_nodes(old(tree).engine(), edit),
        final(tree).depths() == old(tree).depths(),
        final(tree).model().len() == old(tree).model().len(),
        forall|i: int|
            0 <= i < final(tree).model().len() ==> same_shape(
                #[trigger] final(tree).model()[i],
                old(tree).model()[i],
            ),
{
    tree.edit(&edit);
}

/// A snapshot of the tree's root node, without text.
pub fn tree_root_node(tree: &TreeHandle) -> (r: NodeSnap)
    ensures
        tree.model().len() >= 1,
        is_snap_of(r, tree.model()[0], None),
{
    tree.root_node()
}

/// Snapshots of every node of the tree in pre-order: parent before children,
/// children left to right, each node exactly once, without text.
pub fn tree_pre_walk(tree: &TreeHandle) -> (r: Vec<NodeSnap>)
    ensures
        r@.len() == tree.model().len(),
        forall|i: int| 0 <= i < r@.len() ==> is_snap_of(#[trigger] r@[i], tree.model()[i], None),
{
    tree.pre_walk()
}

/// Compile `query_raw` against the tag's grammar and run it over the tree,
/// slicing capture text out of `source`. Fails with `UnsupportedLanguage`
/// exactly when the tag is not compiled in, with `InvalidUtf8` exactly when
/// the query bytes are not UTF-8, and with the engine's `QueryError` exactly
/// when the query does not compile.
pub fn query_matches(
    tree: &TreeHandle,
    lang: LangTag,
    query_raw: &[u8],
    source: &[u8],
) -> (r: Result<Vec<QueryMatch>, Error>)
    ensures
        !lang.is_supported() <==> (r matches Err(e) && e is UnsupportedLanguage),
        lang.is_supported() ==> (crate::document::decoded_utf8(query_raw@) is None <==> (r matches Err(
            e,
        ) && e is InvalidUtf8)),
        lang.is_supported() ==> ((crate::document::decoded_utf8(query_raw@) matches Some(qs)
            && !crate::query::query_ok(descriptor_of(lang.code()), qs)) <==> (r matches Err(e)
            && e is QueryError)),
        r is Ok <==> (lang.is_supported() && (crate::document::decoded_utf8(
            query_raw@,
        ) matches Some(qs) && crate::query::query_ok(descriptor_of(lang.code()), qs))),
        r matches Ok(ms) ==> matches_reported(
            ms@,
            crate::query::query_match_list(
                tree.engine(),
                crate::query::compiled_query(
                    descriptor_of(lang.code()),
                    crate::document::decoded_utf8(query_raw@)->Some_0,
                ),
                source@,
            ),
            crate::query::query_captures(
                crate::query::compiled_query(
                    descriptor_of(lang.code()),
                    crate::document::decoded_utf8(query_raw@)->Some_0,
                ),
            ),
            source@,
        ),
{
    match lang.get_language() {
        Some(l) => crate::query::query_matches(tree, l, query_raw, source),
        None => Err(Error::UnsupportedLanguage),
    }
}

} // verus!
