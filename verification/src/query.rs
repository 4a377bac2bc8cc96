//! The query executor: compiles an S-expression query against a language,
//! runs it over a tree, and collects matches and captures into snapshots.
use crate::document::{
    decode_utf8, decoded_utf8, is_snap_of, node_info, CaptureModel, MatchModel, NodeSnap,
};
use crate::error::Error;
use crate::parser::TreeHandle;
use streaming_iterator::StreamingIterator;
use vstd::prelude::*;

verus! {

broadcast use vstd::string::group_string_axioms;

// The engine's compiled query is an opaque handle.
#[verifier::external_type_specification]
#[verifier::external_body]
pub struct ExQuery(tree_sitter::Query);

/// Placeholder for contexts that carry no data.
pub struct Dummy;

/// Whether the engine compiles the given query source against the given
/// language; a fixed property of the pair.
pub uninterp spec fn query_ok(l: tree_sitter::Language, src: Seq<char>) -> bool;

/// The compiled query for a language and source that compile.
pub uninterp spec fn compiled_query(l: tree_sitter::Language, src: Seq<char>) -> tree_sitter::Query;

/// A compiled query's capture-name table, in capture-index order.
pub uninterp spec fn query_captures(q: tree_sitter::Query) -> Seq<Seq<char>>;

/// The matches a query yields over a tree with the given source bytes, in
/// emission order; a fixed result of the three.
pub uninterp spec fn query_match_list(
    t: tree_sitter::Tree,
    q: tree_sitter::Query,
    src: Seq<u8>,
) -> Seq<MatchModel>;

// Relies on Query::new: compiles the source against the language, which
// succeeds or fails (with the engine's diagnostic) as a fixed function of
// the pair.
pub assume_specification[ tree_sitter::Query::new ](
    l: &tree_sitter::Language,
    source: &str,
) -> (r: Result<tree_sitter::Query, tree_sitter::QueryError>)
    ensures
        r is Ok <==> query_ok(*l, source@),
        r matches Ok(q) ==> q == compiled_query(*l, source@),
;

// Relies on Query::capture_names: the query's capture-name table.
pub assume_specification[ tree_sitter::Query::capture_names ](q: &tree_sitter::Query) -> (r: &[
    &str])
    ensures
        r@.len() == query_captures(*q).len(),
        forall|i: int| 0 <= i < r@.len() ==> (#[trigger] r@[i])@ == query_captures(*q)[i],
;

/// The capture-name table of a compiled query, as owned strings.
fn capture_names_vec(q: &tree_sitter::Query) -> (r: Vec<String>)
    ensures
        r@.len() == query_captures(*q).len(),
        forall|i: int| 0 <= i < r@.len() ==> (#[trigger] r@[i])@ == query_captures(*q)[i],
{
    let names = q.capture_names();
    let mut r: Vec<String> = Vec::new();
    let mut i: usize = 0;
    while i < names.len()
        invariant
            i <= names@.len(),
            r@.len() == i,
            names@.len() == query_captures(*q).len(),
            forall|k: int| 0 <= k < names@.len() ==> (#[trigger] names@[k])@ == query_captures(
                *q,
            )[k],
            forall|k: int| 0 <= k < i ==> (#[trigger] r@[k])@ == query_captures(*q)[k],
        decreases names@.len() - i,
    {
        let s = vstd::slice::slice_index_get(names, i);
        r.push((*s).to_string());
        i = i + 1;
    }
    r
}

/// One capture as the engine handed it back: the capture-table index and the
/// engine node, still borrowing the tree, before it is detached.
pub struct RawCapture<'t> {
    pub index: u32,
    pub node: tree_sitter::Node<'t>,
}

/// One match as the engine handed it back: the pattern index and the raw
/// captures in emission order.
pub struct RawMatch<'t> {
    pub pattern_index: usize,
    pub captures: Vec<RawCapture<'t>>,
}

/// A node snapshot captured by a query, with the capture's numeric index and
/// resolved name.
#[derive(Debug)]
pub struct QueryCapture {
    pub node: NodeSnap,
    pub index: u32,
    pub capture_name: String,
}

/// One query match: the index of the pattern that matched and its captures,
/// in the order the engine yields them.
#[derive(Debug)]
pub struct QueryMatch {
    pub pattern_index: usize,
    pub captures: Vec<QueryCapture>,
}

/// The raw match `rm` reports match model `mm`: same pattern, and each
/// capture carries the model's index (in bounds for the name table) and an
/// engine node whose model is the model's node.
pub open spec fn raw_match_ok(rm: RawMatch, mm: MatchModel, names: Seq<Seq<char>>) -> bool {
    &&& rm.pattern_index == mm.pattern_index
    &&& rm.captures@.len() == mm.captures.len()
    &&& forall|j: int|
        0 <= j < mm.captures.len() ==> (#[trigger] rm.captures@[j]).index == mm.captures[j].index
            && node_info(rm.captures@[j].node) == mm.captures[j].node
            && (rm.captures@[j].index as int) < names.len()
}

/// The capture `c` is what capture model `cm` dictates: the model's index,
/// a text-bearing snapshot of its node, and its name from the table.
pub open spec fn is_capture_of(
    c: QueryCapture,
    cm: CaptureModel,
    names: Seq<Seq<char>>,
    src: Seq<u8>,
) -> bool {
    &&& c.index == cm.index
    &&& is_snap_of(c.node, cm.node, Some(src))
    &&& 0 <= cm.index < names.len()
    &&& c.capture_name@ == names[cm.index as int]
}

/// The match `m` is what match model `mm` dictates.
pub open spec fn is_match_of(
    m: QueryMatch,
    mm: MatchModel,
    names: Seq<Seq<char>>,
    src: Seq<u8>,
) -> bool {
    &&& m.pattern_index == mm.pattern_index
    &&& m.captures@.len() == mm.captures.len()
    &&& forall|j: int|
        0 <= j < mm.captures.len() ==> is_capture_of(
            #[trigger] m.captures@[j],
            mm.captures[j],
            names,
            src,
        )
}

/// The match list `ms` is exactly what the match models `mms` dictate.
pub open spec fn matches_reported(
    ms: Seq<QueryMatch>,
    mms: Seq<MatchModel>,
    names: Seq<Seq<char>>,
    src: Seq<u8>,
) -> bool {
    &&& ms.len() == mms.len()
    &&& forall|i: int| 0 <= i < ms.len() ==> is_match_of(#[trigger] ms[i], mms[i], names, src)
}

// Relies on QueryCursor::new, QueryCursor::matches and the match iterator:
// yields the query's matches over the tree in emission order, each with its
// pattern index and capture nodes; every capture index refers to the
// query's capture table. The body only moves the engine's values out.
#[verifier::external_body]
fn run_matches<'t>(t: &'t tree_sitter::Tree, q: &tree_sitter::Query, source: &[u8]) -> (r: Vec<
    RawMatch<'t>,
>)
    ensures
        r@.len() == query_match_list(*t, *q, source@).len(),
        forall|i: int|
            0 <= i < r@.len() ==> raw_match_ok(
                #[trigger] r@[i],
                query_match_list(*t, *q, source@)[i],
                query_captures(*q),
            ),
{
    let mut cursor = tree_sitter::QueryCursor::new();
    let mut it = cursor.matches(q, t.root_node(), source);
    let mut out = Vec::new();
    while let Some(m) = it.next() {
        let mut caps = Vec::new();
        for c in m.captures() {
            caps.push(RawCapture { index: c.index, node: c.node });
        }
        out.push(RawMatch { pattern_index: m.pattern_index, captures: caps });
    }
    out
}

impl QueryCapture {
    /// Resolve one raw capture: detach its engine node into a text-bearing
    /// snapshot, keep its index, and look its name up in the query's
    /// capture-name table.
    pub fn from_tscapture(
        raw: &RawCapture<'_>,
        source: &[u8],
        capture_names: &Vec<String>,
    ) -> (c: QueryCapture)
        requires
            (raw.index as int) < capture_names@.len(),
        ensures
            c.index == raw.index,
            is_snap_of(c.node, node_info(raw.node), Some(source@)),
            c.capture_name == capture_names@[raw.index as int],
    {
        QueryCapture {
            node: NodeSnap::from_tsnode(&raw.node, Some(source)),
            index: raw.index,
            capture_name: capture_names[raw.index as usize].clone(),
        }
    }
}

impl QueryMatch {
    /// Resolve one raw match: keep the pattern index, detach each capture's
    /// node against `source`, and resolve each capture's name through the
    /// query's capture-name table.
    pub fn from_tsmatch(
        raw: &RawMatch<'_>,
        source: &[u8],
        capture_names: &Vec<String>,
    ) -> (m: QueryMatch)
        requires
            forall|j: int|
                0 <= j < raw.captures@.len() ==> ((#[trigger] raw.captures@[j]).index as int)
                    < capture_names@.len(),
        ensures
            m.pattern_index == raw.pattern_index,
            m.captures@.len() == raw.captures@.len(),
            forall|j: int|
                0 <= j < raw.captures@.len() ==> (#[trigger] m.captures@[j]).index
                    == raw.captures@[j].index && is_snap_of(
                    m.captures@[j].node,
                    node_info(raw.captures@[j].node),
                    Some(source@),
                ) && m.captures@[j].capture_name == capture_names@[raw.captures@[j].index as int],
    {
        let mut caps: Vec<QueryCapture> = Vec::new();
        let mut j: usize = 0;
        while j < raw.captures.len()
            invariant
                j <= raw.captures@.len(),
                caps@.len() == j,
                forall|k: int|
                    0 <= k < raw.captures@.len() ==> ((#[trigger] raw.captures@[k]).index as int)
                        < capture_names@.len(),
                forall|k: int|
                    0 <= k < j ==> (#[trigger] caps@[k]).index == raw.captures@[k].index
                        && is_snap_of(caps@[k].node, node_info(raw.captures@[k].node), Some(
                        source@,
                    )) && caps@[k].capture_name == capture_names@[raw.captures@[k].index as int],
            decreases raw.captures@.len() - j,
        {
            caps.push(QueryCapture::from_tscapture(&raw.captures[j], source, capture_names));
            j = j + 1;
        }
        QueryMatch { pattern_index: raw.pattern_index, captures: caps }
    }
}

/// Compile `query_raw` against `language`, run it over the tree from its
/// root with `source` as the text, and collect every match in emission
/// order. Fails with `InvalidUtf8` exactly when `query_raw` is not UTF-8,
/// and with the engine's `QueryError` exactly when the source does not
/// compile against the language.
pub fn query_matches(
    tree: &TreeHandle,
    language: tree_sitter::Language,
    query_raw: &[u8],
    source: &[u8],
) -> (r: Result<Vec<QueryMatch>, Error>)
    ensures
        decoded_utf8(query_raw@) is None <==> (r matches Err(e) && e is InvalidUtf8),
        (decoded_utf8(query_raw@) matches Some(qs) && !query_ok(language, qs)) <==> (r matches Err(
            e,
        ) && e is QueryError),
        r is Ok <==> (decoded_utf8(query_raw@) matches Some(qs) && query_ok(language, qs)),
        r matches Ok(ms) ==> matches_reported(
            ms@,
            query_match_list(
                tree.engine(),
                compiled_query(language, decoded_utf8(query_raw@)->Some_0),
                source@,
            ),
            query_captures(compiled_query(language, decoded_utf8(query_raw@)->Some_0)),
            source@,
        ),
{
    let qtext = match decode_utf8(query_raw) {
        Some(s) => s,
        None => {
            return Err(Error::InvalidUtf8);
        },
    };
    let query = match tree_sitter::Query::new(&language, qtext.as_str()) {
        Ok(q) => q,
        Err(e) => {
            return Err(Error::QueryError(e));
        },
    };
    let names = capture_names_vec(&query);
    let raw = run_matches(tree.engine_ref(), &query, source);
    let ghost mms = query_match_list(tree.engine(), query, source@);
    let ghost cnames = query_captures(query);
    let mut out: Vec<QueryMatch> = Vec::new();
    let mut i: usize = 0;
    while i < raw.len()
        invariant
            i <= raw@.len(),
            out@.len() == i,
            raw@.len() == mms.len(),
            names@.len() == cnames.len(),
            forall|k: int| 0 <= k < names@.len() ==> (#[trigger] names@[k])@ == cnames[k],
            forall|k: int|
                0 <= k < raw@.len() ==> raw_match_ok(#[trigger] raw@[k], mms[k], cnames),
            forall|k: int| 0 <= k < i ==> is_match_of(#[trigger] out@[k], mms[k], cnames, source@),
        decreases raw@.len() - i,
    {
        let m = QueryMatch::from_tsmatch(&raw[i], source, &names);
        proof {
            let mm = mms[i as int];
            assert forall|j: int| 0 <= j < mm.captures.len() implies is_capture_of(
                #[trigger] m.captures@[j],
                mm.captures[j],
                cnames,
                source@,
            ) by {
                assert(raw_match_ok(raw@[i as int], mm, cnames));
                assert((raw@[i as int].captures@[j]).index == mm.captures[j].index);
                assert(node_info(raw@[i as int].captures@[j].node) == mm.captures[j].node);
                assert(m.captures@[j].capture_name == names@[raw@[i as int].captures@[j].index as int]);
            }
        }
        out.push(m);
        i = i + 1;
    }
    Ok(out)
}

} // verus!
