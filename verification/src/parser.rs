//! Parser and tree handles: language assignment, included ranges, parsing
//! and incremental re-parsing, and whole-tree pre-order snapshotting.
use crate::document::{
    abs_edit, eng_range, is_snap_of, node_info, EditSnap, NodeModel, NodeSnap, RangeSnap,
};
use crate::error::Error;
use vstd::prelude::*;

verus! {

// The engine's parser, tree and cursor are opaque handles.
#[verifier::external_type_specification]
#[verifier::external_body]
pub struct ExParser(tree_sitter::Parser);

#[verifier::external_type_specification]
#[verifier::external_body]
pub struct ExTree(tree_sitter::Tree);

#[verifier::external_type_specification]
#[verifier::external_body]
pub struct ExTreeCursor<'a>(tree_sitter::TreeCursor<'a>);

/// The models of an engine tree's nodes, in pre-order: parent before
/// children, children left to right.
pub uninterp spec fn tree_nodes(t: tree_sitter::Tree) -> Seq<NodeModel>;

/// The depth of each node of an engine tree, in the same pre-order.
pub uninterp spec fn tree_depths(t: tree_sitter::Tree) -> Seq<nat>;

/// The pre-order node models of the tree a cursor walks.
pub uninterp spec fn cursor_nodes(c: tree_sitter::TreeCursor) -> Seq<NodeModel>;

/// The pre-order depths of the tree a cursor walks.
pub uninterp spec fn cursor_depths(c: tree_sitter::TreeCursor) -> Seq<nat>;

/// The pre-order position the cursor currently stands on.
pub uninterp spec fn cursor_pos(c: tree_sitter::TreeCursor) -> int;

/// Whether the engine accepts a language descriptor: an ABI version and
/// parseability check, a fixed property of the descriptor.
pub uninterp spec fn language_compatible(l: tree_sitter::Language) -> bool;

/// The pre-order node models of the tree that editing a given tree with a
/// given edit produces; the engine's edit is a fixed function of the two.
pub uninterp spec fn edited_nodes(t: tree_sitter::Tree, e: EditSnap) -> Seq<NodeModel>;

/// The grammar assigned to an engine parser, if any.
pub uninterp spec fn parser_language(p: tree_sitter::Parser) -> Option<tree_sitter::Language>;

/// The included ranges in force on an engine parser, as the engine stores
/// them; empty stands for the entire input.
pub uninterp spec fn parser_ranges(p: tree_sitter::Parser) -> Seq<tree_sitter::Range>;

/// An engine range with every coordinate reduced to the 32-bit space the
/// engine stores ranges in.
pub open spec fn trunc_range(r: tree_sitter::Range) -> tree_sitter::Range {
    tree_sitter::Range {
        start_byte: (r.start_byte as u32) as usize,
        end_byte: (r.end_byte as u32) as usize,
        start_point: tree_sitter::Point {
            row: (r.start_point.row as u32) as usize,
            column: (r.start_point.column as u32) as usize,
        },
        end_point: tree_sitter::Point {
            row: (r.end_point.row as u32) as usize,
            column: (r.end_point.column as u32) as usize,
        },
    }
}

/// What the engine keeps after accepting a range list: nothing for the empty
/// list (the entire input), else each range reduced to 32 bits.
pub open spec fn normalized_ranges(rs: Seq<tree_sitter::Range>) -> Seq<tree_sitter::Range> {
    if rs.len() == 0 {
        rs
    } else {
        rs.map_values(|r: tree_sitter::Range| trunc_range(r))
    }
}

/// The engine forms of a sequence of range snapshots.
pub open spec fn eng_of_snaps(rs: Seq<RangeSnap>) -> Seq<tree_sitter::Range> {
    rs.map_values(|r: RangeSnap| eng_range(r))
}

/// `d` is the depth sequence of a pre-order linearization of one tree: a
/// single root at depth zero, every other node deeper, and each step down
/// descending exactly one level.
pub open spec fn preorder_wf(d: Seq<nat>) -> bool {
    &&& d.len() >= 1
    &&& d[0] == 0
    &&& forall|i: int| 1 <= i < d.len() ==> #[trigger] d[i] >= 1
    &&& forall|i: int| 0 <= i < d.len() - 1 ==> #[trigger] d[i + 1] <= d[i] + 1
}

/// The first position at or after `j` whose depth does not exceed `lim`, or
/// the end of the sequence.
pub open spec fn scan_shallow(d: Seq<nat>, lim: nat, j: int) -> int
    decreases d.len() - j,
{
    if j < 0 || j >= d.len() {
        d.len() as int
    } else if d[j] <= lim {
        j
    } else {
        scan_shallow(d, lim, j + 1)
    }
}

/// Where the subtree rooted at position `i` ends: the first later position at
/// the root's depth or shallower, or the end of the sequence.
pub open spec fn subtree_end(d: Seq<nat>, i: int) -> int {
    scan_shallow(d, d[i], i + 1)
}

/// What `scan_shallow` returns: a position after `j`, not past the end, with
/// everything before it deeper than `lim`, and itself at most `lim` deep when
/// it is a real position.
pub proof fn lemma_scan_shallow_props(d: Seq<nat>, lim: nat, j: int)
    requires
        0 <= j <= d.len(),
    ensures
        j <= scan_shallow(d, lim, j) <= d.len(),
        forall|k: int| j <= k < scan_shallow(d, lim, j) ==> #[trigger] d[k] > lim,
        scan_shallow(d, lim, j) < d.len() ==> d[scan_shallow(d, lim, j)] <= lim,
    decreases d.len() - j,
{
    if j < d.len() && d[j] > lim {
        lemma_scan_shallow_props(d, lim, j + 1);
    }
}

/// `scan_shallow` lands exactly on `e` when everything from `j` up to `e` is
/// deeper than `lim` and `e` itself is not.
pub proof fn lemma_scan_shallow_pins(d: Seq<nat>, lim: nat, j: int, e: int)
    requires
        0 <= j <= e <= d.len(),
        forall|k: int| j <= k < e ==> #[trigger] d[k] > lim,
        e == d.len() || d[e] <= lim,
    ensures
        scan_shallow(d, lim, j) == e,
    decreases e - j,
{
    if j < e {
        lemma_scan_shallow_pins(d, lim, j + 1, e);
    }
}

// Relies on Tree::walk: a fresh cursor stands on the root of the tree, which
// is position zero of the pre-order; the tree it walks is the tree it was
// made from, whose model is a pre-order linearization.
pub assume_specification<'a>[ tree_sitter::Tree::walk ](t: &'a tree_sitter::Tree) -> (c:
    tree_sitter::TreeCursor<'a>)
    ensures
        cursor_nodes(c) == tree_nodes(*t),
        cursor_depths(c) == tree_depths(*t),
        cursor_pos(c) == 0,
        cursor_nodes(c).len() == cursor_depths(c).len(),
        preorder_wf(cursor_depths(c)),
;

// Relies on TreeCursor::node: the node the cursor currently stands on.
pub assume_specification<'a>[ tree_sitter::TreeCursor::<'a>::node ](c: &tree_sitter::TreeCursor<
    'a,
>) -> (n: tree_sitter::Node<'a>)
    requires
        0 <= cursor_pos(*c) < cursor_nodes(*c).len(),
    ensures
        node_info(n) == cursor_nodes(*c)[cursor_pos(*c)],
;

// Relies on TreeCursor::goto_first_child: moves to the first child and
// reports success. In pre-order the first child is the next position, one
// level deeper; there is none exactly when the next position is not.
pub assume_specification<'a>[ tree_sitter::TreeCursor::<'a>::goto_first_child ](
    c: &mut tree_sitter::TreeCursor<'a>,
) -> (r: bool)
    requires
        0 <= cursor_pos(*old(c)) < cursor_depths(*old(c)).len(),
    ensures
        cursor_nodes(*final(c)) == cursor_nodes(*old(c)),
        cursor_depths(*final(c)) == cursor_depths(*old(c)),
        r == (cursor_pos(*old(c)) + 1 < cursor_depths(*final(c)).len() && cursor_depths(*final(c))[cursor_pos(
            *old(c),
        ) + 1] == cursor_depths(*final(c))[cursor_pos(*old(c))] + 1),
        cursor_pos(*final(c)) == if r {
            cursor_pos(*old(c)) + 1
        } else {
            cursor_pos(*old(c))
        },
;

// Relies on TreeCursor::goto_next_sibling: moves to the next sibling and
// reports success. In pre-order the next sibling is where the current
// subtree ends, and it exists exactly when that position holds a node of the
// same depth.
pub assume_specification<'a>[ tree_sitter::TreeCursor::<'a>::goto_next_sibling ](
    c: &mut tree_sitter::TreeCursor<'a>,
) -> (r: bool)
    requires
        0 <= cursor_pos(*old(c)) < cursor_depths(*old(c)).len(),
    ensures
        cursor_nodes(*final(c)) == cursor_nodes(*old(c)),
        cursor_depths(*final(c)) == cursor_depths(*old(c)),
        r == ({
            let e = subtree_end(cursor_depths(*old(c)), cursor_pos(*old(c)));
            e < cursor_depths(*final(c)).len() && cursor_depths(*final(c))[e] == cursor_depths(*final(c))[cursor_pos(
                *old(c),
            )]
        }),
        cursor_pos(*final(c)) == if r {
            subtree_end(cursor_depths(*old(c)), cursor_pos(*old(c)))
        } else {
            cursor_pos(*old(c))
        },
;

// Relies on TreeCursor::goto_parent: moves to the parent and reports
// success, failing only on the root the cursor was made at. In pre-order the
// parent is the nearest earlier position, one level shallower, and
// everything between lies inside its subtree.
pub assume_specification<'a>[ tree_sitter::TreeCursor::<'a>::goto_parent ](
    c: &mut tree_sitter::TreeCursor<'a>,
) -> (r: bool)
    requires
        0 <= cursor_pos(*old(c)) < cursor_depths(*old(c)).len(),
    ensures
        cursor_nodes(*final(c)) == cursor_nodes(*old(c)),
        cursor_depths(*final(c)) == cursor_depths(*old(c)),
        r == (cursor_pos(*old(c)) != 0),
        !r ==> cursor_pos(*final(c)) == cursor_pos(*old(c)),
        r ==> 0 <= cursor_pos(*final(c)) < cursor_pos(*old(c)) && cursor_depths(*final(c))[cursor_pos(*final(c))] + 1
            == cursor_depths(*final(c))[cursor_pos(*old(c))] && (forall|k: int|
            cursor_pos(*final(c)) < k < cursor_pos(*old(c)) ==> #[trigger] cursor_depths(*final(c))[k]
                >= cursor_depths(*final(c))[cursor_pos(*old(c))]),
;

// Relies on Tree::edit: shifts the tree's byte offsets and points in place
// and marks affected subtrees as changed. The tree's shape is untouched: the
// pre-order, the depths, and every structural attribute of every node stay;
// only positions, change flags and node identities may move.
pub assume_specification[ tree_sitter::Tree::edit ](
    t: &mut tree_sitter::Tree,
    e: &tree_sitter::InputEdit,
)
    ensures
        tree_nodes(*final(t)) == edited_nodes(*old(t), abs_edit(*e)),
        tree_depths(*final(t)) == tree_depths(*old(t)),
        tree_nodes(*final(t)).len() == tree_nodes(*old(t)).len(),
        forall|i: int|
            0 <= i < tree_nodes(*final(t)).len() ==> same_shape(
                #[trigger] tree_nodes(*final(t))[i],
                tree_nodes(*old(t))[i],
            ),
;

// Relies on Parser::set_language: assigns the grammar, failing exactly when
// the descriptor's ABI version lies outside the supported window or the
// grammar is not parseable, both fixed properties of the descriptor. On
// failure the binding returns before touching the parser; the included
// ranges are never touched.
pub assume_specification[ tree_sitter::Parser::set_language ](
    p: &mut tree_sitter::Parser,
    l: &tree_sitter::Language,
) -> (r: Result<(), tree_sitter::LanguageError>)
    ensures
        r is Ok <==> language_compatible(*l),
        r is Ok ==> parser_language(*final(p)) == Some(*l),
        r is Err ==> *final(p) == *old(p),
        parser_ranges(*final(p)) == parser_ranges(*old(p)),
;

// Relies on Parser::set_included_ranges: accepts the ranges exactly when
// each runs forward and consecutive ranges do not overlap, judged by the
// engine over 32-bit offsets; on failure the parser is untouched and the
// error carries the index of the first range the binding's rescan flags
// (zero when the rescan, which uses the full offsets, flags none).
pub assume_specification[ tree_sitter::Parser::set_included_ranges ](
    p: &mut tree_sitter::Parser,
    ranges: &[tree_sitter::Range],
) -> (r: Result<(), tree_sitter::IncludedRangesError>)
    ensures
        r is Ok <==> eng_ranges_ok(ranges@),
        r matches Err(e) ==> e.0 == (if first_bad_eng_range(ranges@, 0, 0) < ranges@.len() {
            first_bad_eng_range(ranges@, 0, 0)
        } else {
            0
        }),
        r is Ok ==> parser_ranges(*final(p)) == normalized_ranges(ranges@),
        r is Err ==> *final(p) == *old(p),
        parser_language(*final(p)) == parser_language(*old(p)),
;

/// Two node models agree on everything structural: kind, symbol, flags and
/// child count; positions, change flags and identity are left free.
pub open spec fn same_shape(a: NodeModel, b: NodeModel) -> bool {
    &&& a.kind == b.kind
    &&& a.kind_id == b.kind_id
    &&& a.is_named == b.is_named
    &&& a.is_extra == b.is_extra
    &&& a.has_error == b.has_error
    &&& a.is_error == b.is_error
    &&& a.is_missing == b.is_missing
    &&& a.child_count == b.child_count
}

/// The engine's acceptance condition for included ranges: every range runs
/// forward, and consecutive ranges are ordered without overlap. The engine
/// stores byte offsets as 32-bit values and checks the reduced offsets.
pub open spec fn eng_ranges_ok(rs: Seq<tree_sitter::Range>) -> bool {
    &&& forall|i: int|
        0 <= i < rs.len() ==> ((#[trigger] rs[i]).start_byte as u32) <= (rs[i].end_byte as u32)
    &&& forall|i: int|
        0 < i < rs.len() ==> ((#[trigger] rs[i]).start_byte as u32) >= (rs[i - 1].end_byte as u32)
}

/// The index of the first engine range that the diagnostic rescan flags,
/// given the end byte of the last accepted range; the length when none is
/// flagged. The rescan judges the full offsets, not the 32-bit reductions.
pub open spec fn first_bad_eng_range(rs: Seq<tree_sitter::Range>, i: int, prev_end: int) -> int
    decreases rs.len() - i,
{
    if i < 0 || i >= rs.len() {
        rs.len() as int
    } else if rs[i].start_byte < prev_end || rs[i].end_byte < rs[i].start_byte {
        i
    } else {
        first_bad_eng_range(rs, i + 1, rs[i].end_byte as int)
    }
}

/// The same scan over range snapshots.
pub open spec fn first_bad_range(rs: Seq<RangeSnap>, i: int, prev_end: int) -> int
    decreases rs.len() - i,
{
    if i < 0 || i >= rs.len() {
        rs.len() as int
    } else if rs[i].start_byte < prev_end || rs[i].end_byte < rs[i].start_byte {
        i
    } else {
        first_bad_range(rs, i + 1, rs[i].end_byte as int)
    }
}

/// The same condition over range snapshots.
pub open spec fn ranges_ok(rs: Seq<RangeSnap>) -> bool {
    &&& forall|i: int|
        0 <= i < rs.len() ==> ((#[trigger] rs[i]).start_byte as u32) <= (rs[i].end_byte as u32)
    &&& forall|i: int|
        0 < i < rs.len() ==> ((#[trigger] rs[i]).start_byte as u32) >= (rs[i - 1].end_byte as u32)
}

/// The index the engine reports for a refused range list: the first range
/// the diagnostic rescan flags, or zero when the rescan flags none.
pub open spec fn bad_range_report(rs: Seq<RangeSnap>) -> int {
    if first_bad_range(rs, 0, 0) < rs.len() {
        first_bad_range(rs, 0, 0)
    } else {
        0
    }
}

/// The two ordering scans agree on sequences whose byte fields agree.
proof fn lemma_first_bad_range_agrees(
    es: Seq<tree_sitter::Range>,
    rs: Seq<RangeSnap>,
    i: int,
    prev_end: int,
)
    requires
        es.len() == rs.len(),
        forall|j: int|
            0 <= j < es.len() ==> (#[trigger] es[j]).start_byte == rs[j].start_byte
                && es[j].end_byte == rs[j].end_byte,
    ensures
        first_bad_eng_range(es, i, prev_end) == first_bad_range(rs, i, prev_end),
    decreases es.len() - i,
{
    if 0 <= i < es.len() && !(es[i].start_byte < prev_end || es[i].end_byte < es[i].start_byte) {
        lemma_first_bad_range_agrees(es, rs, i + 1, es[i].end_byte as int);
    }
}

/// An immutable syntax tree produced by a parser.
pub struct TreeHandle {
    inner: tree_sitter::Tree,
}

/// A reusable parser with an assigned grammar.
pub struct ParserHandle {
    inner: tree_sitter::Parser,
}

// Relies on Parser::parse: parses the bytes, reusing the old tree's state
// when one is given; returns nothing when the engine gives up (no language,
// internal limits). Any tree it returns carries a pre-order model.
#[verifier::external_body]
fn engine_parse(
    p: &mut tree_sitter::Parser,
    text: &[u8],
    old_tree: Option<&tree_sitter::Tree>,
) -> (r: Option<tree_sitter::Tree>)
    ensures
        match r {
            Some(t) => tree_nodes(t).len() == tree_depths(t).len() && preorder_wf(tree_depths(t)),
            None => true,
        },
        parser_language(*final(p)) == parser_language(*old(p)),
        parser_ranges(*final(p)) == parser_ranges(*old(p)),
{
    p.parse(text, old_tree)
}

// Relies on Parser::new and Parser::set_language: a fresh engine parser with
// the given grammar assigned and no range restriction (the entire input);
// assignment fails exactly when the engine rejects the descriptor, a fixed
// property of the descriptor.
#[verifier::external_body]
fn engine_parser_with(lang: &tree_sitter::Language) -> (r: Result<
    tree_sitter::Parser,
    tree_sitter::LanguageError,
>)
    ensures
        r is Ok <==> language_compatible(*lang),
        r matches Ok(p) ==> parser_language(p) == Some(*lang) && parser_ranges(p)
            == Seq::<tree_sitter::Range>::empty(),
{
    let mut parser = tree_sitter::Parser::new();
    match parser.set_language(lang) {
        Ok(()) => Ok(parser),
        Err(e) => Err(e),
    }
}

impl ParserHandle {
    /// The grammar assigned to this parser, if any.
    pub closed spec fn lang_model(&self) -> Option<tree_sitter::Language> {
        parser_language(self.inner)
    }

    /// The included ranges in force on this parser; empty stands for the
    /// entire input.
    pub closed spec fn ranges_model(&self) -> Seq<tree_sitter::Range> {
        parser_ranges(self.inner)
    }

    /// Create a parser and assign it the given engine language descriptor.
    /// Fails with the engine's diagnostic exactly when the engine rejects
    /// the descriptor; on success the handle carries that grammar and no
    /// range restriction.
    pub fn new(lang: tree_sitter::Language) -> (r: Result<ParserHandle, Error>)
        ensures
            r is Ok <==> language_compatible(lang),
            r is Err ==> r->Err_0 is LanguageError,
            r matches Ok(h) ==> h.lang_model() == Some(lang) && h.ranges_model()
                == Seq::<tree_sitter::Range>::empty(),
    {
        match engine_parser_with(&lang) {
            Ok(p) => Ok(ParserHandle { inner: p }),
            Err(e) => Err(Error::LanguageError(e)),
        }
    }

    /// Reassign the parser's grammar, discarding state tied to the previous
    /// one. Fails exactly when the engine rejects the descriptor, and then
    /// the parser is left untouched; the included ranges stay either way.
    pub fn set_language(&mut self, lang: tree_sitter::Language) -> (r: Result<(), Error>)
        ensures
            r is Ok <==> language_compatible(lang),
            r is Err ==> r->Err_0 is LanguageError,
            r is Ok ==> final(self).lang_model() == Some(lang),
            r is Err ==> *final(self) == *old(self),
            final(self).ranges_model() == old(self).ranges_model(),
    {
        match self.inner.set_language(&lang) {
            Ok(u) => Ok(u),
            Err(e) => Err(Error::LanguageError(e)),
        }
    }

    /// Restrict subsequent parses to the given byte ranges; an empty list
    /// restores the entire input. Succeeds exactly when every range runs
    /// forward and consecutive ranges do not overlap, measured in the
    /// engine's 32-bit offset space; on failure the parser is left untouched
    /// and the error carries the index the engine's rescan reports.
    #[verifier::rlimit(50)]
    pub fn set_included_ranges(&mut self, ranges: &Vec<RangeSnap>) -> (r: Result<(), Error>)
        ensures
            r is Ok <==> ranges_ok(ranges@),
            r matches Err(e) ==> e == Error::IncludedRangesError(
                bad_range_report(ranges@) as usize,
            ),
            r is Ok ==> final(self).ranges_model() == normalized_ranges(eng_of_snaps(ranges@)),
            r is Err ==> *final(self) == *old(self),
            final(self).lang_model() == old(self).lang_model(),
    {
        let mut eng: Vec<tree_sitter::Range> = Vec::new();
        let mut i: usize = 0;
        while i < ranges.len()
            invariant
                i <= ranges.len(),
                eng@.len() == i,
                forall|j: int| 0 <= j < i ==> #[trigger] eng@[j] == eng_range(ranges@[j]),
            decreases ranges.len() - i,
        {
            eng.push(ranges[i].to_engine());
            i = i + 1;
        }
        proof {
            let es = eng@;
            let rs = ranges@;
            assert(es =~= eng_of_snaps(rs));
            if eng_ranges_ok(es) {
                assert forall|k: int| 0 <= k < rs.len() implies ((#[trigger] rs[k]).start_byte
                    as u32) <= (rs[k].end_byte as u32) by {
                    assert((es[k].start_byte as u32) <= (es[k].end_byte as u32));
                }
                assert forall|k: int| 0 < k < rs.len() implies ((#[trigger] rs[k]).start_byte
                    as u32) >= (rs[k - 1].end_byte as u32) by {
                    assert((es[k].start_byte as u32) >= (es[k - 1].end_byte as u32));
                }
            }
            lemma_first_bad_range_agrees(es, rs, 0, 0);
            if ranges_ok(rs) {
                assert forall|k: int| 0 <= k < es.len() implies ((#[trigger] es[k]).start_byte
                    as u32) <= (es[k].end_byte as u32) by {
                    assert((rs[k].start_byte as u32) <= (rs[k].end_byte as u32));
                }
                assert forall|k: int| 0 < k < es.len() implies ((#[trigger] es[k]).start_byte
                    as u32) >= (es[k - 1].end_byte as u32) by {
                    assert((rs[k].start_byte as u32) >= (rs[k - 1].end_byte as u32));
                }
            }
        }
        match self.inner.set_included_ranges(eng.as_slice()) {
            Ok(u) => Ok(u),
            Err(e) => Err(Error::IncludedRangesError(e.0)),
        }
    }

    /// Parse the given bytes, reusing `old_tree` as prior state when one is
    /// given; the caller must already have applied every edit to it. Returns
    /// nothing when the engine gives up; that is a value, not an error.
    pub fn parse(&mut self, text: &[u8], old_tree: Option<&TreeHandle>) -> (r: Option<TreeHandle>)
        ensures
            r matches Some(t) ==> t.wf(),
            final(self).lang_model() == old(self).lang_model(),
            final(self).ranges_model() == old(self).ranges_model(),
    {
        let old_inner = match old_tree {
            Some(t) => Some(&t.inner),
            None => None,
        };
        match engine_parse(&mut self.inner, text, old_inner) {
            Some(t) => Some(TreeHandle { inner: t }),
            None => None,
        }
    }
}

impl TreeHandle {
    /// The engine tree this handle owns, as an abstract value.
    pub closed spec fn engine(&self) -> tree_sitter::Tree {
        self.inner
    }

    /// Borrow the engine tree for the query executor.
    pub(crate) fn engine_ref(&self) -> (r: &tree_sitter::Tree)
        ensures
            *r == self.engine(),
    {
        &self.inner
    }

    /// The pre-order node models of this tree.
    pub closed spec fn model(&self) -> Seq<NodeModel> {
        tree_nodes(self.inner)
    }

    /// The pre-order depths of this tree.
    pub closed spec fn depths(&self) -> Seq<nat> {
        tree_depths(self.inner)
    }

    /// The tree's model is a nonempty pre-order linearization.
    pub open spec fn wf(&self) -> bool {
        self.model().len() == self.depths().len() && preorder_wf(self.depths())
    }

    /// Apply one text edit to the tree in place, shifting byte offsets and
    /// marking affected subtrees as changed. The result is the engine's edit
    /// of this tree with this edit, and the tree's shape is preserved.
    pub fn edit(&mut self, edit: &EditSnap)
        ensures
            final(self).model() == edited_nodes(old(self).engine(), *edit),
            final(self).depths() == old(self).depths(),
            final(self).model().len() == old(self).model().len(),
            forall|i: int|
                0 <= i < final(self).model().len() ==> same_shape(
                    #[trigger] final(self).model()[i],
                    old(self).model()[i],
                ),
    {
        let eng = edit.to_engine();
        self.inner.edit(&eng);
    }

    /// A snapshot of the tree's root node, without text.
    pub fn root_node(&self) -> (r: NodeSnap)
        ensures
            self.model().len() >= 1,
            is_snap_of(r, self.model()[0], None),
    {
        let cur = self.inner.walk();
        NodeSnap::from_tsnode(&cur.node(), None)
    }

    /// Snapshots of every node of the tree, in pre-order: parent before
    /// children, children left to right, each node exactly once, without
    /// text. The walk descends to a first child where one exists, otherwise
    /// moves to a next sibling, ascending while none exists; it ends when it
    /// would have to ascend from the root.
    pub fn pre_walk(&self) -> (out: Vec<NodeSnap>)
        ensures
            out@.len() == self.model().len(),
            forall|i: int|
                0 <= i < out@.len() ==> is_snap_of(#[trigger] out@[i], self.model()[i], None),
    {
        let ghost m = tree_nodes(self.inner);
        let ghost d = tree_depths(self.inner);
        let mut cur = self.inner.walk();
        let mut out: Vec<NodeSnap> = Vec::new();
        let mut going: bool = true;
        while going
            invariant
                cursor_nodes(cur) == m,
                cursor_depths(cur) == d,
                m.len() == d.len(),
                preorder_wf(d),
                out@.len() <= m.len(),
                forall|i: int|
                    0 <= i < out@.len() ==> is_snap_of(#[trigger] out@[i], m[i], None),
                going ==> cursor_pos(cur) == out@.len() && cursor_pos(cur) < m.len(),
                !going ==> out@.len() == m.len(),
            decreases m.len() - out@.len(),
        {
            let n = cur.node();
            out.push(NodeSnap::from_tsnode(&n, None));
            if !cur.goto_first_child() {
                proof {
                    lemma_scan_shallow_pins(
                        d,
                        d[cursor_pos(cur)],
                        cursor_pos(cur) + 1,
                        cursor_pos(cur) + 1,
                    );
                }
                let mut climbing: bool = true;
                while climbing
                    invariant
                        cursor_nodes(cur) == m,
                        cursor_depths(cur) == d,
                        m.len() == d.len(),
                        preorder_wf(d),
                        out@.len() <= m.len(),
                        forall|i: int|
                            0 <= i < out@.len() ==> is_snap_of(#[trigger] out@[i], m[i], None),
                        climbing ==> going && 0 <= cursor_pos(cur) < m.len() && subtree_end(
                            d,
                            cursor_pos(cur),
                        ) == out@.len() && (forall|j: int|
                            cursor_pos(cur) < j < out@.len() ==> #[trigger] d[j] > d[cursor_pos(
                                cur,
                            )]),
                        !climbing && going ==> cursor_pos(cur) == out@.len() && cursor_pos(cur)
                            < m.len(),
                        !climbing && !going ==> out@.len() == m.len(),
                    decreases (if climbing {
                        d[cursor_pos(cur)] + 1
                    } else {
                        0
                    }),
                {
                    let ghost p0 = cursor_pos(cur);
                    proof {
                        lemma_scan_shallow_props(d, d[p0], p0 + 1);
                    }
                    if cur.goto_next_sibling() {
                        climbing = false;
                    } else {
                        if cur.goto_parent() {
                            proof {
                                lemma_scan_shallow_pins(
                                    d,
                                    d[cursor_pos(cur)],
                                    cursor_pos(cur) + 1,
                                    out@.len() as int,
                                );
                            }
                        } else {
                            going = false;
                            climbing = false;
                        }
                    }
                }
            }
        }
        out
    }
}

/// The first snapshot of a pre-order walk is the root's snapshot: both are
/// pinned to position zero of the tree's model, so they agree on identity
/// and range (and on every other attribute).
pub proof fn lemma_pre_walk_starts_at_root(
    root: NodeSnap,
    walked: Seq<NodeSnap>,
    m: Seq<NodeModel>,
)
    requires
        m.len() >= 1,
        is_snap_of(root, m[0], None),
        walked.len() == m.len(),
        forall|i: int| 0 <= i < walked.len() ==> is_snap_of(#[trigger] walked[i], m[i], None),
    ensures
        walked[0].id == root.id,
        walked[0].range == root.range,
        walked[0].kind@ == root.kind@,
{
    assert(is_snap_of(walked[0], m[0], None));
}

} // verus!
