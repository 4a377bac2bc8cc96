//! Plain-data mirrors of the engine's value types (points, ranges, edits,
//! node snapshots) and loss-free conversions between the two worlds.
use vstd::prelude::*;
use vstd::slice::slice_subrange;

verus! {

broadcast use vstd::string::group_string_axioms;

// The engine's position and range types have public integer fields, so Verus
// can see them directly once they are declared.
#[verifier::external_type_specification]
pub struct ExPoint(tree_sitter::Point);

#[verifier::external_type_specification]
pub struct ExRange(tree_sitter::Range);

#[verifier::external_type_specification]
pub struct ExInputEdit(tree_sitter::InputEdit);

/// A position in a multi-line document: zero-based row, and byte column
/// within that row.
#[derive(Clone, Copy, Debug, PartialEq, Eq, Structural)]
pub struct PointSnap {
    pub row: usize,
    pub column: usize,
}

/// A span of a document, both as byte offsets and as point coordinates.
#[derive(Clone, Copy, Debug, PartialEq, Eq, Structural)]
pub struct RangeSnap {
    pub start_byte: usize,
    pub end_byte: usize,
    pub start_point: PointSnap,
    pub end_point: PointSnap,
}

/// A single contiguous text mutation, described in bytes and in points.
#[derive(Clone, Copy, Debug, PartialEq, Eq, Structural)]
pub struct EditSnap {
    pub start_byte: usize,
    pub old_end_byte: usize,
    pub new_end_byte: usize,
    pub start_position: PointSnap,
    pub old_end_position: PointSnap,
    pub new_end_position: PointSnap,
}

/// The snapshot value that an engine point corresponds to.
pub open spec fn abs_point(p: tree_sitter::Point) -> PointSnap {
    PointSnap { row: p.row, column: p.column }
}

/// The engine value that a point snapshot corresponds to.
pub open spec fn eng_point(p: PointSnap) -> tree_sitter::Point {
    tree_sitter::Point { row: p.row, column: p.column }
}

/// The snapshot value that an engine range corresponds to.
pub open spec fn abs_range(r: tree_sitter::Range) -> RangeSnap {
    RangeSnap {
        start_byte: r.start_byte,
        end_byte: r.end_byte,
        start_point: abs_point(r.start_point),
        end_point: abs_point(r.end_point),
    }
}

/// The engine value that a range snapshot corresponds to.
pub open spec fn eng_range(r: RangeSnap) -> tree_sitter::Range {
    tree_sitter::Range {
        start_byte: r.start_byte,
        end_byte: r.end_byte,
        start_point: eng_point(r.start_point),
        end_point: eng_point(r.end_point),
    }
}

/// The snapshot value that an engine input edit corresponds to.
pub open spec fn abs_edit(e: tree_sitter::InputEdit) -> EditSnap {
    EditSnap {
        start_byte: e.start_byte,
        old_end_byte: e.old_end_byte,
        new_end_byte: e.new_end_byte,
        start_position: abs_point(e.start_position),
        old_end_position: abs_point(e.old_end_position),
        new_end_position: abs_point(e.new_end_position),
    }
}

/// The engine value that an input edit snapshot corresponds to.
pub open spec fn eng_edit(e: EditSnap) -> tree_sitter::InputEdit {
    tree_sitter::InputEdit {
        start_byte: e.start_byte,
        old_end_byte: e.old_end_byte,
        new_end_byte: e.new_end_byte,
        start_position: eng_point(e.start_position),
        old_end_position: eng_point(e.old_end_position),
        new_end_position: eng_point(e.new_end_position),
    }
}

impl PointSnap {
    /// Convert a point snapshot into the engine's form.
    pub fn to_engine(&self) -> (r: tree_sitter::Point)
        ensures
            r == eng_point(*self),
    {
        tree_sitter::Point { row: self.row, column: self.column }
    }

    /// Build a point snapshot from the engine's form.
    pub fn from_engine(p: &tree_sitter::Point) -> (r: PointSnap)
        ensures
            r == abs_point(*p),
    {
        PointSnap { row: p.row, column: p.column }
    }
}

impl RangeSnap {
    /// Convert a range snapshot into the engine's form.
    pub fn to_engine(&self) -> (r: tree_sitter::Range)
        ensures
            r == eng_range(*self),
    {
        tree_sitter::Range {
            start_byte: self.start_byte,
            end_byte: self.end_byte,
            start_point: self.start_point.to_engine(),
            end_point: self.end_point.to_engine(),
        }
    }

    /// Build a range snapshot from the engine's form.
    pub fn from_engine(r: &tree_sitter::Range) -> (s: RangeSnap)
        ensures
            s == abs_range(*r),
    {
        RangeSnap {
            start_byte: r.start_byte,
            end_byte: r.end_byte,
            start_point: PointSnap::from_engine(&r.start_point),
            end_point: PointSnap::from_engine(&r.end_point),
        }
    }
}

impl EditSnap {
    /// Convert an edit snapshot into the engine's form.
    pub fn to_engine(&self) -> (r: tree_sitter::InputEdit)
        ensures
            r == eng_edit(*self),
    {
        tree_sitter::InputEdit {
            start_byte: self.start_byte,
            old_end_byte: self.old_end_byte,
            new_end_byte: self.new_end_byte,
            start_position: self.start_position.to_engine(),
            old_end_position: self.old_end_position.to_engine(),
            new_end_position: self.new_end_position.to_engine(),
        }
    }

    /// Build an edit snapshot from the engine's form.
    pub fn from_engine(e: &tree_sitter::InputEdit) -> (r: EditSnap)
        ensures
            r == abs_edit(*e),
    {
        EditSnap {
            start_byte: e.start_byte,
            old_end_byte: e.old_end_byte,
            new_end_byte: e.new_end_byte,
            start_position: PointSnap::from_engine(&e.start_position),
            old_end_position: PointSnap::from_engine(&e.old_end_position),
            new_end_position: PointSnap::from_engine(&e.new_end_position),
        }
    }
}

/// A point snapshot survives a round trip through the engine form unchanged,
/// and an engine point survives a round trip through the snapshot form.
pub proof fn lemma_point_round_trip(p: PointSnap, q: tree_sitter::Point)
    ensures
        abs_point(eng_point(p)) == p,
        eng_point(abs_point(q)) == q,
{
}

/// A range snapshot survives a round trip through the engine form unchanged,
/// and an engine range survives a round trip through the snapshot form.
pub proof fn lemma_range_round_trip(r: RangeSnap, s: tree_sitter::Range)
    ensures
        abs_range(eng_range(r)) == r,
        eng_range(abs_range(s)) == s,
{
}

/// An edit snapshot survives a round trip through the engine form unchanged,
/// and an engine edit survives a round trip through the snapshot form.
pub proof fn lemma_edit_round_trip(e: EditSnap, f: tree_sitter::InputEdit)
    ensures
        abs_edit(eng_edit(e)) == e,
        eng_edit(abs_edit(f)) == f,
{
}

// The engine node handle is opaque to the verifier; everything the bridge
// reads of it goes through the named model below.
#[verifier::external_type_specification]
#[verifier::external_body]
pub struct ExNode<'a>(tree_sitter::Node<'a>);

/// Everything the bridge reads of one engine node, as plain values.
pub ghost struct NodeModel {
    pub id: usize,
    pub kind: Seq<char>,
    pub kind_id: u16,
    pub is_named: bool,
    pub is_extra: bool,
    pub has_changes: bool,
    pub has_error: bool,
    pub is_error: bool,
    pub is_missing: bool,
    pub child_count: usize,
    pub range: RangeSnap,
}

/// One capture of a query match, as plain values: the capture-table index
/// and the captured node's model.
pub ghost struct CaptureModel {
    pub index: u32,
    pub node: NodeModel,
}

/// One query match, as plain values: the pattern index and the captures in
/// emission order.
pub ghost struct MatchModel {
    pub pattern_index: usize,
    pub captures: Seq<CaptureModel>,
}

/// What the engine reports of a node handle; a function of the node alone.
pub uninterp spec fn node_info(n: tree_sitter::Node) -> NodeModel;

/// The UTF-8 decoding of a byte sequence, where one exists.
pub uninterp spec fn decoded_utf8(b: Seq<u8>) -> Option<Seq<char>>;

/// Relies on str::from_utf8: returns the decoded text exactly when the bytes
/// are valid UTF-8.
#[verifier::external_body]
pub(crate) fn decode_utf8(b: &[u8]) -> (r: Option<String>)
    ensures
        match r {
            Some(s) => decoded_utf8(b@) == Some(s@),
            None => decoded_utf8(b@) is None,
        },
{
    match std::str::from_utf8(b) {
        Ok(s) => Some(s.to_string()),
        Err(_) => None,
    }
}

// Relies on the engine's node accessors: each reads one attribute of the
// node, a pure function of the node handle.
pub assume_specification<'a>[ tree_sitter::Node::<'a>::id ](n: &tree_sitter::Node<'a>) -> (r: usize)
    ensures
        r == node_info(*n).id,
;

pub assume_specification<'a>[ tree_sitter::Node::<'a>::kind ](n: &tree_sitter::Node<'a>) -> (r: &'a str)
    ensures
        r@ == node_info(*n).kind,
;

pub assume_specification<'a>[ tree_sitter::Node::<'a>::kind_id ](n: &tree_sitter::Node<'a>) -> (r: u16)
    ensures
        r == node_info(*n).kind_id,
;

pub assume_specification<'a>[ tree_sitter::Node::<'a>::is_named ](n: &tree_sitter::Node<'a>) -> (r: bool)
    ensures
        r == node_info(*n).is_named,
;

pub assume_specification<'a>[ tree_sitter::Node::<'a>::is_extra ](n: &tree_sitter::Node<'a>) -> (r: bool)
    ensures
        r == node_info(*n).is_extra,
;

pub assume_specification<'a>[ tree_sitter::Node::<'a>::has_changes ](n: &tree_sitter::Node<'a>) -> (r: bool)
    ensures
        r == node_info(*n).has_changes,
;

pub assume_specification<'a>[ tree_sitter::Node::<'a>::has_error ](n: &tree_sitter::Node<'a>) -> (r: bool)
    ensures
        r == node_info(*n).has_error,
;

pub assume_specification<'a>[ tree_sitter::Node::<'a>::is_error ](n: &tree_sitter::Node<'a>) -> (r: bool)
    ensures
        r == node_info(*n).is_error,
;

pub assume_specification<'a>[ tree_sitter::Node::<'a>::is_missing ](n: &tree_sitter::Node<'a>) -> (r: bool)
    ensures
        r == node_info(*n).is_missing,
;

pub assume_specification<'a>[ tree_sitter::Node::<'a>::child_count ](n: &tree_sitter::Node<'a>) -> (r: u32)
    ensures
        r as usize == node_info(*n).child_count,
;

pub assume_specification<'a>[ tree_sitter::Node::<'a>::range ](n: &tree_sitter::Node<'a>) -> (r: tree_sitter::Range)
    ensures
        abs_range(r) == node_info(*n).range,
        range_wf(abs_range(r)),
;

/// A detached copy of one syntax-tree node, safe to hand to the host.
#[derive(Debug)]
pub struct NodeSnap {
    pub id: usize,
    pub text: Option<String>,
    pub range: RangeSnap,
    pub kind: String,
    pub kind_id: u16,
    pub is_named: bool,
    pub is_extra: bool,
    pub has_changes: bool,
    pub has_error: bool,
    pub is_error: bool,
    pub is_missing: bool,
    pub child_count: usize,
}

/// The data-model invariant of a range: it runs forward both in bytes and
/// in lexicographic (row, column) order.
pub open spec fn range_wf(r: RangeSnap) -> bool {
    &&& r.start_byte <= r.end_byte
    &&& (r.start_point.row < r.end_point.row || (r.start_point.row == r.end_point.row
        && r.start_point.column <= r.end_point.column))
}

/// The view of an optional byte buffer.
pub open spec fn view_opt_bytes(src: Option<&[u8]>) -> Option<Seq<u8>> {
    match src {
        None => None,
        Some(s) => Some(s@),
    }
}

/// The text a snapshot carries: the UTF-8 decoding of the node's byte span in
/// the source, and absent when no source is given, the span does not lie
/// inside the source, or the span is not valid UTF-8.
pub open spec fn snap_text(m: NodeModel, src: Option<Seq<u8>>) -> Option<Seq<char>> {
    match src {
        None => None,
        Some(s) => if m.range.start_byte <= m.range.end_byte && m.range.end_byte <= s.len() {
            decoded_utf8(s.subrange(m.range.start_byte as int, m.range.end_byte as int))
        } else {
            None
        },
    }
}

/// The snapshot `n` is exactly what node model `m` and source `src` dictate.
pub open spec fn is_snap_of(n: NodeSnap, m: NodeModel, src: Option<Seq<u8>>) -> bool {
    &&& n.id == m.id
    &&& n.kind@ == m.kind
    &&& n.kind_id == m.kind_id
    &&& n.is_named == m.is_named
    &&& n.is_extra == m.is_extra
    &&& n.has_changes == m.has_changes
    &&& n.has_error == m.has_error
    &&& n.is_error == m.is_error
    &&& n.is_missing == m.is_missing
    &&& n.child_count == m.child_count
    &&& n.range == m.range
    &&& range_wf(n.range)
    &&& match (n.text, snap_text(m, src)) {
        (None, None) => true,
        (Some(t), Some(s)) => t@ == s,
        _ => false,
    }
}

impl NodeSnap {
    /// Detach one engine node into a plain snapshot. When a source buffer is
    /// supplied, the node's byte span is sliced out of it and decoded as
    /// UTF-8; a span outside the buffer or an undecodable span leaves the
    /// text absent rather than failing.
    pub fn from_tsnode(node: &tree_sitter::Node<'_>, source: Option<&[u8]>) -> (r: NodeSnap)
        ensures
            is_snap_of(r, node_info(*node), view_opt_bytes(source)),
    {
        let range = RangeSnap::from_engine(&node.range());
        let text: Option<String> = match source {
            None => None,
            Some(s) => {
                if range.start_byte <= range.end_byte && range.end_byte <= s.len() {
                    decode_utf8(slice_subrange(s, range.start_byte, range.end_byte))
                } else {
                    None
                }
            },
        };
        NodeSnap {
            id: node.id(),
            text,
            range,
            kind: node.kind().to_string(),
            kind_id: node.kind_id(),
            is_named: node.is_named(),
            is_extra: node.is_extra(),
            has_changes: node.has_changes(),
            has_error: node.has_error(),
            is_error: node.is_error(),
            is_missing: node.is_missing(),
            child_count: node.child_count() as usize,
        }
    }

}

} // verus!
