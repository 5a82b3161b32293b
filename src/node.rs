//! Durable node handles: a snapshot of a node's properties plus the byte
//! range by which the node is found again in its tree.
use vstd::prelude::*;
use vstd::string::StringSliceAdditionalSpecFns;
use vstd::string::StringExecFns;
use std::sync::Arc;
use tree_sitter::Node as EngineNode;
use tree_sitter::Tree as EngineTree;
use crate::engine::{
    field_child, node_start_of, node_end_of, node_kind_of, node_kind_id_of, node_named_of,
    node_missing_of, node_extra_of, node_error_of, node_has_error_of, node_changed_of,
    node_start_point_of, node_end_point_of, node_child_count_of, node_named_child_count_of,
    node_sexp_of, parent_of, child_of, named_child_of, field_child_of, next_sibling_of,
    prev_sibling_of, next_named_sibling_of, prev_named_sibling_of, descendant_of, root_of,
};
use crate::point::Point;
use crate::range::Range;
use crate::render::{decimal, decimal_string, debug_quoted, debug_of};

verus! {

/// What a node records of itself when it is created.
pub struct NodeSnapshot {
    pub start_byte: usize,
    pub end_byte: usize,
    pub kind: Seq<char>,
    pub kind_id: u16,
    pub is_named: bool,
    pub is_missing: bool,
    pub is_extra: bool,
    pub is_error: bool,
    pub has_error: bool,
    pub has_changes: bool,
    pub start_point: Point,
    pub end_point: Point,
    pub child_count: usize,
    pub named_child_count: usize,
    pub sexp: Seq<char>,
    pub source: Seq<char>,
}

/// The bytes of `source` in `[start, end)`, or none when that span does not
/// lie within the text on character boundaries.
pub open spec fn span_bytes(source: Seq<char>, start: int, end: int) -> Seq<u8> {
    let b = vstd::utf8::encode_utf8(source);
    if start <= end && end <= b.len() && vstd::utf8::is_char_boundary(b, start)
        && vstd::utf8::is_char_boundary(b, end) {
        b.subrange(start, end)
    } else {
        Seq::empty()
    }
}

/// Structural position equality: same span and same kind.
pub open spec fn same_construct(a: NodeSnapshot, b: NodeSnapshot) -> bool {
    a.start_byte == b.start_byte && a.end_byte == b.end_byte && a.kind == b.kind
}

/// The inspection string of a node.
pub open spec fn node_inspection(kind: Seq<char>, start: nat, end: nat) -> Seq<char> {
    "#<TreeSitter::Node kind="@ + debug_of(kind) + " start_byte="@ + decimal(start)
        + " end_byte="@ + decimal(end) + ">"@
}

/// One navigation step from a node.
pub enum Step {
    Parent,
    Child(usize),
    NamedChild(usize),
    Field(String),
    NextSibling,
    PrevSibling,
    NextNamedSibling,
    PrevNamedSibling,
}

/// What a node handle records of the engine node `n` of a tree parsed from `source`.
pub open spec fn snapshot_of(n: EngineNode<'_>, source: Seq<char>) -> NodeSnapshot {
    NodeSnapshot {
        start_byte: node_start_of(n),
        end_byte: node_end_of(n),
        kind: node_kind_of(n),
        kind_id: node_kind_id_of(n),
        is_named: node_named_of(n),
        is_missing: node_missing_of(n),
        is_extra: node_extra_of(n),
        is_error: node_error_of(n),
        has_error: node_has_error_of(n),
        has_changes: node_changed_of(n),
        start_point: Point { row: node_start_point_of(n).row, column: node_start_point_of(n).column },
        end_point: Point { row: node_end_point_of(n).row, column: node_end_point_of(n).column },
        child_count: node_child_count_of(n),
        named_child_count: node_named_child_count_of(n),
        sexp: node_sexp_of(n),
        source,
    }
}

/// Where one navigation step from the engine node `n` leads.
pub open spec fn step_target<'t>(n: EngineNode<'t>, step: Step) -> Option<EngineNode<'t>> {
    match step {
        Step::Parent => parent_of(n),
        Step::Child(i) => if i < node_child_count_of(n) && i <= u32::MAX {
            child_of(n, i)
        } else {
            None
        },
        Step::NamedChild(i) => if i < node_named_child_count_of(n) && i <= u32::MAX {
            named_child_of(n, i)
        } else {
            None
        },
        Step::Field(name) => field_child_of(n, name@),
        Step::NextSibling => next_sibling_of(n),
        Step::PrevSibling => prev_sibling_of(n),
        Step::NextNamedSibling => next_named_sibling_of(n),
        Step::PrevNamedSibling => prev_named_sibling_of(n),
    }
}

/// The most levels of same-span ancestors that relocation climbs.
pub const SAME_SPAN_CLIMB: usize = 64;

/// From `n`, the first node on its chain of ancestors that spans exactly
/// `[start, end)` and has kind `kind_id`, climbing only through nodes of that
/// exact span and at most `fuel` levels.
pub open spec fn climb<'t>(n: EngineNode<'t>, start: usize, end: usize, kind_id: u16, fuel: nat) -> Option<EngineNode<'t>>
    decreases fuel,
{
    if node_start_of(n) != start || node_end_of(n) != end {
        None
    } else if node_kind_id_of(n) == kind_id {
        Some(n)
    } else if fuel == 0 {
        None
    } else {
        match parent_of(n) {
            Some(p) => climb(p, start, end, kind_id, (fuel - 1) as nat),
            None => None,
        }
    }
}

/// Where a navigation step leads from a relocation result; nowhere from a miss.
pub open spec fn navigate<'t>(located: Option<EngineNode<'t>>, step: Step) -> Option<EngineNode<'t>> {
    match located {
        Some(n) => step_target(n, step),
        None => None,
    }
}

/// Child `i` of `n`, or its named child `i` when `named_only` holds.
pub open spec fn pick_child<'t>(n: EngineNode<'t>, named_only: bool, i: usize) -> Option<EngineNode<'t>> {
    if named_only { named_child_of(n, i) } else { child_of(n, i) }
}

/// The children of `n` among the first `count` positions that the engine
/// yields, in order; only the named ones when `named_only` holds.
pub open spec fn children_upto<'t>(n: EngineNode<'t>, named_only: bool, count: nat) -> Seq<EngineNode<'t>>
    decreases count,
{
    if count == 0 {
        Seq::empty()
    } else {
        let before = children_upto(n, named_only, (count - 1) as nat);
        match pick_child(n, named_only, (count - 1) as usize) {
            Some(c) => before.push(c),
            None => before,
        }
    }
}

/// The children of `n` that a handle lists: all positions up to its count.
pub open spec fn children_of<'t>(n: EngineNode<'t>, named_only: bool) -> Seq<EngineNode<'t>> {
    let count = if named_only { node_named_child_count_of(n) } else { node_child_count_of(n) };
    children_upto(n, named_only, count as nat)
}

/// A handle to the node of a tree that spans a recorded byte range.
pub struct Node {
    tree: Arc<EngineTree>,
    source: Arc<String>,
    start_byte: usize,
    end_byte: usize,
    kind: String,
    kind_id: u16,
    is_named: bool,
    is_missing: bool,
    is_extra: bool,
    is_error: bool,
    has_error: bool,
    has_changes: bool,
    start_point: Point,
    end_point: Point,
    child_count: usize,
    named_child_count: usize,
    sexp: String,
}

impl View for Node {
    type V = NodeSnapshot;

    closed spec fn view(&self) -> NodeSnapshot {
        NodeSnapshot {
            start_byte: self.start_byte,
            end_byte: self.end_byte,
            kind: self.kind@,
            kind_id: self.kind_id,
            is_named: self.is_named,
            is_missing: self.is_missing,
            is_extra: self.is_extra,
            is_error: self.is_error,
            has_error: self.has_error,
            has_changes: self.has_changes,
            start_point: self.start_point,
            end_point: self.end_point,
            child_count: self.child_count,
            named_child_count: self.named_child_count,
            sexp: self.sexp@,
            source: (*self.source)@,
        }
    }
}

impl Node {
    /// The tree that this node belongs to.
    pub closed spec fn tree(&self) -> Arc<EngineTree> {
        self.tree
    }

    /// The text that this node's tree was parsed from.
    pub closed spec fn source_handle(&self) -> Arc<String> {
        self.source
    }

    /// The recorded text is the text behind the handle.
    pub proof fn lemma_source_handle(node: &Node)
        ensures
            node@.source == (*node.source_handle())@,
    {
    }

    /// The handle on this node's tree.
    pub fn tree_ref(&self) -> (r: &Arc<EngineTree>)
        ensures
            *r == self.tree(),
    {
        &self.tree
    }

    /// The handle on this node's text.
    pub fn source_ref(&self) -> (r: &Arc<String>)
        ensures
            *r == self.source_handle(),
    {
        &self.source
    }

    /// Where this handle is found again in its tree: the smallest node of
    /// the tree that spans the recorded byte range, if any.
    pub open spec fn located(&self) -> Option<EngineNode<'_>> {
        match descendant_of(root_of(&*self.tree()), self@.start_byte, self@.end_byte) {
            Some(n) => climb(n, self@.start_byte, self@.end_byte, self@.kind_id, SAME_SPAN_CLIMB as nat),
            None => None,
        }
    }

    /// `r` is the handle that records `target`, on this handle's tree and
    /// text, and exists exactly when `target` does.
    pub open spec fn lands(&self, target: Option<EngineNode<'_>>, r: Option<Node>) -> bool {
        &&& (r is Some <==> target is Some)
        &&& r is Some ==> r->0@ == snapshot_of(target->0, self@.source) && r->0.shares_tree(self)
    }

    /// `r` holds a handle, on this handle's tree and text, for each of `targets`, in order.
    pub open spec fn lands_all(&self, targets: Seq<EngineNode<'_>>, r: Seq<Node>) -> bool {
        &&& r.len() == targets.len()
        &&& forall|k: int| 0 <= k < r.len() ==> (#[trigger] r[k])@ == snapshot_of(targets[k], self@.source)
            && r[k].shares_tree(self)
    }

    /// Whether `other` belongs to the same tree and text as this node.
    pub open spec fn shares_tree(&self, other: &Node) -> bool {
        self.tree() == other.tree() && self.source_handle() == other.source_handle()
    }

    /// Records the properties of `ts_node`, a node of `tree` parsed from `source`.
    pub fn new(ts_node: EngineNode<'_>, source: Arc<String>, tree: Arc<EngineTree>) -> (r: Node)
        ensures
            r.tree() == tree,
            r.source_handle() == source,
            r@ == snapshot_of(ts_node, (*source)@),
    {
        let start = ts_node.start_position();
        let end = ts_node.end_position();
        Node {
            tree,
            source,
            start_byte: ts_node.start_byte(),
            end_byte: ts_node.end_byte(),
            kind: String::from_str(ts_node.kind()),
            kind_id: ts_node.kind_id(),
            is_named: ts_node.is_named(),
            is_missing: ts_node.is_missing(),
            is_extra: ts_node.is_extra(),
            is_error: ts_node.is_error(),
            has_error: ts_node.has_error(),
            has_changes: ts_node.has_changes(),
            start_point: Point::from_ts(start),
            end_point: Point::from_ts(end),
            child_count: ts_node.child_count(),
            named_child_count: ts_node.named_child_count(),
            sexp: ts_node.to_sexp(),
        }
    }

    /// A handle on `n`, a node of this handle's tree.
    pub fn handle_for(&self, n: EngineNode<'_>) -> (r: Node)
        ensures
            r@ == snapshot_of(n, self@.source),
            r.shares_tree(self),
    {
        Node::new(n, Arc::clone(&self.source), Arc::clone(&self.tree))
    }

    /// A new handle on the same tree, text and snapshot.
    pub fn duplicate(&self) -> (r: Node)
        ensures
            r@ == self@,
            r.shares_tree(self),
    {
        Node {
            tree: Arc::clone(&self.tree),
            source: Arc::clone(&self.source),
            start_byte: self.start_byte,
            end_byte: self.end_byte,
            kind: self.kind.clone(),
            kind_id: self.kind_id,
            is_named: self.is_named,
            is_missing: self.is_missing,
            is_extra: self.is_extra,
            is_error: self.is_error,
            has_error: self.has_error,
            has_changes: self.has_changes,
            start_point: self.start_point,
            end_point: self.end_point,
            child_count: self.child_count,
            named_child_count: self.named_child_count,
            sexp: self.sexp.clone(),
        }
    }
}

} // verus!

verus! {

impl Node {
    /// Finds this node again in its tree: the smallest node that spans the
    /// recorded byte range, or the nearest ancestor of the same span that
    /// has the recorded kind; nothing when the tree has no such node.
    pub fn get_ts_node_pub(&self) -> (r: Option<EngineNode<'_>>)
        ensures
            r == self.located(),
    {
        let root = self.tree.root_node();
        let mut current = match root.descendant_for_byte_range(self.start_byte, self.end_byte) {
            Some(n) => n,
            None => return None,
        };
        let mut fuel: usize = SAME_SPAN_CLIMB;
        loop
            invariant
                climb(current, self.start_byte, self.end_byte, self.kind_id, fuel as nat) == self.located(),
            decreases fuel,
        {
            if current.start_byte() != self.start_byte || current.end_byte() != self.end_byte {
                return None;
            }
            if current.kind_id() == self.kind_id {
                return Some(current);
            }
            if fuel == 0 {
                return None;
            }
            match current.parent() {
                Some(p) => {
                    current = p;
                    fuel = fuel - 1;
                },
                None => return None,
            }
        }
    }

    /// Takes one navigation step from `located`, the engine node at this
    /// handle's range, and records where it leads. A missed relocation
    /// (`located` is none) leads nowhere.
    pub fn step_from(&self, located: Option<EngineNode<'_>>, step: &Step) -> (r: Option<Node>)
        ensures
            located is None ==> r is None,
            self.lands(navigate(located, *step), r),
    {
        let here = match located {
            Some(n) => n,
            None => return None,
        };
        let target = match step {
            Step::Parent => here.parent(),
            Step::Child(i) => if *i < here.child_count() && *i <= 4294967295 {
                here.child(*i)
            } else {
                None
            },
            Step::NamedChild(i) => if *i < here.named_child_count() && *i <= 4294967295 {
                here.named_child(*i)
            } else {
                None
            },
            Step::Field(name) => field_child(&here, name.as_str()),
            Step::NextSibling => here.next_sibling(),
            Step::PrevSibling => here.prev_sibling(),
            Step::NextNamedSibling => here.next_named_sibling(),
            Step::PrevNamedSibling => here.prev_named_sibling(),
        };
        match target {
            Some(t) => Some(self.handle_for(t)),
            None => None,
        }
    }

    /// Records the children of `located`, the engine node at this handle's
    /// range, in order; only the named ones when `named_only` holds. A missed
    /// relocation gives no children.
    pub fn children_from(&self, located: Option<EngineNode<'_>>, named_only: bool) -> (r: Vec<Node>)
        ensures
            located is None ==> r@.len() == 0,
            located is Some ==> self.lands_all(children_of(located->0, named_only), r@),
    {
        let mut out: Vec<Node> = Vec::new();
        let here = match located {
            Some(n) => n,
            None => return out,
        };
        let count = if named_only { here.named_child_count() } else { here.child_count() };
        let mut i: usize = 0;
        while i < count
            invariant
                i <= count,
                count == (if named_only { node_named_child_count_of(here) } else { node_child_count_of(here) }),
                self.lands_all(children_upto(here, named_only, i as nat), out@),
            decreases count - i,
        {
            let child = if named_only { here.named_child(i) } else { here.child(i) };
            assert(child == pick_child(here, named_only, i));
            if let Some(c) = child {
                out.push(self.handle_for(c));
            }
            i = i + 1;
        }
        out
    }

    pub fn parent(&self) -> (r: Option<Node>)
        ensures
            self.lands(navigate(self.located(), Step::Parent), r),
    {
        self.step_from(self.get_ts_node_pub(), &Step::Parent)
    }

    pub fn child(&self, index: usize) -> (r: Option<Node>)
        ensures
            self.lands(navigate(self.located(), Step::Child(index)), r),
    {
        self.step_from(self.get_ts_node_pub(), &Step::Child(index))
    }

    pub fn named_child(&self, index: usize) -> (r: Option<Node>)
        ensures
            self.lands(navigate(self.located(), Step::NamedChild(index)), r),
    {
        self.step_from(self.get_ts_node_pub(), &Step::NamedChild(index))
    }

    pub fn child_by_field_name(&self, name: String) -> (r: Option<Node>)
        ensures
            self.lands(navigate(self.located(), Step::Field(name)), r),
    {
        self.step_from(self.get_ts_node_pub(), &Step::Field(name))
    }

    pub fn next_sibling(&self) -> (r: Option<Node>)
        ensures
            self.lands(navigate(self.located(), Step::NextSibling), r),
    {
        self.step_from(self.get_ts_node_pub(), &Step::NextSibling)
    }

    pub fn prev_sibling(&self) -> (r: Option<Node>)
        ensures
            self.lands(navigate(self.located(), Step::PrevSibling), r),
    {
        self.step_from(self.get_ts_node_pub(), &Step::PrevSibling)
    }

    pub fn next_named_sibling(&self) -> (r: Option<Node>)
        ensures
            self.lands(navigate(self.located(), Step::NextNamedSibling), r),
    {
        self.step_from(self.get_ts_node_pub(), &Step::NextNamedSibling)
    }

    pub fn prev_named_sibling(&self) -> (r: Option<Node>)
        ensures
            self.lands(navigate(self.located(), Step::PrevNamedSibling), r),
    {
        self.step_from(self.get_ts_node_pub(), &Step::PrevNamedSibling)
    }

    /// All children, in order, as fresh handles.
    pub fn children(&self) -> (r: Vec<Node>)
        ensures
            self.located() is None ==> r@.len() == 0,
            self.located() is Some ==> self.lands_all(children_of(self.located()->0, false), r@),
    {
        self.children_from(self.get_ts_node_pub(), false)
    }

    /// The named children, in order, as fresh handles.
    pub fn named_children(&self) -> (r: Vec<Node>)
        ensures
            self.located() is None ==> r@.len() == 0,
            self.located() is Some ==> self.lands_all(children_of(self.located()->0, true), r@),
    {
        self.children_from(self.get_ts_node_pub(), true)
    }

    pub fn child_count(&self) -> (r: usize)
        ensures
            r == self@.child_count,
    {
        self.child_count
    }

    pub fn named_child_count(&self) -> (r: usize)
        ensures
            r == self@.named_child_count,
    {
        self.named_child_count
    }

    pub fn kind(&self) -> (r: &str)
        ensures
            r@ == self@.kind,
    {
        self.kind.as_str()
    }

    pub fn kind_id(&self) -> (r: u16)
        ensures
            r == self@.kind_id,
    {
        self.kind_id
    }

    pub fn is_named(&self) -> (r: bool)
        ensures
            r == self@.is_named,
    {
        self.is_named
    }

    pub fn is_missing(&self) -> (r: bool)
        ensures
            r == self@.is_missing,
    {
        self.is_missing
    }

    pub fn is_extra(&self) -> (r: bool)
        ensures
            r == self@.is_extra,
    {
        self.is_extra
    }

    pub fn is_error(&self) -> (r: bool)
        ensures
            r == self@.is_error,
    {
        self.is_error
    }

    pub fn has_error(&self) -> (r: bool)
        ensures
            r == self@.has_error,
    {
        self.has_error
    }

    pub fn has_changes(&self) -> (r: bool)
        ensures
            r == self@.has_changes,
    {
        self.has_changes
    }

    pub fn start_byte(&self) -> (r: usize)
        ensures
            r == self@.start_byte,
    {
        self.start_byte
    }

    pub fn end_byte(&self) -> (r: usize)
        ensures
            r == self@.end_byte,
    {
        self.end_byte
    }

    pub fn start_point(&self) -> (r: Point)
        ensures
            r == self@.start_point,
    {
        self.start_point
    }

    pub fn end_point(&self) -> (r: Point)
        ensures
            r == self@.end_point,
    {
        self.end_point
    }

    /// The span of this node with the positions of its ends.
    pub fn range(&self) -> (r: Range)
        ensures
            r.spec_start_byte() == self@.start_byte,
            r.spec_end_byte() == self@.end_byte,
            r.spec_start_point() == self@.start_point,
            r.spec_end_point() == self@.end_point,
            self@.start_byte <= self@.end_byte ==> r.wf(),
    {
        Range::new(self.start_byte, self.end_byte, self.start_point, self.end_point)
    }

    /// The text this node spans; empty when the recorded span does not lie
    /// within the text on character boundaries.
    pub fn text(&self) -> (r: &str)
        ensures
            r.spec_bytes() == span_bytes(self@.source, self@.start_byte as int, self@.end_byte as int),
    {
        span_text(self.source.as_str(), self.start_byte, self.end_byte)
    }

    /// The s-expression recorded for this node.
    pub fn to_sexp(&self) -> (r: &str)
        ensures
            r@ == self@.sexp,
    {
        self.sexp.as_str()
    }

    pub fn inspect(&self) -> (r: String)
        ensures
            r@ == node_inspection(self@.kind, self@.start_byte as nat, self@.end_byte as nat),
    {
        inspect_parts(self.kind.as_str(), self.start_byte, self.end_byte)
    }

    /// Structural equality: the same span and the same kind, whatever the tree.
    pub fn eq(&self, other: &Node) -> (r: bool)
        ensures
            r == same_construct(self@, other@),
    {
        self.start_byte == other.start_byte && self.end_byte == other.end_byte
            && self.kind == other.kind
    }
}

/// The sub-slice of `s` between bytes `start` and `end`, exactly when both
/// ends are in bounds, in order and on character boundaries.
fn str_slice(s: &str, start: usize, end: usize) -> (r: Option<&str>)
    ensures
        r is Some <==> (start <= end && end <= s.spec_bytes().len()
            && vstd::utf8::is_char_boundary(s.spec_bytes(), start as int)
            && vstd::utf8::is_char_boundary(s.spec_bytes(), end as int)),
        r is Some ==> r->0.spec_bytes() == s.spec_bytes().subrange(start as int, end as int),
{
    if start <= end && end <= s.as_bytes().len() && s.is_char_boundary(start) && s.is_char_boundary(end) {
        let (_, tail) = s.split_at(start);
        proof {
            let b = s.spec_bytes();
            let t = tail.spec_bytes();
            vstd::utf8::encode_utf8_valid_utf8(s@);
            vstd::utf8::encode_utf8_valid_utf8(tail@);
            assert(t =~= b.subrange(start as int, b.len() as int));
            if end < b.len() {
                vstd::utf8::is_char_boundary_iff_not_is_continuation_byte(b, end as int);
                vstd::utf8::is_char_boundary_iff_not_is_continuation_byte(t, (end - start) as int);
                assert(t[(end - start) as int] == b[end as int]);
            } else {
                vstd::utf8::is_char_boundary_start_end_of_seq(t);
            }
        }
        let (mid, _) = tail.split_at(end - start);
        assert(mid.spec_bytes() =~= s.spec_bytes().subrange(start as int, end as int));
        Some(mid)
    } else {
        None
    }
}

/// The text of `source` in the byte span `[start, end)`; empty when the span
/// does not lie within the text on character boundaries.
pub fn span_text(source: &str, start: usize, end: usize) -> (r: &str)
    ensures
        r.spec_bytes() == span_bytes(source@, start as int, end as int),
{
    match str_slice(source, start, end) {
        Some(t) => t,
        None => {
            proof { reveal_strlit(""); }
            assert(vstd::utf8::encode_utf8(""@) =~= Seq::<u8>::empty()) by {
                assert(""@ =~= Seq::<char>::empty());
            }
            ""
        },
    }
}

/// The bytes of `bytes` in `[start, end)`; empty when that span is not in bounds.
pub fn byte_window(bytes: &[u8], start: usize, end: usize) -> (r: &[u8])
    ensures
        start <= end <= bytes@.len() ==> r@ == bytes@.subrange(start as int, end as int),
        !(start <= end <= bytes@.len()) ==> r@.len() == 0,
{
    if start <= end && end <= bytes.len() {
        vstd::slice::slice_subrange(bytes, start, end)
    } else {
        vstd::slice::slice_subrange(bytes, 0, 0)
    }
}

/// The inspection string of a node of kind `kind` spanning `[start, end)`.
pub fn inspect_parts(kind: &str, start: usize, end: usize) -> (r: String)
    ensures
        r@ == node_inspection(kind@, start as nat, end as nat),
{
    let mut out = String::from_str("#<TreeSitter::Node kind=");
    out.append(debug_quoted(kind).as_str());
    out.append(" start_byte=");
    out.append(decimal_string(start).as_str());
    out.append(" end_byte=");
    out.append(decimal_string(end).as_str());
    out.append(">");
    proof {
        reveal_strlit("#<TreeSitter::Node kind=");
        reveal_strlit(" start_byte=");
        reveal_strlit(" end_byte=");
        reveal_strlit(">");
    }
    assert(out@ =~= node_inspection(kind@, start as nat, end as nat));
    out
}

/// Structural equality is an equivalence that looks only at span and kind:
/// it holds of a node and itself, both ways or neither, and between nodes of
/// different trees whenever their spans and kinds agree.
pub proof fn structural_equality(a: &Node, b: &Node, c: &Node)
    ensures
        same_construct(a@, a@),
        same_construct(a@, b@) == same_construct(b@, a@),
        same_construct(a@, b@) && same_construct(b@, c@) ==> same_construct(a@, c@),
        (a@.start_byte == b@.start_byte && a@.end_byte == b@.end_byte && a@.kind == b@.kind)
            ==> same_construct(a@, b@),
{
}

/// A node that can no longer be found in its tree leads nowhere: every
/// navigation step from it gives nothing, and it has no children.
pub proof fn relocation_miss_gives_absence(node: &Node, step: &Step, next: Option<Node>, named_only: bool, children: Vec<Node>)
    requires
        call_ensures(Node::step_from, (node, None::<EngineNode<'_>>, step), next),
        call_ensures(Node::children_from, (node, None::<EngineNode<'_>>, named_only), children),
    ensures
        next is None,
        children@.len() == 0,
{
}

/// A node's range reports exactly the node's own start and end bytes and
/// positions.
pub proof fn range_matches_node(
    node: &Node,
    range: Range,
    start_byte: usize,
    end_byte: usize,
    start_point: Point,
    end_point: Point,
)
    requires
        call_ensures(Node::range, (node,), range),
        call_ensures(Node::start_byte, (node,), start_byte),
        call_ensures(Node::end_byte, (node,), end_byte),
        call_ensures(Node::start_point, (node,), start_point),
        call_ensures(Node::end_point, (node,), end_point),
    ensures
        range.spec_start_byte() == start_byte,
        range.spec_end_byte() == end_byte,
        range.spec_start_point() == start_point,
        range.spec_end_point() == end_point,
{
}

/// Reading a property of a node twice gives the same value both times.
pub proof fn property_reads_agree(
    node: &Node,
    kinds: (&str, &str),
    kind_ids: (u16, u16),
    named: (bool, bool),
    errors: (bool, bool),
    starts: (usize, usize),
    counts: (usize, usize),
)
    requires
        call_ensures(Node::kind, (node,), kinds.0),
        call_ensures(Node::kind, (node,), kinds.1),
        call_ensures(Node::kind_id, (node,), kind_ids.0),
        call_ensures(Node::kind_id, (node,), kind_ids.1),
        call_ensures(Node::is_named, (node,), named.0),
        call_ensures(Node::is_named, (node,), named.1),
        call_ensures(Node::has_error, (node,), errors.0),
        call_ensures(Node::has_error, (node,), errors.1),
        call_ensures(Node::start_byte, (node,), starts.0),
        call_ensures(Node::start_byte, (node,), starts.1),
        call_ensures(Node::child_count, (node,), counts.0),
        call_ensures(Node::child_count, (node,), counts.1),
    ensures
        kinds.0@ == kinds.1@,
        kind_ids.0 == kind_ids.1,
        named.0 == named.1,
        errors.0 == errors.1,
        starts.0 == starts.1,
        counts.0 == counts.1,
{
}

/// Two handles reached from the same node by the same navigation step are
/// equal under structural equality.
pub proof fn same_path_same_node(node: &Node, step: Step, a: Option<Node>, b: Option<Node>)
    requires
        node.lands(navigate(node.located(), step), a),
        node.lands(navigate(node.located(), step), b),
    ensures
        a is Some <==> b is Some,
        a is Some ==> same_construct(a->0@, b->0@) && a->0@ == b->0@,
{
}

/// Handles with the same snapshot on the same tree and text are found again
/// at the same place, so one navigation step from each lands on equal
/// handles; by induction, equal navigation paths from one handle give equal
/// handles.
pub proof fn equal_handles_navigate_alike(a: &Node, b: &Node, step: Step, ra: Option<Node>, rb: Option<Node>)
    requires
        a@ == b@,
        a.shares_tree(b),
        a.lands(navigate(a.located(), step), ra),
        b.lands(navigate(b.located(), step), rb),
    ensures
        ra is Some <==> rb is Some,
        ra is Some ==> ra->0@ == rb->0@ && ra->0.shares_tree(&rb->0) && same_construct(ra->0@, rb->0@),
{
}

} // verus!
