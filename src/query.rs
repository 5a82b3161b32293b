//! Compiled queries and their results as owned values.
use vstd::prelude::*;
use vstd::string::StringExecFns;
use vstd::string::StringSliceAdditionalSpecFns;
use std::sync::Arc;
use tree_sitter::Node as EngineNode;
use tree_sitter::Query as EngineQuery;
use tree_sitter::QueryCursor as EngineQueryCursor;
use crate::engine::{run_matches, run_captures, query_compiles, pattern_count_of, capture_names_of, matches_of, captures_of};
use crate::error::{Error, ErrorKind};
use crate::language::Language;
use crate::node::{Node, snapshot_of};

verus! {

/// The name of capture `index` under the table `names`; empty when the
/// index is outside the table.
pub open spec fn capture_name_at(names: Seq<Seq<char>>, index: int) -> Seq<char> {
    if 0 <= index < names.len() {
        names[index]
    } else {
        Seq::empty()
    }
}

/// The prefix of a pattern compilation failure's message.
pub open spec fn syntax_error_prefix() -> Seq<char> {
    "Query syntax error: "@
}

/// `r` is the engine's captures `found` of one match, named through
/// `query`'s table and recorded as handles on `origin`'s tree.
pub open spec fn captures_land(query: &Query, origin: &Node, found: Seq<(u32, EngineNode<'_>)>, r: Seq<QueryCapture>) -> bool {
    &&& r.len() == found.len()
    &&& forall|k: int| 0 <= k < r.len() ==> {
        &&& (#[trigger] r[k]).spec_name() == capture_name_at(query.spec_capture_names(), found[k].0 as int)
        &&& r[k].spec_node()@ == snapshot_of(found[k].1, origin@.source)
        &&& r[k].spec_node().shares_tree(origin)
    }
}

/// `r` is the engine's matches `found`, in order, each with its pattern
/// index and its captures named and recorded as by `captures_land`.
pub open spec fn matches_land(query: &Query, origin: &Node, found: Seq<(usize, Seq<(u32, EngineNode<'_>)>)>, r: Seq<QueryMatch>) -> bool {
    &&& r.len() == found.len()
    &&& forall|i: int| 0 <= i < r.len() ==> {
        &&& (#[trigger] r[i]).spec_pattern_index() == found[i].0
        &&& captures_land(query, origin, found[i].1, r[i].spec_captures())
    }
}

/// `r` is the engine's capture stream `found`, in order: each entry's
/// reported capture, named and recorded as by `captures_land`.
pub open spec fn stream_lands(query: &Query, origin: &Node, found: Seq<(Seq<(u32, EngineNode<'_>)>, usize)>, r: Seq<QueryCapture>) -> bool {
    &&& r.len() == found.len()
    &&& forall|i: int| 0 <= i < r.len() ==> {
        let c = (#[trigger] found[i]).0[found[i].1 as int];
        &&& r[i].spec_name() == capture_name_at(query.spec_capture_names(), c.0 as int)
        &&& r[i].spec_node()@ == snapshot_of(c.1, origin@.source)
        &&& r[i].spec_node().shares_tree(origin)
    }
}

/// Every entry of the engine's capture stream points inside its match.
pub open spec fn positions_in_range(found: Seq<(Seq<(u32, EngineNode<'_>)>, usize)>) -> bool {
    forall|i: int| 0 <= i < found.len() ==> (#[trigger] found[i]).1 < found[i].0.len()
}

/// A pattern program compiled against one grammar, with its capture names.
pub struct Query {
    inner: EngineQuery,
    capture_names: Vec<String>,
}

impl Query {
    /// The capture names, in the order of their indices.
    pub closed spec fn spec_capture_names(&self) -> Seq<Seq<char>> {
        self.capture_names@.map_values(|s: String| s@)
    }

    /// The engine's compiled program.
    pub closed spec fn engine_query(&self) -> EngineQuery {
        self.inner
    }

    /// Compiles `source` against `language`; a malformed pattern fails with
    /// `SyntaxError`, carrying the engine's diagnostic after a fixed prefix.
    pub fn new(language: &Language, source: String) -> (r: Result<Query, Error>)
        ensures
            r is Ok <==> query_compiles(language.spec_grammar(), source@),
            r is Ok ==> r->Ok_0.spec_capture_names() == capture_names_of(r->Ok_0.engine_query()),
            r is Err ==> r->Err_0.kind == ErrorKind::SyntaxError
                && r->Err_0.message@.len() >= syntax_error_prefix().len()
                && r->Err_0.message@.subrange(0, syntax_error_prefix().len() as int) == syntax_error_prefix(),
    {
        let query = match EngineQuery::new(language.engine_language(), source.as_str()) {
            Ok(q) => q,
            Err(e) => {
                let mut message = String::from_str("Query syntax error: ");
                message.append(e.to_string().as_str());
                proof { reveal_strlit("Query syntax error: "); }
                assert(message@.subrange(0, syntax_error_prefix().len() as int) =~= syntax_error_prefix());
                return Err(Error::new(ErrorKind::SyntaxError, message));
            },
        };
        let reported = query.capture_names();
        let mut capture_names: Vec<String> = Vec::new();
        let mut i: usize = 0;
        while i < reported.len()
            invariant
                i <= reported@.len(),
                capture_names@.len() == i,
                forall|k: int| 0 <= k < i ==> (#[trigger] capture_names@[k])@ == reported@[k]@,
            decreases reported@.len() - i,
        {
            capture_names.push(String::from_str(reported[i]));
            i = i + 1;
        }
        let r = Query { inner: query, capture_names };
        assert(r.spec_capture_names() =~= capture_names_of(r.inner)) by {
            assert(reported@.map_values(|s: &str| s@) == capture_names_of(r.inner));
            assert forall|k: int| 0 <= k < r.capture_names@.len() implies
                r.spec_capture_names()[k] == reported@.map_values(|s: &str| s@)[k] by {}
        }
        Ok(r)
    }

    /// The capture names, in the order of their indices.
    pub fn capture_names(&self) -> (r: Vec<String>)
        ensures
            r@.map_values(|s: String| s@) == self.spec_capture_names(),
    {
        let mut out: Vec<String> = Vec::new();
        let mut i: usize = 0;
        while i < self.capture_names.len()
            invariant
                i <= self.capture_names@.len(),
                out@.len() == i,
                forall|k: int| 0 <= k < i ==> (#[trigger] out@[k])@ == self.capture_names@[k]@,
            decreases self.capture_names@.len() - i,
        {
            out.push(self.capture_names[i].clone());
            i = i + 1;
        }
        assert(out@.map_values(|s: String| s@) =~= self.spec_capture_names());
        out
    }

    /// The number of patterns in the program.
    pub fn pattern_count(&self) -> (r: usize)
        ensures
            r == pattern_count_of(self.engine_query()),
    {
        self.inner.pattern_count()
    }

    /// The name of capture `index`; empty when the index is outside the table.
    pub fn capture_name(&self, index: u32) -> (r: String)
        ensures
            r@ == capture_name_at(self.spec_capture_names(), index as int),
    {
        if (index as usize) < self.capture_names.len() {
            self.capture_names[index as usize].clone()
        } else {
            let r = String::new();
            assert(r@ =~= Seq::<char>::empty());
            r
        }
    }
}

/// One named capture of a match.
pub struct QueryCapture {
    name: String,
    node: Node,
}

impl QueryCapture {
    pub closed spec fn spec_name(&self) -> Seq<char> {
        self.name@
    }

    pub closed spec fn spec_node(&self) -> Node {
        self.node
    }

    pub fn name(&self) -> (r: String)
        ensures
            r@ == self.spec_name(),
    {
        self.name.clone()
    }

    pub fn node(&self) -> (r: Node)
        ensures
            r@ == self.spec_node()@,
            r.shares_tree(&self.spec_node()),
    {
        self.node.duplicate()
    }

    /// Another capture with the same name and node.
    pub fn duplicate(&self) -> (r: QueryCapture)
        ensures
            r.spec_name() == self.spec_name(),
            r.spec_node()@ == self.spec_node()@,
            r.spec_node().shares_tree(&self.spec_node()),
    {
        QueryCapture { name: self.name.clone(), node: self.node.duplicate() }
    }
}

/// One satisfied pattern with its captures in order.
pub struct QueryMatch {
    pattern_index: usize,
    captures: Vec<QueryCapture>,
}

impl QueryMatch {
    pub closed spec fn spec_pattern_index(&self) -> usize {
        self.pattern_index
    }

    pub closed spec fn spec_captures(&self) -> Seq<QueryCapture> {
        self.captures@
    }

    pub fn pattern_index(&self) -> (r: usize)
        ensures
            r == self.spec_pattern_index(),
    {
        self.pattern_index
    }

    /// The captures, in order.
    pub fn captures(&self) -> (r: Vec<QueryCapture>)
        ensures
            r@.len() == self.spec_captures().len(),
            forall|k: int| 0 <= k < r@.len() ==> (#[trigger] r@[k]).spec_name()
                == self.spec_captures()[k].spec_name() && r@[k].spec_node()@
                == self.spec_captures()[k].spec_node()@,
    {
        let mut out: Vec<QueryCapture> = Vec::new();
        let mut i: usize = 0;
        while i < self.captures.len()
            invariant
                i <= self.captures@.len(),
                out@.len() == i,
                forall|k: int| 0 <= k < i ==> (#[trigger] out@[k]).spec_name()
                    == self.captures@[k].spec_name() && out@[k].spec_node()@
                    == self.captures@[k].spec_node()@,
            decreases self.captures@.len() - i,
        {
            out.push(self.captures[i].duplicate());
            i = i + 1;
        }
        out
    }
}

/// Names the engine's captures of one match and records their nodes as
/// handles on `origin`'s tree.
pub fn captures_of_match(query: &Query, origin: &Node, found: &Vec<(u32, EngineNode<'_>)>) -> (r: Vec<QueryCapture>)
    ensures
        captures_land(query, origin, found@, r@),
{
    let mut out: Vec<QueryCapture> = Vec::new();
    let mut i: usize = 0;
    while i < found.len()
        invariant
            i <= found@.len(),
            captures_land(query, origin, found@.subrange(0, i as int), out@),
        decreases found@.len() - i,
    {
        let (index, ts_node) = found[i];
        let node = origin.handle_for(ts_node);
        out.push(QueryCapture { name: query.capture_name(index), node });
        i = i + 1;
    }
    assert(found@.subrange(0, found@.len() as int) =~= found@);
    out
}

/// Turns the engine's matches into owned matches, in the same order: each
/// keeps its pattern index, and each capture index becomes its name.
pub fn matches_from(query: &Query, origin: &Node, found: &Vec<(usize, Vec<(u32, EngineNode<'_>)>)>) -> (r: Vec<QueryMatch>)
    ensures
        matches_land(query, origin, found@.map_values(|m: (usize, Vec<(u32, EngineNode<'_>)>)| (m.0, m.1@)), r@),
{
    let ghost plain = found@.map_values(|m: (usize, Vec<(u32, EngineNode<'_>)>)| (m.0, m.1@));
    let mut out: Vec<QueryMatch> = Vec::new();
    let mut i: usize = 0;
    while i < found.len()
        invariant
            i <= found@.len(),
            plain == found@.map_values(|m: (usize, Vec<(u32, EngineNode<'_>)>)| (m.0, m.1@)),
            matches_land(query, origin, plain.subrange(0, i as int), out@),
        decreases found@.len() - i,
    {
        let captures = captures_of_match(query, origin, &found[i].1);
        out.push(QueryMatch { pattern_index: found[i].0, captures });
        i = i + 1;
    }
    assert(plain.subrange(0, found@.len() as int) =~= plain);
    out
}

/// Turns the engine's capture stream into owned captures, in the same order.
/// Each entry is the captures of a match and the position of the reported
/// one among them; an entry whose position is outside its match gives nothing.
pub fn captures_from(query: &Query, origin: &Node, found: &Vec<(Vec<(u32, EngineNode<'_>)>, usize)>) -> (r: Vec<QueryCapture>)
    ensures
        r@.len() <= found@.len(),
        forall|k: int| 0 <= k < r@.len() ==> (#[trigger] r@[k]).spec_node().shares_tree(origin),
        positions_in_range(found@.map_values(|m: (Vec<(u32, EngineNode<'_>)>, usize)| (m.0@, m.1)))
            ==> stream_lands(query, origin, found@.map_values(|m: (Vec<(u32, EngineNode<'_>)>, usize)| (m.0@, m.1)), r@),
{
    let ghost plain = found@.map_values(|m: (Vec<(u32, EngineNode<'_>)>, usize)| (m.0@, m.1));
    let mut out: Vec<QueryCapture> = Vec::new();
    let mut i: usize = 0;
    let ghost mut all_in_range = true;
    while i < found.len()
        invariant
            i <= found@.len(),
            plain == found@.map_values(|m: (Vec<(u32, EngineNode<'_>)>, usize)| (m.0@, m.1)),
            out@.len() <= i,
            forall|k: int| 0 <= k < out@.len() ==> (#[trigger] out@[k]).spec_node().shares_tree(origin),
            all_in_range == positions_in_range(plain.subrange(0, i as int)),
            all_in_range ==> stream_lands(query, origin, plain.subrange(0, i as int), out@),
        decreases found@.len() - i,
    {
        let position = found[i].1;
        if position < found[i].0.len() {
            let (index, ts_node) = found[i].0[position];
            let node = origin.handle_for(ts_node);
            out.push(QueryCapture { name: query.capture_name(index), node });
        } else {
            proof { all_in_range = false; }
        }
        proof {
            let next = plain.subrange(0, i + 1);
            if positions_in_range(next) {
                assert(positions_in_range(plain.subrange(0, i as int))) by {
                    assert forall|j: int| 0 <= j < i implies (#[trigger] plain.subrange(0, i as int)[j]).1
                        < plain.subrange(0, i as int)[j].0.len() by {
                        assert(plain.subrange(0, i as int)[j] == next[j]);
                    }
                }
                assert(next[i as int] == plain[i as int]);
            } else if all_in_range {
                assert(!(position < found@[i as int].0@.len())) by {
                    assert forall|j: int| 0 <= j < i + 1 implies (#[trigger] next[j]).1 < next[j].0.len() by {
                        if j < i {
                            assert(next[j] == plain.subrange(0, i as int)[j]);
                        } else {
                            if position < found@[i as int].0@.len() {
                                assert(next[j] == plain[i as int]);
                            }
                        }
                    }
                }
            }
        }
        i = i + 1;
    }
    assert(plain.subrange(0, found@.len() as int) =~= plain);
    out
}

/// Reusable execution state for running queries.
pub struct QueryCursor {
    inner: EngineQueryCursor,
}

impl QueryCursor {
    pub fn new() -> QueryCursor {
        QueryCursor { inner: EngineQueryCursor::new() }
    }

    /// Every match of `query` at or under `located`, the engine node at
    /// `node`'s range, with text predicates reading `source`, drained in the engine's order.
    /// A missed relocation (`located` is none) gives no matches.
    pub fn matches_at(&mut self, query: &Query, node: &Node, located: Option<EngineNode<'_>>, source: &str) -> (r: Vec<QueryMatch>)
        ensures
            located is None ==> r@.len() == 0,
            located is Some ==> matches_land(query, node,
                matches_of(query.engine_query(), located->0, source.spec_bytes()), r@),
    {
        match located {
            Some(ts_node) => {
                let found = run_matches(&mut self.inner, &query.inner, ts_node, source);
                matches_from(query, node, &found)
            },
            None => Vec::new(),
        }
    }

    /// Every capture of `query` at or under `located`, the engine node at
    /// `node`'s range, with text predicates reading `source`, drained in the engine's order
    /// across matches. A missed relocation (`located` is none) gives none.
    pub fn captures_at(&mut self, query: &Query, node: &Node, located: Option<EngineNode<'_>>, source: &str) -> (r: Vec<QueryCapture>)
        ensures
            located is None ==> r@.len() == 0,
            forall|k: int| 0 <= k < r@.len() ==> (#[trigger] r@[k]).spec_node().shares_tree(node),
            located is Some && positions_in_range(captures_of(query.engine_query(), located->0,
                source.spec_bytes())) ==> stream_lands(query, node,
                captures_of(query.engine_query(), located->0, source.spec_bytes()), r@),
    {
        match located {
            Some(ts_node) => {
                let found = run_captures(&mut self.inner, &query.inner, ts_node, source);
                captures_from(query, node, &found)
            },
            None => Vec::new(),
        }
    }

    /// Every match of `query` at or under `node`, with text predicates
    /// reading `source`, drained in the engine's order. When `node` is no longer
    /// found in its tree there are none.
    pub fn matches(&mut self, query: &Query, node: &Node, source: String) -> (r: Vec<QueryMatch>)
        ensures
            node.located() is None ==> r@.len() == 0,
            node.located() is Some ==> matches_land(query, node,
                matches_of(query.engine_query(), node.located()->0, vstd::utf8::encode_utf8(source@)), r@),
    {
        self.matches_at(query, node, node.get_ts_node_pub(), source.as_str())
    }

    /// Every capture of `query` at or under `node`, with text predicates
    /// reading `source`, drained in the engine's order across matches. When
    /// `node` is no longer found in its tree there are none.
    pub fn captures(&mut self, query: &Query, node: &Node, source: String) -> (r: Vec<QueryCapture>)
        ensures
            node.located() is None ==> r@.len() == 0,
            forall|k: int| 0 <= k < r@.len() ==> (#[trigger] r@[k]).spec_node().shares_tree(node),
            node.located() is Some && positions_in_range(captures_of(query.engine_query(), node.located()->0,
                vstd::utf8::encode_utf8(source@))) ==> stream_lands(query, node,
                captures_of(query.engine_query(), node.located()->0, vstd::utf8::encode_utf8(source@)), r@),
    {
        self.captures_at(query, node, node.get_ts_node_pub(), source.as_str())
    }
}

} // verus!
