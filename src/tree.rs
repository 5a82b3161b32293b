//! Parse results together with the exact text they were parsed from.
use vstd::prelude::*;
use std::sync::Arc;
use tree_sitter::Tree as EngineTree;
use crate::error::{Error, ErrorKind};
use crate::language::{Language, LanguageRegistry, not_registered_message};
use crate::node::{Node, span_bytes, snapshot_of};
use crate::engine::root_of;

verus! {

/// A parse result, its source text and the name of the grammar it used.
pub struct Tree {
    inner: Arc<EngineTree>,
    source: Arc<String>,
    language_name: String,
}

impl Tree {
    pub closed spec fn engine_tree(&self) -> Arc<EngineTree> {
        self.inner
    }

    pub closed spec fn source_handle(&self) -> Arc<String> {
        self.source
    }

    pub closed spec fn spec_source(&self) -> Seq<char> {
        (*self.source)@
    }

    pub closed spec fn spec_language_name(&self) -> Seq<char> {
        self.language_name@
    }

    /// The result `tree` of parsing `source` with the grammar registered as `language_name`.
    pub fn new(tree: EngineTree, source: String, language_name: String) -> (r: Tree)
        ensures
            *r.engine_tree() == tree,
            r.spec_source() == source@,
            r.spec_language_name() == language_name@,
    {
        Tree { inner: Arc::new(tree), source: Arc::new(source), language_name }
    }

    /// The engine's parse result.
    pub fn engine(&self) -> (r: &EngineTree)
        ensures
            *r == *self.engine_tree(),
    {
        &*self.inner
    }

    /// A handle on the top node of the tree.
    pub fn root_node(&self) -> (r: Node)
        ensures
            r.tree() == self.engine_tree(),
            r.source_handle() == self.source_handle(),
            r@ == snapshot_of(root_of(&*self.engine_tree()), self.spec_source()),
    {
        let ts_node = self.inner.root_node();
        Node::new(ts_node, Arc::clone(&self.source), Arc::clone(&self.inner))
    }

    /// A copy of the parsed text.
    pub fn source(&self) -> (r: String)
        ensures
            r@ == self.spec_source(),
    {
        (*self.source).clone()
    }

    /// The grammar registered under this tree's language name now.
    pub fn language(&self, registry: &LanguageRegistry) -> (r: Result<Language, Error>)
        requires
            registry.wf(),
        ensures
            r is Ok <==> registry@.contains_key(self.spec_language_name()),
            r is Ok ==> r->Ok_0.spec_name() == self.spec_language_name()
                && r->Ok_0.info() == registry@[self.spec_language_name()],
            r is Err ==> r->Err_0.kind == ErrorKind::NotFoundError
                && r->Err_0.message@ == not_registered_message(self.spec_language_name()),
    {
        registry.lookup(&self.language_name)
    }
}

/// A node reached from a tree's root shares the tree's text, so its text is
/// the tree's source between the node's start and end bytes.
pub proof fn node_text_is_source_span(tree: &Tree, node: &Node)
    requires
        node.source_handle() == tree.source_handle(),
    ensures
        span_bytes(node@.source, node@.start_byte as int, node@.end_byte as int)
            == span_bytes(tree.spec_source(), node@.start_byte as int, node@.end_byte as int),
{
    assert(node@.source == tree.spec_source()) by {
        Node::lemma_source_handle(node);
    }
}

} // verus!
