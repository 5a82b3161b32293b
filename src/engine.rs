//! The parsing engine's types and the calls made into it. Every item here is
//! taken on trust from the tree-sitter, streaming-iterator and libloading
//! crates.
use vstd::prelude::*;
use vstd::string::StringSliceAdditionalSpecFns;
use tree_sitter::Point as EnginePoint;
use tree_sitter::Language as EngineLanguage;
use tree_sitter::Tree as EngineTree;
use tree_sitter::Node as EngineNode;
use tree_sitter::Parser as EngineParser;
use tree_sitter::Query as EngineQuery;
use tree_sitter::QueryCursor as EngineQueryCursor;
use tree_sitter::QueryError as EngineQueryError;
use tree_sitter::LanguageError as EngineLanguageError;
use libloading::Library as LoadedModule;
use streaming_iterator::StreamingIterator;

verus! {

/// A row and column as the engine reports them; its fields are plain integers.
#[verifier::external_type_specification]
pub struct ExEnginePoint(EnginePoint);

/// A grammar handle of the engine.
#[verifier::external_type_specification]
#[verifier::external_body]
pub struct ExEngineLanguage(EngineLanguage);

/// A parse result of the engine.
#[verifier::external_type_specification]
#[verifier::external_body]
pub struct ExEngineTree(EngineTree);

/// A borrowed view of one node of an engine tree.
#[verifier::external_type_specification]
#[verifier::external_body]
pub struct ExEngineNode<'tree>(EngineNode<'tree>);

/// The engine's parser state.
#[verifier::external_type_specification]
#[verifier::external_body]
pub struct ExEngineParser(EngineParser);

/// A compiled pattern program of the engine.
#[verifier::external_type_specification]
#[verifier::external_body]
pub struct ExEngineQuery(EngineQuery);

/// The engine's query execution state.
#[verifier::external_type_specification]
#[verifier::external_body]
pub struct ExEngineQueryCursor(EngineQueryCursor);

/// The engine's diagnostic for a malformed pattern.
#[verifier::external_type_specification]
#[verifier::external_body]
pub struct ExEngineQueryError(EngineQueryError);

/// A loaded grammar module, held to keep it resident.
#[verifier::external_type_specification]
#[verifier::external_body]
pub struct ExLoadedModule(LoadedModule);

/// The ABI version that a grammar reports.
pub uninterp spec fn abi_of(l: EngineLanguage) -> usize;

/// The number of node kinds that a grammar reports.
pub uninterp spec fn kind_count_of(l: EngineLanguage) -> usize;

pub assume_specification[ EngineLanguage::abi_version ](l: &EngineLanguage) -> (r: usize)
    ensures
        r == abi_of(*l),
;

pub assume_specification[ EngineLanguage::node_kind_count ](l: &EngineLanguage) -> (r: usize)
    ensures
        r == kind_count_of(*l),
;

/// `ts_language_copy` hands back the same grammar pointer.
pub assume_specification[ <EngineLanguage as Clone>::clone ](l: &EngineLanguage) -> (r: EngineLanguage)
    ensures
        r == *l,
;

pub uninterp spec fn node_start_of(n: EngineNode<'_>) -> usize;

pub assume_specification<'tree>[ EngineNode::<'tree>::start_byte ](n: &EngineNode<'tree>) -> (r: usize)
    ensures
        r == node_start_of(*n),
;

pub uninterp spec fn node_end_of(n: EngineNode<'_>) -> usize;

pub assume_specification<'tree>[ EngineNode::<'tree>::end_byte ](n: &EngineNode<'tree>) -> (r: usize)
    ensures
        r == node_end_of(*n),
;

} // verus!

verus! {

pub uninterp spec fn node_kind_of(n: EngineNode<'_>) -> Seq<char>;

pub assume_specification<'tree>[ EngineNode::<'tree>::kind ](n: &EngineNode<'tree>) -> (r: &'static str)
    ensures
        r@ == node_kind_of(*n),
;

pub uninterp spec fn node_kind_id_of(n: EngineNode<'_>) -> u16;

pub assume_specification<'tree>[ EngineNode::<'tree>::kind_id ](n: &EngineNode<'tree>) -> (r: u16)
    ensures
        r == node_kind_id_of(*n),
;

pub uninterp spec fn node_named_of(n: EngineNode<'_>) -> bool;

pub assume_specification<'tree>[ EngineNode::<'tree>::is_named ](n: &EngineNode<'tree>) -> (r: bool)
    ensures
        r == node_named_of(*n),
;

pub uninterp spec fn node_missing_of(n: EngineNode<'_>) -> bool;

pub assume_specification<'tree>[ EngineNode::<'tree>::is_missing ](n: &EngineNode<'tree>) -> (r: bool)
    ensures
        r == node_missing_of(*n),
;

pub uninterp spec fn node_extra_of(n: EngineNode<'_>) -> bool;

pub assume_specification<'tree>[ EngineNode::<'tree>::is_extra ](n: &EngineNode<'tree>) -> (r: bool)
    ensures
        r == node_extra_of(*n),
;

pub uninterp spec fn node_error_of(n: EngineNode<'_>) -> bool;

pub assume_specification<'tree>[ EngineNode::<'tree>::is_error ](n: &EngineNode<'tree>) -> (r: bool)
    ensures
        r == node_error_of(*n),
;

pub uninterp spec fn node_has_error_of(n: EngineNode<'_>) -> bool;

pub assume_specification<'tree>[ EngineNode::<'tree>::has_error ](n: &EngineNode<'tree>) -> (r: bool)
    ensures
        r == node_has_error_of(*n),
;

pub uninterp spec fn node_changed_of(n: EngineNode<'_>) -> bool;

pub assume_specification<'tree>[ EngineNode::<'tree>::has_changes ](n: &EngineNode<'tree>) -> (r: bool)
    ensures
        r == node_changed_of(*n),
;

pub uninterp spec fn node_start_point_of(n: EngineNode<'_>) -> EnginePoint;

pub assume_specification<'tree>[ EngineNode::<'tree>::start_position ](n: &EngineNode<'tree>) -> (r: EnginePoint)
    ensures
        r == node_start_point_of(*n),
;

pub uninterp spec fn node_end_point_of(n: EngineNode<'_>) -> EnginePoint;

pub assume_specification<'tree>[ EngineNode::<'tree>::end_position ](n: &EngineNode<'tree>) -> (r: EnginePoint)
    ensures
        r == node_end_point_of(*n),
;

pub uninterp spec fn node_child_count_of(n: EngineNode<'_>) -> usize;

pub assume_specification<'tree>[ EngineNode::<'tree>::child_count ](n: &EngineNode<'tree>) -> (r: usize)
    ensures
        r == node_child_count_of(*n),
;

pub uninterp spec fn node_named_child_count_of(n: EngineNode<'_>) -> usize;

pub assume_specification<'tree>[ EngineNode::<'tree>::named_child_count ](n: &EngineNode<'tree>) -> (r: usize)
    ensures
        r == node_named_child_count_of(*n),
;

pub uninterp spec fn node_sexp_of(n: EngineNode<'_>) -> Seq<char>;

pub assume_specification<'tree>[ EngineNode::<'tree>::to_sexp ](n: &EngineNode<'tree>) -> (r: String)
    ensures
        r@ == node_sexp_of(*n),
;

pub uninterp spec fn parent_of(n: EngineNode<'_>) -> Option<EngineNode<'_>>;

pub assume_specification<'tree>[ EngineNode::<'tree>::parent ](n: &EngineNode<'tree>) -> (r: Option<EngineNode<'tree>>)
    ensures
        r == parent_of(*n),
;

pub uninterp spec fn child_of(n: EngineNode<'_>, i: usize) -> Option<EngineNode<'_>>;

pub assume_specification<'tree>[ EngineNode::<'tree>::child ](n: &EngineNode<'tree>, i: usize) -> (r: Option<EngineNode<'tree>>)
    ensures
        r == child_of(*n, i),
;

pub uninterp spec fn named_child_of(n: EngineNode<'_>, i: usize) -> Option<EngineNode<'_>>;

pub assume_specification<'tree>[ EngineNode::<'tree>::named_child ](n: &EngineNode<'tree>, i: usize) -> (r: Option<EngineNode<'tree>>)
    ensures
        r == named_child_of(*n, i),
;

pub uninterp spec fn next_sibling_of(n: EngineNode<'_>) -> Option<EngineNode<'_>>;

pub assume_specification<'tree>[ EngineNode::<'tree>::next_sibling ](n: &EngineNode<'tree>) -> (r: Option<EngineNode<'tree>>)
    ensures
        r == next_sibling_of(*n),
;

pub uninterp spec fn prev_sibling_of(n: EngineNode<'_>) -> Option<EngineNode<'_>>;

pub assume_specification<'tree>[ EngineNode::<'tree>::prev_sibling ](n: &EngineNode<'tree>) -> (r: Option<EngineNode<'tree>>)
    ensures
        r == prev_sibling_of(*n),
;

pub uninterp spec fn next_named_sibling_of(n: EngineNode<'_>) -> Option<EngineNode<'_>>;

pub assume_specification<'tree>[ EngineNode::<'tree>::next_named_sibling ](n: &EngineNode<'tree>) -> (r: Option<EngineNode<'tree>>)
    ensures
        r == next_named_sibling_of(*n),
;

pub uninterp spec fn prev_named_sibling_of(n: EngineNode<'_>) -> Option<EngineNode<'_>>;

pub assume_specification<'tree>[ EngineNode::<'tree>::prev_named_sibling ](n: &EngineNode<'tree>) -> (r: Option<EngineNode<'tree>>)
    ensures
        r == prev_named_sibling_of(*n),
;

pub uninterp spec fn descendant_of(n: EngineNode<'_>, start: usize, end: usize) -> Option<EngineNode<'_>>;

pub assume_specification<'tree>[ EngineNode::<'tree>::descendant_for_byte_range ](n: &EngineNode<'tree>, start: usize, end: usize) -> (r: Option<EngineNode<'tree>>)
    ensures
        r == descendant_of(*n, start, end),
;

pub uninterp spec fn root_of(t: &EngineTree) -> EngineNode<'_>;

pub assume_specification[ EngineTree::root_node ](t: &EngineTree) -> (r: EngineNode<'_>)
    ensures
        r == root_of(t),
;

/// The child stored under a field name.
pub uninterp spec fn field_child_of(n: EngineNode<'_>, field: Seq<char>) -> Option<EngineNode<'_>>;

/// Relies on tree_sitter::Node::child_by_field_name: the child stored under a
/// field name, if the node has one.
#[verifier::external_body]
pub(crate) fn field_child<'tree>(n: &EngineNode<'tree>, field: &str) -> (r: Option<EngineNode<'tree>>)
    ensures
        r == field_child_of(*n, field@),
{
    n.child_by_field_name(field)
}


} // verus!

verus! {

/// The engine's refusal of a grammar, such as one of an unsupported ABI version.
#[verifier::external_type_specification]
#[verifier::external_body]
pub struct ExEngineLanguageError(EngineLanguageError);

/// The grammar assigned to a parser, if any.
pub uninterp spec fn assigned_language(p: EngineParser) -> Option<EngineLanguage>;

/// The grammar that a tree was parsed with.
pub uninterp spec fn tree_grammar_of(t: &EngineTree) -> EngineLanguage;

pub assume_specification[ EngineParser::new ]() -> (r: EngineParser)
    ensures
        assigned_language(r) is None,
;

/// Assigns the grammar exactly when its ABI version lies in 13..=15
/// (`MIN_COMPATIBLE_LANGUAGE_VERSION..=LANGUAGE_VERSION`); otherwise the
/// parser is left as it was.
pub assume_specification[ EngineParser::set_language ](p: &mut EngineParser, language: &EngineLanguage) -> (r: Result<(), EngineLanguageError>)
    ensures
        r is Ok <==> 13 <= abi_of(*language) <= 15,
        r is Ok ==> assigned_language(*final(p)) == Some(*language),
        r is Err ==> *final(p) == *old(p),
;

pub assume_specification[ EngineParser::reset ](p: &mut EngineParser)
    ensures
        assigned_language(*final(p)) == assigned_language(*old(p)),
;

/// The derived equality compares the grammar pointers.
pub assume_specification[ <EngineLanguage as PartialEq>::eq ](a: &EngineLanguage, b: &EngineLanguage) -> (r: bool)
    ensures
        r == (*a == *b),
;

/// Relies on tree_sitter::Tree::language: the grammar the tree was parsed
/// with, as a handle (`ts_language_copy` keeps the pointer).
#[verifier::external_body]
pub(crate) fn tree_grammar(t: &EngineTree) -> (r: EngineLanguage)
    ensures
        r == tree_grammar_of(t),
{
    (*t.language()).clone()
}

/// Relies on tree_sitter::Parser::parse: parses the whole text at once,
/// with `previous`, a parse made with the same grammar, as the previous parse
/// of the document. It gives a tree whenever the parser has a grammar, as no
/// timeout or cancellation flag is ever set on it.
#[verifier::external_body]
pub(crate) fn parse_text(parser: &mut EngineParser, source: &str, previous: Option<&EngineTree>) -> (r: Option<EngineTree>)
    requires
        previous is Some ==> assigned_language(*old(parser)) == Some(tree_grammar_of(previous->0)),
    ensures
        assigned_language(*old(parser)) is Some ==> r is Some,
        assigned_language(*final(parser)) == assigned_language(*old(parser)),
{
    parser.parse(source, previous)
}

/// Relies on tree_sitter::Parser::parse_with_options: parses text fed in
/// windows by `source_window`, with `previous`, a parse made with the same
/// grammar, as the previous parse of the document, and asks
/// `budget_exhausted` at each progress report whether to stop; a stopped
/// parse gives no tree.
#[verifier::external_body]
pub(crate) fn parse_text_within(parser: &mut EngineParser, source: &str, previous: Option<&EngineTree>, timeout_micros: u64) -> (r: Option<EngineTree>)
    requires
        previous is Some ==> assigned_language(*old(parser)) == Some(tree_grammar_of(previous->0)),
    ensures
        assigned_language(*final(parser)) == assigned_language(*old(parser)),
{
    let start = std::time::Instant::now();
    let bytes = source.as_bytes();
    let mut progress = |_: &tree_sitter::ParseState| crate::parser::budget_exhausted(start.elapsed().as_micros(), timeout_micros);
    let options = tree_sitter::ParseOptions::new().progress_callback(&mut progress);
    let mut read = |offset: usize, _: EnginePoint| crate::parser::source_window(bytes, offset);
    parser.parse_with_options(&mut read, previous, Some(options))
}

} // verus!

verus! {

/// Whether a pattern text compiles against a grammar.
pub uninterp spec fn query_compiles(l: EngineLanguage, source: Seq<char>) -> bool;

/// The number of patterns in a compiled query.
pub uninterp spec fn pattern_count_of(q: EngineQuery) -> usize;

/// The capture names of a compiled query, in the order of their indices.
pub uninterp spec fn capture_names_of(q: EngineQuery) -> Seq<Seq<char>>;

/// The engine's matches of a query under a node over a text: each as its
/// pattern index and its captures (capture index and node), in order.
pub uninterp spec fn matches_of(q: EngineQuery, n: EngineNode<'_>, text: Seq<u8>) -> Seq<(usize, Seq<(u32, EngineNode<'_>)>)>;

/// The engine's capture stream of a query under a node over a text: each as
/// the captures of its match and the position of the reported one.
pub uninterp spec fn captures_of(q: EngineQuery, n: EngineNode<'_>, text: Seq<u8>) -> Seq<(Seq<(u32, EngineNode<'_>)>, usize)>;

pub assume_specification[ EngineQuery::new ](language: &EngineLanguage, source: &str) -> (r: Result<EngineQuery, EngineQueryError>)
    ensures
        r is Ok <==> query_compiles(*language, source@),
;

pub assume_specification[ EngineQuery::pattern_count ](q: &EngineQuery) -> (r: usize)
    ensures
        r == pattern_count_of(*q),
;

pub assume_specification[ EngineQuery::capture_names ](q: &EngineQuery) -> (r: &[&str])
    ensures
        r@.map_values(|s: &str| s@) == capture_names_of(*q),
;

pub assume_specification[ EngineQueryCursor::new ]() -> EngineQueryCursor;

/// Relies on tree_sitter::QueryCursor::matches, drained through
/// streaming_iterator's StreamingIterator::next. Text predicates read node
/// text through `byte_window`, which never slices out of bounds. Each match
/// under `node`, in
/// the engine's order, as its pattern index and its captures (capture index
/// and node).
#[verifier::external_body]
pub(crate) fn run_matches<'tree>(cursor: &mut EngineQueryCursor, query: &EngineQuery, node: EngineNode<'tree>, source: &str) -> (r: Vec<(usize, Vec<(u32, EngineNode<'tree>)>)>)
    ensures
        r@.map_values(|m: (usize, Vec<(u32, EngineNode<'tree>)>)| (m.0, m.1@)) == matches_of(*query, node, source.spec_bytes()),
{
    let mut found = Vec::new();
    let bytes = source.as_bytes();
    let text = |n: EngineNode<'_>| std::iter::once(crate::node::byte_window(bytes, n.start_byte(), n.end_byte()));
    let mut stream = cursor.matches(query, node, text);
    while let Some(m) = stream.next() {
        found.push((m.pattern_index, m.captures.iter().map(|c| (c.index, c.node)).collect()));
    }
    found
}

/// Relies on tree_sitter::QueryCursor::captures, drained through
/// streaming_iterator's StreamingIterator::next. Text predicates read node
/// text through `byte_window`, which never slices out of bounds. Each capture
/// under `node`, in
/// the engine's order, as the captures of its match (capture index and node)
/// and its position among them.
#[verifier::external_body]
pub(crate) fn run_captures<'tree>(cursor: &mut EngineQueryCursor, query: &EngineQuery, node: EngineNode<'tree>, source: &str) -> (r: Vec<(Vec<(u32, EngineNode<'tree>)>, usize)>)
    ensures
        r@.map_values(|m: (Vec<(u32, EngineNode<'tree>)>, usize)| (m.0@, m.1)) == captures_of(*query, node, source.spec_bytes()),
{
    let mut found = Vec::new();
    let bytes = source.as_bytes();
    let text = |n: EngineNode<'_>| std::iter::once(crate::node::byte_window(bytes, n.start_byte(), n.end_byte()));
    let mut stream = cursor.captures(query, node, text);
    while let Some((m, position)) = stream.next() {
        found.push((m.captures.iter().map(|c| (c.index, c.node)).collect(), *position));
    }
    found
}

} // verus!
