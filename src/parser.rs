//! The parse driver: a committed grammar, a time budget, and the engine state.
use vstd::prelude::*;
use vstd::string::StringExecFns;
use tree_sitter::Parser as EngineParser;
use tree_sitter::Tree as EngineTree;
use crate::engine::{parse_text, parse_text_within, assigned_language, tree_grammar};
use tree_sitter::Language as EngineLanguage;
use crate::error::{Error, ErrorKind};
use crate::language::{Language, LanguageRegistry, get_language_internal, not_registered_message};
use crate::tree::Tree;

verus! {

/// The message of a parse attempted before a grammar was set.
pub open spec fn no_language_message() -> Seq<char> {
    "No language set. Call `parser.language = 'name'` first."@
}

/// Whether a parse that began `elapsed_micros` ago has used up a budget of
/// `timeout_micros`.
pub fn budget_exhausted(elapsed_micros: u128, timeout_micros: u64) -> (r: bool)
    ensures
        r == (elapsed_micros >= timeout_micros),
{
    elapsed_micros >= timeout_micros as u128
}

/// The text from byte `offset` on; empty at or past the end.
pub fn source_window(bytes: &[u8], offset: usize) -> (r: &[u8])
    ensures
        offset < bytes@.len() ==> r@ == bytes@.subrange(offset as int, bytes@.len() as int),
        offset >= bytes@.len() ==> r@.len() == 0,
{
    if offset < bytes.len() {
        vstd::slice::slice_subrange(bytes, offset, bytes.len())
    } else {
        vstd::slice::slice_subrange(bytes, 0, 0)
    }
}

/// Drives parses with a committed grammar and an optional time budget.
pub struct Parser {
    inner: EngineParser,
    language_name: Option<String>,
    grammar: Option<EngineLanguage>,
    timeout_micros: u64,
}

impl Parser {
    /// The name of the committed grammar, if any.
    pub closed spec fn spec_language_name(&self) -> Option<Seq<char>> {
        match self.language_name {
            Some(n) => Some(n@),
            None => None,
        }
    }

    /// A committed name always comes with a grammar assigned to the engine.
    pub closed spec fn wf(&self) -> bool {
        &&& assigned_language(self.inner) == self.grammar
        &&& (self.language_name is Some <==> self.grammar is Some)
    }

    /// The time budget in microseconds; zero means none.
    pub closed spec fn spec_timeout_micros(&self) -> u64 {
        self.timeout_micros
    }

    /// A parser with no grammar and no time budget.
    pub fn new() -> (r: Parser)
        ensures
            r.wf(),
            r.spec_language_name() is None,
            r.spec_timeout_micros() == 0,
    {
        Parser { inner: EngineParser::new(), language_name: None, grammar: None, timeout_micros: 0 }
    }

    /// Commits the parser to the grammar registered under `name`. An unknown
    /// name fails with `NotFoundError`; a grammar whose ABI version lies
    /// outside 13..=15 is refused by the engine and fails with `LoadError`.
    /// On failure the committed grammar is kept.
    pub fn set_language(&mut self, registry: &LanguageRegistry, name: String) -> (r: Result<(), Error>)
        requires
            registry.wf(),
            old(self).wf(),
        ensures
            final(self).wf(),
            registry@.contains_key(name@) ==> (r is Ok <==> 13 <= registry@[name@].version <= 15),
            !registry@.contains_key(name@) ==> r is Err && r->Err_0.kind == ErrorKind::NotFoundError
                && r->Err_0.message@ == not_registered_message(name@),
            r is Err ==> final(self).spec_language_name() == old(self).spec_language_name(),
            r is Err && registry@.contains_key(name@) ==> r->Err_0.kind == ErrorKind::LoadError,
            r is Ok ==> registry@.contains_key(name@) && final(self).spec_language_name() == Some(name@),
            final(self).spec_timeout_micros() == old(self).spec_timeout_micros(),
    {
        let ts_language = match get_language_internal(registry, &name) {
            Ok(l) => l,
            Err(e) => return Err(e),
        };
        match self.inner.set_language(&ts_language) {
            Ok(()) => {
                self.language_name = Some(name);
                self.grammar = Some(ts_language);
                Ok(())
            },
            Err(e) => {
                let mut message = String::from_str("Failed to set language: ");
                message.append(e.to_string().as_str());
                Err(Error::new(ErrorKind::LoadError, message))
            },
        }
    }

    /// Commits the parser to the grammar that `language` is registered as,
    /// resolved again through the registry by its name.
    pub fn set_language_handle(&mut self, registry: &LanguageRegistry, language: &Language) -> (r: Result<(), Error>)
        requires
            registry.wf(),
            old(self).wf(),
        ensures
            final(self).wf(),
            registry@.contains_key(language.spec_name()) ==> (r is Ok <==> 13 <= registry@[language.spec_name()].version <= 15),
            !registry@.contains_key(language.spec_name()) ==> r is Err && r->Err_0.kind == ErrorKind::NotFoundError
                && r->Err_0.message@ == not_registered_message(language.spec_name()),
            r is Err ==> final(self).spec_language_name() == old(self).spec_language_name(),
            r is Err && registry@.contains_key(language.spec_name()) ==> r->Err_0.kind == ErrorKind::LoadError,
            r is Ok ==> final(self).spec_language_name() == Some(language.spec_name()),
            final(self).spec_timeout_micros() == old(self).spec_timeout_micros(),
    {
        self.set_language(registry, String::from_str(language.name()))
    }

    /// The grammar registered now under the committed name, if one is committed.
    pub fn language(&self, registry: &LanguageRegistry) -> (r: Result<Option<Language>, Error>)
        requires
            registry.wf(),
        ensures
            self.spec_language_name() is None ==> r == Ok::<Option<Language>, Error>(None),
            self.spec_language_name() is Some ==> match r {
                Ok(Some(l)) => registry@.contains_key(self.spec_language_name()->0)
                    && l.spec_name() == self.spec_language_name()->0
                    && l.info() == registry@[self.spec_language_name()->0],
                Ok(None) => false,
                Err(e) => !registry@.contains_key(self.spec_language_name()->0)
                    && e.kind == ErrorKind::NotFoundError,
            },
    {
        match &self.language_name {
            Some(n) => match registry.lookup(n) {
                Ok(l) => Ok(Some(l)),
                Err(e) => Err(e),
            },
            None => Ok(None),
        }
    }

    /// Parses `source`, with `old_tree` as the previous parse of the
    /// document if given. Without a committed grammar it fails with
    /// `NoLanguageError`. With a time budget the parse stops once the budget
    /// is used up and gives no tree.
    pub fn parse(&mut self, source: String, old_tree: Option<&Tree>) -> (r: Result<Option<Tree>, Error>)
        requires
            old(self).wf(),
        ensures
            final(self).wf(),
            old(self).spec_language_name() is Some && old(self).spec_timeout_micros() == 0
                ==> r matches Ok(Some(_)),
            r is Err <==> old(self).spec_language_name() is None,
            r is Err ==> r->Err_0.kind == ErrorKind::NoLanguageError
                && r->Err_0.message@ == no_language_message(),
            r matches Ok(Some(t)) ==> t.spec_source() == source@
                && Some(t.spec_language_name()) == old(self).spec_language_name(),
            final(self).spec_language_name() == old(self).spec_language_name(),
            final(self).spec_timeout_micros() == old(self).spec_timeout_micros(),
    {
        let language_name = match &self.language_name {
            Some(n) => n.clone(),
            None => {
                let message = String::from_str("No language set. Call `parser.language = 'name'` first.");
                proof { reveal_strlit("No language set. Call `parser.language = 'name'` first."); }
                return Err(Error::new(ErrorKind::NoLanguageError, message));
            },
        };
        // A previous tree is a usable hint only when it was parsed with the
        // grammar now assigned; the engine would misread its nodes otherwise.
        let old_engine: Option<&EngineTree> = match (old_tree, &self.grammar) {
            (Some(t), Some(g)) => {
                let used = tree_grammar(t.engine());
                if used.eq(g) {
                    Some(t.engine())
                } else {
                    None
                }
            },
            _ => None,
        };
        let result = if self.timeout_micros > 0 {
            parse_text_within(&mut self.inner, source.as_str(), old_engine, self.timeout_micros)
        } else {
            parse_text(&mut self.inner, source.as_str(), old_engine)
        };
        match result {
            Some(tree) => Ok(Some(Tree::new(tree, source, language_name))),
            None => Ok(None),
        }
    }

    pub fn timeout_micros(&self) -> (r: u64)
        ensures
            r == self.spec_timeout_micros(),
    {
        self.timeout_micros
    }

    /// Sets the time budget; zero removes it.
    pub fn set_timeout_micros(&mut self, timeout: u64)
        requires
            old(self).wf(),
        ensures
            final(self).wf(),
            final(self).spec_timeout_micros() == timeout,
            final(self).spec_language_name() == old(self).spec_language_name(),
    {
        self.timeout_micros = timeout;
    }

    /// Discards the engine's incremental state; the grammar and budget stay.
    pub fn reset(&mut self)
        requires
            old(self).wf(),
        ensures
            final(self).wf(),
            final(self).spec_timeout_micros() == old(self).spec_timeout_micros(),
            final(self).spec_language_name() == old(self).spec_language_name(),
    {
        self.inner.reset();
    }
}

} // verus!
