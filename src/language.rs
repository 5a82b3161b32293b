//! Grammar handles and the name-keyed registry that keeps loaded grammar
//! modules resident.
use vstd::prelude::*;
use vstd::string::StringExecFns;
use vstd::pervasive::VecAdditionalExecFns;
use tree_sitter::Language as EngineLanguage;
use libloading::Library as LoadedModule;
use crate::error::{Error, ErrorKind};
use crate::engine::{abi_of, kind_count_of};

verus! {

/// What a grammar handle reports of its grammar.
pub struct LanguageInfo {
    pub version: usize,
    pub node_kind_count: usize,
    pub grammar: EngineLanguage,
}

/// What a handle on the engine grammar `l` reports.
pub open spec fn info_of(l: EngineLanguage) -> LanguageInfo {
    LanguageInfo { version: abi_of(l), node_kind_count: kind_count_of(l), grammar: l }
}

/// A cheap handle on a registered grammar, under its registered name.
pub struct Language {
    name: String,
    inner: EngineLanguage,
}

impl Language {
    pub closed spec fn spec_name(&self) -> Seq<char> {
        self.name@
    }

    pub closed spec fn info(&self) -> LanguageInfo {
        info_of(self.inner)
    }

    /// The engine grammar behind this handle.
    pub open spec fn spec_grammar(&self) -> EngineLanguage {
        self.info().grammar
    }

    /// A handle on `inner` under `name`, recording its ABI version and kind count.
    pub fn from_engine(name: String, inner: EngineLanguage) -> (r: Language)
        ensures
            r.spec_name() == name@,
            r.info() == info_of(inner),
    {
        Language { name, inner }
    }

    /// Another handle on the same grammar.
    pub fn duplicate(&self) -> (r: Language)
        ensures
            r.spec_name() == self.spec_name(),
            r.info() == self.info(),
    {
        Language {
            name: self.name.clone(),
            inner: self.inner.clone(),
        }
    }

    /// The engine's handle on this grammar.
    pub fn engine_language(&self) -> (r: &EngineLanguage)
        ensures
            *r == self.spec_grammar(),
    {
        &self.inner
    }

    pub fn name(&self) -> (r: &str)
        ensures
            r@ == self.spec_name(),
    {
        self.name.as_str()
    }

    /// The ABI version of the grammar.
    pub fn version(&self) -> (r: usize)
        ensures
            r == self.info().version,
            r == abi_of(self.spec_grammar()),
    {
        self.inner.abi_version()
    }

    /// The number of distinct node kinds the grammar defines.
    pub fn node_kind_count(&self) -> (r: usize)
        ensures
            r == self.info().node_kind_count,
            r == kind_count_of(self.spec_grammar()),
    {
        self.inner.node_kind_count()
    }
}

/// A registered grammar with the module that it was loaded from.
pub struct RegistryEntry {
    language: Language,
    module: LoadedModule,
}

/// Registered grammars keyed by name; one entry per name.
pub struct LanguageRegistry {
    entries: Vec<RegistryEntry>,
    model: Ghost<Map<Seq<char>, LanguageInfo>>,
}

/// The name of the entry point that a grammar module for `name` exports.
pub open spec fn entry_point_name(name: Seq<char>) -> Seq<char> {
    "tree_sitter_"@ + name
}

/// The message of the failure to find `name` in the registry.
pub open spec fn not_registered_message(name: Seq<char>) -> Seq<char> {
    "Language '"@ + name + "' not registered. Call TreeSitter.register_language first."@
}

impl View for LanguageRegistry {
    type V = Map<Seq<char>, LanguageInfo>;

    closed spec fn view(&self) -> Map<Seq<char>, LanguageInfo> {
        self.model@
    }
}

impl LanguageRegistry {
    /// Names are unique, and the model maps each name to its entry's grammar.
    pub closed spec fn wf(&self) -> bool {
        &&& forall|i: int, j: int|
            0 <= i < j < self.entries@.len() ==> self.entries@[i].language.spec_name()
                != self.entries@[j].language.spec_name()
        &&& forall|i: int|
            0 <= i < self.entries@.len() ==> #[trigger] self.model@.contains_key(
                self.entries@[i].language.spec_name(),
            ) && self.model@[self.entries@[i].language.spec_name()]
                == self.entries@[i].language.info()
        &&& forall|k: Seq<char>|
            #[trigger] self.model@.contains_key(k) ==> exists|i: int|
                0 <= i < self.entries@.len() && self.entries@[i].language.spec_name() == k
        &&& forall|k: Seq<char>| #[trigger] self.model@.contains_key(k) ==> self.model@[k] == info_of(self.model@[k].grammar)
    }

    /// The number of registered names.
    pub closed spec fn len(&self) -> nat {
        self.entries@.len()
    }

    pub fn new() -> (r: LanguageRegistry)
        ensures
            r.wf(),
            r@ == Map::<Seq<char>, LanguageInfo>::empty(),
    {
        LanguageRegistry { entries: Vec::new(), model: Ghost(Map::empty()) }
    }

    /// The position of the entry registered under `name`, if any.
    fn position(&self, name: &String) -> (r: Option<usize>)
        requires
            self.wf(),
        ensures
            r is None ==> !self@.contains_key(name@),
            r is Some ==> r->0 < self.entries@.len() && self.entries@[r->0 as int].language.spec_name()
                == name@,
    {
        let mut i: usize = 0;
        while i < self.entries.len()
            invariant
                i <= self.entries@.len(),
                forall|k: int| 0 <= k < i ==> self.entries@[k].language.spec_name() != name@,
            decreases self.entries@.len() - i,
        {
            if self.entries[i].language.name == *name {
                return Some(i);
            }
            i = i + 1;
        }
        None
    }

    /// Registers `language` under its name, with the module that keeps it
    /// resident; an earlier entry under that name is replaced.
    pub fn register(&mut self, language: Language, module: LoadedModule)
        requires
            old(self).wf(),
        ensures
            final(self).wf(),
            final(self)@ == old(self)@.insert(language.spec_name(), language.info()),
    {
        let ghost name = language.spec_name();
        let ghost info = language.info();
        let found = self.position(&language.name);
        match found {
            Some(i) => {
                self.entries.set(i, RegistryEntry { language, module });
            },
            None => {
                self.entries.push(RegistryEntry { language, module });
            },
        }
        self.model = Ghost(self.model@.insert(name, info));
        assert forall|k: Seq<char>| #[trigger] self.model@.contains_key(k) implies exists|i: int|
            0 <= i < self.entries@.len() && self.entries@[i].language.spec_name() == k by {
            if k != name {
                let j = choose|j: int|
                    0 <= j < old(self).entries@.len() && old(self).entries@[j].language.spec_name() == k;
                assert(self.entries@[j].language.spec_name() == k);
            } else {
                match found {
                    Some(i) => assert(self.entries@[i as int].language.spec_name() == k),
                    None => assert(self.entries@[self.entries@.len() - 1].language.spec_name() == k),
                }
            }
        }
    }

    /// A handle on the grammar registered under `name`.
    pub fn lookup(&self, name: &String) -> (r: Result<Language, Error>)
        requires
            self.wf(),
        ensures
            r is Ok <==> self@.contains_key(name@),
            r is Ok ==> r->Ok_0.spec_name() == name@ && r->Ok_0.info() == self@[name@],
            r is Ok ==> self@[name@] == info_of(self@[name@].grammar),
            r is Err ==> r->Err_0.kind == ErrorKind::NotFoundError
                && r->Err_0.message@ == not_registered_message(name@),
    {
        match self.position(name) {
            Some(i) => {
                assert(self.model@.contains_key(self.entries@[i as int].language.spec_name()));
                Ok(self.entries[i].language.duplicate())
            },
            None => Err(not_registered(name)),
        }
    }

    /// The registered names, each once, in no particular order.
    pub fn names(&self) -> (r: Vec<String>)
        requires
            self.wf(),
        ensures
            r@.len() == self.len(),
            forall|i: int| 0 <= i < r@.len() ==> self@.contains_key(#[trigger] r@[i]@),
            forall|k: Seq<char>| #[trigger] self@.contains_key(k) ==> exists|i: int|
                0 <= i < r@.len() && r@[i]@ == k,
            forall|i: int, j: int| 0 <= i < j < r@.len() ==> r@[i]@ != r@[j]@,
    {
        let mut out: Vec<String> = Vec::new();
        let mut i: usize = 0;
        while i < self.entries.len()
            invariant
                self.wf(),
                i <= self.entries@.len(),
                out@.len() == i,
                forall|k: int| 0 <= k < i ==> (#[trigger] out@[k])@ == self.entries@[k].language.spec_name(),
            decreases self.entries@.len() - i,
        {
            out.push(self.entries[i].language.name.clone());
            i = i + 1;
        }
        assert forall|k: Seq<char>| #[trigger] self@.contains_key(k) implies exists|i: int|
            0 <= i < out@.len() && out@[i]@ == k by {
            let j = choose|j: int| 0 <= j < self.entries@.len() && self.entries@[j].language.spec_name() == k;
            assert(out@[j]@ == k);
        }
        assert forall|i: int| 0 <= i < out@.len() implies self@.contains_key(#[trigger] out@[i]@) by {
            assert(self.model@.contains_key(self.entries@[i].language.spec_name()));
        }
        out
    }
}

/// The failure for a name that is not registered.
pub fn not_registered(name: &String) -> (r: Error)
    ensures
        r.kind == ErrorKind::NotFoundError,
        r.message@ == not_registered_message(name@),
{
    let mut message = String::from_str("Language '");
    message.append(name.as_str());
    message.append("' not registered. Call TreeSitter.register_language first.");
    proof {
        reveal_strlit("Language '");
        reveal_strlit("' not registered. Call TreeSitter.register_language first.");
    }
    assert(message@ =~= not_registered_message(name@));
    Error::new(ErrorKind::NotFoundError, message)
}

/// The name of the entry point that a grammar module for `name` exports.
pub fn symbol_name(name: &str) -> (r: String)
    ensures
        r@ == entry_point_name(name@),
{
    let mut out = String::from_str("tree_sitter_");
    out.append(name);
    proof { reveal_strlit("tree_sitter_"); }
    assert(out@ =~= entry_point_name(name@));
    out
}

/// Registers the grammar `language`, loaded from `module`, under `name`; an
/// earlier entry under that name is replaced.
pub fn register_language(registry: &mut LanguageRegistry, name: String, language: EngineLanguage, module: LoadedModule)
    requires
        old(registry).wf(),
    ensures
        final(registry).wf(),
        final(registry)@ == old(registry)@.insert(name@, info_of(language)),
{
    let handle = Language::from_engine(name, language);
    registry.register(handle, module);
}

/// A handle on the grammar registered under `name`.
pub fn get_language(registry: &LanguageRegistry, name: String) -> (r: Result<Language, Error>)
    requires
        registry.wf(),
    ensures
        r is Ok <==> registry@.contains_key(name@),
        r is Ok ==> r->Ok_0.spec_name() == name@ && r->Ok_0.info() == registry@[name@],
        r is Ok ==> registry@[name@] == info_of(r->Ok_0.spec_grammar()),
        r is Err ==> r->Err_0.kind == ErrorKind::NotFoundError
            && r->Err_0.message@ == not_registered_message(name@),
{
    registry.lookup(&name)
}

/// The engine's handle on the grammar registered under `name`.
pub fn get_language_internal(registry: &LanguageRegistry, name: &String) -> (r: Result<EngineLanguage, Error>)
    requires
        registry.wf(),
    ensures
        r is Ok <==> registry@.contains_key(name@),
        r is Ok ==> r->Ok_0 == registry@[name@].grammar && registry@[name@] == info_of(r->Ok_0),
        r is Err ==> r->Err_0.kind == ErrorKind::NotFoundError
            && r->Err_0.message@ == not_registered_message(name@),
{
    match registry.lookup(name) {
        Ok(language) => Ok(language.inner),
        Err(e) => Err(e),
    }
}

/// The registered names, each once, in no particular order.
pub fn list_languages(registry: &LanguageRegistry) -> (r: Vec<String>)
    requires
        registry.wf(),
    ensures
        r@.len() == registry.len(),
        forall|i: int| 0 <= i < r@.len() ==> registry@.contains_key(#[trigger] r@[i]@),
        forall|k: Seq<char>| #[trigger] registry@.contains_key(k) ==> exists|i: int|
            0 <= i < r@.len() && r@[i]@ == k,
        forall|i: int, j: int| 0 <= i < j < r@.len() ==> r@[i]@ != r@[j]@,
{
    registry.names()
}

/// Once a grammar is registered, looking its name up reports that grammar's
/// version and kind count, and any number of lookups against the registry
/// agree with one another.
pub proof fn lookup_reports_registered_version(
    before: &LanguageRegistry,
    after: &LanguageRegistry,
    language: &Language,
    name: String,
    first: Result<Language, Error>,
    second: Result<Language, Error>,
)
    requires
        after.wf(),
        after@ == before@.insert(language.spec_name(), language.info()),
        name@ == language.spec_name(),
        call_ensures(get_language, (after, name), first),
        call_ensures(get_language, (after, name), second),
    ensures
        first is Ok && second is Ok,
        first->Ok_0.info().version == language.info().version,
        first->Ok_0.info().node_kind_count == language.info().node_kind_count,
        first->Ok_0.info() == second->Ok_0.info(),
        first->Ok_0.info().version == abi_of(first->Ok_0.spec_grammar()),
{
}

/// Registering a second grammar under a name that is already registered
/// replaces the first: a lookup of the name reports the second grammar,
/// with its own ABI version and kind count.
pub proof fn reregistering_replaces(
    before: &LanguageRegistry,
    middle: &LanguageRegistry,
    after: &LanguageRegistry,
    name: String,
    first: EngineLanguage,
    second: EngineLanguage,
    found: Result<Language, Error>,
)
    requires
        after.wf(),
        middle@ == before@.insert(name@, info_of(first)),
        after@ == middle@.insert(name@, info_of(second)),
        call_ensures(get_language, (after, name), found),
    ensures
        found is Ok,
        found->Ok_0.spec_name() == name@,
        found->Ok_0.spec_grammar() == second,
        found->Ok_0.info().version == abi_of(second),
        found->Ok_0.info().node_kind_count == kind_count_of(second),
{
}

} // verus!
