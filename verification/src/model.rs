//! The registry as mathematics: what an entry and a binding are, when a
//! registry is well formed, and what each operation makes of one.
//!
//! A registry is a sequence of entries in the order in which they were
//! loaded, an entry's bindings a sequence in the order in which they were
//! resolved. Modules and callables are values that these functions move and
//! never look into.

use crate::error::{ErrorView, RegistryError};
use crate::path::{resolve_spec, PathProbe};
use vstd::prelude::*;

verus! {

/// A resolved parser: the exported name, the caller's label, the callable.
#[verifier::ext_equal]
pub struct BindingView<C> {
    pub name: Seq<char>,
    pub description: Seq<char>,
    pub callable: C,
}

/// A loaded library: the path that is its key, the caller's label, the
/// module, and the parsers resolved in it so far.
#[verifier::ext_equal]
pub struct EntryView<M, C> {
    pub path: Seq<char>,
    pub description: Seq<char>,
    pub module: M,
    pub bindings: Seq<BindingView<C>>,
}

/// The names of the bindings, in their order.
pub open spec fn names<C>(bindings: Seq<BindingView<C>>) -> Seq<Seq<char>> {
    bindings.map_values(|binding: BindingView<C>| binding.name)
}

/// The paths of the entries, in their order.
pub open spec fn paths<M, C>(entries: Seq<EntryView<M, C>>) -> Seq<Seq<char>> {
    entries.map_values(|entry: EntryView<M, C>| entry.path)
}

/// An entry is well formed when no two of its bindings share a name.
pub open spec fn entry_wf<M, C>(entry: EntryView<M, C>) -> bool {
    names(entry.bindings).no_duplicates()
}

/// A registry is well formed when no two entries share a path and each entry
/// is well formed.
pub open spec fn registry_wf<M, C>(entries: Seq<EntryView<M, C>>) -> bool {
    &&& paths(entries).no_duplicates()
    &&& forall|i: int| 0 <= i < entries.len() ==> entry_wf(#[trigger] entries[i])
}

/// What a loader or a symbol resolver handed back, its message as characters.
pub open spec fn outcome_view<T>(outcome: Result<T, String>) -> Result<T, Seq<char>> {
    match outcome {
        Ok(value) => Ok(value),
        Err(message) => Err(message@),
    }
}

/// A position or nothing, as an integer.
pub open spec fn index_option(r: Option<usize>) -> Option<int> {
    match r {
        Some(index) => Some(index as int),
        None => None,
    }
}

/// An index or an error, each by its view.
pub open spec fn index_result(r: Result<usize, RegistryError>) -> Result<int, ErrorView> {
    match r {
        Ok(index) => Ok(index as int),
        Err(error) => Err(error@),
    }
}

/// Where the binding called `name` stands among `bindings`.
pub open spec fn parser_position<C>(bindings: Seq<BindingView<C>>, name: Seq<char>) -> Option<int> {
    if names(bindings).contains(name) {
        Some(names(bindings).index_of(name))
    } else {
        None
    }
}

/// Where the entry keyed by `path` stands among `entries`.
pub open spec fn library_position<M, C>(entries: Seq<EntryView<M, C>>, path: Seq<char>) -> Option<
    int,
> {
    if paths(entries).contains(path) {
        Some(paths(entries).index_of(path))
    } else {
        None
    }
}

/// Looking a parser up in an entry: its position, or `ParserNotLoaded`.
pub open spec fn find_parser_in<M, C>(entry: EntryView<M, C>, name: Seq<char>) -> Result<
    int,
    ErrorView,
> {
    match parser_position(entry.bindings, name) {
        Some(position) => Ok(position),
        None => Err(ErrorView::ParserNotLoaded { name, path: entry.path }),
    }
}

/// Recording what a symbol resolver said of `name`.
///
/// A name that is bound already keeps its binding, whatever the resolver
/// said. Otherwise a callable is appended under the name, and a refusal is a
/// `SymbolNotFound` that leaves the entry as it was.
pub open spec fn admit_parser_spec<M, C>(
    entry: EntryView<M, C>,
    name: Seq<char>,
    description: Seq<char>,
    outcome: Result<C, Seq<char>>,
) -> (EntryView<M, C>, Result<int, ErrorView>) {
    match parser_position(entry.bindings, name) {
        Some(position) => (entry, Ok(position)),
        None => match outcome {
            Ok(callable) => (
                EntryView {
                    bindings: entry.bindings.push(BindingView { name, description, callable }),
                    ..entry
                },
                Ok(entry.bindings.len() as int),
            ),
            Err(message) => (
                entry,
                Err(ErrorView::SymbolNotFound { name, path: entry.path, message }),
            ),
        },
    }
}

/// What `get_or_add_parser` on an entry may make of it with a given resolver.
///
/// A name that is bound already is answered from the entry, which stays as
/// it is. For any other name the resolver is called once, on the entry's
/// module and the name, and what it hands back is recorded.
pub open spec fn resolved_by<M, C, G: FnOnce(&M, &str) -> Result<C, String>>(
    before: EntryView<M, C>,
    name: Seq<char>,
    description: Seq<char>,
    resolver: G,
    after: EntryView<M, C>,
    r: Result<int, ErrorView>,
) -> bool {
    match find_parser_in(before, name) {
        Ok(position) => after == before && r == Ok::<int, ErrorView>(position),
        Err(_) => exists|symbol: &str, outcome: Result<C, String>|
            symbol@ == name && #[trigger] call_ensures(resolver, (&before.module, symbol), outcome)
                && (after, r) == admit_parser_spec(
                before,
                name,
                description,
                outcome_view(outcome),
            ),
    }
}

/// Looking a library up: the position of the entry that `path` stands for.
///
/// A path that is the key of an entry stands for that entry. Any other path
/// is resolved first, and stands for the entry keyed by the resolved path; if
/// there is none, the error is `NotLoaded` with the resolved path.
pub open spec fn find_library_spec<M, C>(
    entries: Seq<EntryView<M, C>>,
    path: Seq<char>,
    probe: PathProbe,
) -> Result<int, ErrorView> {
    match library_position(entries, path) {
        Some(position) => Ok(position),
        None => match resolve_spec(path, probe) {
            Ok(canonical) => match library_position(entries, canonical) {
                Some(position) => Ok(position),
                None => Err(ErrorView::NotLoaded { path: canonical }),
            },
            Err(error) => Err(error),
        },
    }
}

/// Recording what a loader said of the resolved path `path`.
///
/// A path that is loaded already keeps its entry, whatever the loader said.
/// Otherwise a module becomes a new last entry without bindings, and a
/// refusal is a `LoadFailure` that leaves the registry as it was.
pub open spec fn admit_library_spec<M, C>(
    entries: Seq<EntryView<M, C>>,
    path: Seq<char>,
    description: Seq<char>,
    outcome: Result<M, Seq<char>>,
) -> (Seq<EntryView<M, C>>, Result<int, ErrorView>) {
    match library_position(entries, path) {
        Some(position) => (entries, Ok(position)),
        None => match outcome {
            Ok(module) => (
                entries.push(EntryView { path, description, module, bindings: Seq::empty() }),
                Ok(entries.len() as int),
            ),
            Err(message) => (entries, Err(ErrorView::LoadFailure { path, message })),
        },
    }
}

/// What `get_or_load_library` may make of a registry with a given loader.
///
/// It answers as a lookup does, and leaves the registry as it is, but for one
/// case: where the lookup says `NotLoaded`, the loader is called once, on the
/// resolved path, and what it hands back is recorded.
pub open spec fn loaded_by<M, C, F: FnOnce(&str) -> Result<M, String>>(
    before: Seq<EntryView<M, C>>,
    path: Seq<char>,
    description: Seq<char>,
    probe: PathProbe,
    loader: F,
    after: Seq<EntryView<M, C>>,
    r: Result<int, ErrorView>,
) -> bool {
    match find_library_spec(before, path, probe) {
        Err(ErrorView::NotLoaded { path: canonical }) => exists|
            file: &str,
            outcome: Result<M, String>,
        |
            file@ == canonical && #[trigger] call_ensures(loader, (file,), outcome) && (after, r)
                == admit_library_spec(before, canonical, description, outcome_view(outcome)),
        found => after == before && r == found,
    }
}

/// The positions of an entry and of a binding in it, or the error that
/// stopped the search for the binding.
pub open spec fn handle_of(library: int, parser: Result<int, ErrorView>) -> Result<
    (int, int),
    ErrorView,
> {
    match parser {
        Ok(parser) => Ok((library, parser)),
        Err(error) => Err(error),
    }
}

/// The second half of `get_or_add_parser` on a registry: in the entry that
/// loading yielded, the parser is had as `get_or_add_parser` on an entry has
/// it; an error of loading is handed on.
pub open spec fn parser_resolved_in<M, C, G: FnOnce(&M, &str) -> Result<C, String>>(
    loaded: Seq<EntryView<M, C>>,
    library: Result<int, ErrorView>,
    name: Seq<char>,
    description: Seq<char>,
    resolver: G,
    after: Seq<EntryView<M, C>>,
    r: Result<(int, int), ErrorView>,
) -> bool {
    match library {
        Ok(position) => exists|entry: EntryView<M, C>, parser: Result<int, ErrorView>|
            #[trigger] resolved_by(loaded[position], name, description, resolver, entry, parser)
                && after == loaded.update(position, entry) && r == handle_of(position, parser),
        Err(error) => after == loaded && r == Err::<(int, int), ErrorView>(error),
    }
}

/// What `get_or_add_parser` may make of a registry with a given loader and a
/// given resolver: first what `get_or_load_library` makes of it, then, in the
/// entry that this yields, what `get_or_add_parser` on an entry makes of that.
pub open spec fn parser_added_by<
    M,
    C,
    F: FnOnce(&str) -> Result<M, String>,
    G: FnOnce(&M, &str) -> Result<C, String>,
>(
    before: Seq<EntryView<M, C>>,
    path: Seq<char>,
    name: Seq<char>,
    description: Seq<char>,
    probe: PathProbe,
    loader: F,
    resolver: G,
    after: Seq<EntryView<M, C>>,
    r: Result<(int, int), ErrorView>,
) -> bool {
    exists|loaded: Seq<EntryView<M, C>>, library: Result<int, ErrorView>|
        #[trigger] loaded_by(before, path, description, probe, loader, loaded, library)
            && #[trigger] parser_resolved_in(
            loaded,
            library,
            name,
            description,
            resolver,
            after,
            r,
        )
}

/// Looking a parser up in a registry: the positions of its entry and of its
/// binding there.
pub open spec fn find_parser_spec<M, C>(
    entries: Seq<EntryView<M, C>>,
    path: Seq<char>,
    name: Seq<char>,
    probe: PathProbe,
) -> Result<(int, int), ErrorView> {
    match find_library_spec(entries, path, probe) {
        Ok(library) => match find_parser_in(entries[library], name) {
            Ok(parser) => Ok((library, parser)),
            Err(error) => Err(error),
        },
        Err(error) => Err(error),
    }
}

/// In a sequence without duplicates, the index of an element is where it stands.
pub proof fn lemma_index_of_distinct(keys: Seq<Seq<char>>, index: int)
    requires
        keys.no_duplicates(),
        0 <= index < keys.len(),
    ensures
        keys.contains(keys[index]),
        keys.index_of(keys[index]) == index,
{
}

/// A sequence without duplicates stays so when a new element is appended.
pub proof fn lemma_push_distinct(keys: Seq<Seq<char>>, key: Seq<char>)
    requires
        keys.no_duplicates(),
        !keys.contains(key),
    ensures
        keys.push(key).no_duplicates(),
{
}

} // verus!
