//! What holds of the registry across calls.
//!
//! Each law is stated over the predicates that the contracts of the registry's
//! operations use, so it holds of every run of those operations, whatever the
//! loader, the resolver and the file system did.

use crate::error::ErrorView;
use crate::model::{
    admit_library_spec, admit_parser_spec, entry_wf, find_library_spec, find_parser_in,
    find_parser_spec, handle_of, lemma_index_of_distinct, lemma_push_distinct,
    library_position, loaded_by, names, outcome_view, parser_added_by, parser_position,
    parser_resolved_in, paths, registry_wf, resolved_by, EntryView,
};
use crate::path::{platform_path_spec, resolve_spec, PathProbe};
use vstd::prelude::*;

verus! {

/// Recording what a loader said keeps a well-formed registry well formed and
/// every entry it had where it was. The position that comes back is that of
/// the entry keyed by the path.
pub proof fn lemma_admit_library<M, C>(
    entries: Seq<EntryView<M, C>>,
    path: Seq<char>,
    description: Seq<char>,
    outcome: Result<M, Seq<char>>,
)
    requires
        registry_wf(entries),
    ensures
        ({
            let (after, r) = admit_library_spec(entries, path, description, outcome);
            &&& registry_wf(after)
            &&& entries.is_prefix_of(after)
            &&& r matches Ok(position) ==> library_position(after, path) == Some(position) && 0
                <= position < after.len()
        }),
{
    let (after, r) = admit_library_spec(entries, path, description, outcome);
    match library_position(entries, path) {
        Some(position) => {},
        None => match outcome {
            Ok(module) => {
                assert(paths(after) =~= paths(entries).push(path));
                lemma_push_distinct(paths(entries), path);
                lemma_index_of_distinct(paths(after), entries.len() as int);
            },
            Err(message) => {},
        },
    }
}

/// Recording what a resolver said keeps a well-formed entry well formed,
/// keeps its path, its description and its module, and keeps every binding it
/// had where it was. The position that comes back is that of the binding
/// called by the name.
pub proof fn lemma_admit_parser<M, C>(
    entry: EntryView<M, C>,
    name: Seq<char>,
    description: Seq<char>,
    outcome: Result<C, Seq<char>>,
)
    requires
        entry_wf(entry),
    ensures
        ({
            let (after, r) = admit_parser_spec(entry, name, description, outcome);
            &&& entry_wf(after)
            &&& after.path == entry.path
            &&& after.description == entry.description
            &&& after.module == entry.module
            &&& entry.bindings.is_prefix_of(after.bindings)
            &&& r matches Ok(position) ==> parser_position(after.bindings, name) == Some(position)
                && 0 <= position < after.bindings.len()
        }),
{
    let (after, r) = admit_parser_spec(entry, name, description, outcome);
    match parser_position(entry.bindings, name) {
        Some(position) => {},
        None => match outcome {
            Ok(callable) => {
                assert(names(after.bindings) =~= names(entry.bindings).push(name));
                lemma_push_distinct(names(entry.bindings), name);
                lemma_index_of_distinct(names(after.bindings), entry.bindings.len() as int);
            },
            Err(message) => {},
        },
    }
}

/// Whatever the loader did, `get_or_load_library` keeps a well-formed
/// registry well formed and every entry it had where it was, and the position
/// it returns is that of an entry.
pub proof fn law_loading_keeps_entries<M, C, F: FnOnce(&str) -> Result<M, String>>(
    before: Seq<EntryView<M, C>>,
    path: Seq<char>,
    description: Seq<char>,
    probe: PathProbe,
    loader: F,
    after: Seq<EntryView<M, C>>,
    r: Result<int, ErrorView>,
)
    requires
        registry_wf(before),
        loaded_by(before, path, description, probe, loader, after, r),
    ensures
        registry_wf(after),
        before.is_prefix_of(after),
        r matches Ok(position) ==> 0 <= position < after.len(),
{
    match find_library_spec(before, path, probe) {
        Err(ErrorView::NotLoaded { path: canonical }) => {
            let (file, outcome) = choose|file: &str, outcome: Result<M, String>|
                file@ == canonical && #[trigger] call_ensures(loader, (file,), outcome) && (
                    after,
                    r,
                ) == admit_library_spec(before, canonical, description, outcome_view(outcome));
            lemma_admit_library(before, canonical, description, outcome_view(outcome));
        },
        found => {},
    }
}

/// Loading is idempotent. Where `get_or_load_library` has succeeded for a
/// path, a lookup of that path finds the entry it returned. A second call
/// for the path is therefore answered by the lookup, whatever its description
/// and its loader are: it changes nothing and returns the same entry, with
/// the same module.
pub proof fn law_load_is_idempotent<
    M,
    C,
    F1: FnOnce(&str) -> Result<M, String>,
    F2: FnOnce(&str) -> Result<M, String>,
>(
    before: Seq<EntryView<M, C>>,
    path: Seq<char>,
    probe: PathProbe,
    first_description: Seq<char>,
    first_loader: F1,
    loaded: Seq<EntryView<M, C>>,
    first: Result<int, ErrorView>,
    second_description: Seq<char>,
    second_loader: F2,
    after: Seq<EntryView<M, C>>,
    second: Result<int, ErrorView>,
)
    requires
        registry_wf(before),
        loaded_by(before, path, first_description, probe, first_loader, loaded, first),
        first is Ok,
        loaded_by(loaded, path, second_description, probe, second_loader, after, second),
    ensures
        find_library_spec(loaded, path, probe) == first,
        after == loaded,
        second == first,
{
    lemma_found_after_loading(before, path, first_description, probe, first_loader, loaded, first);
}

/// Where `get_or_load_library` has succeeded for a path, a lookup of that
/// path finds the entry it returned.
pub proof fn lemma_found_after_loading<M, C, F: FnOnce(&str) -> Result<M, String>>(
    before: Seq<EntryView<M, C>>,
    path: Seq<char>,
    description: Seq<char>,
    probe: PathProbe,
    loader: F,
    after: Seq<EntryView<M, C>>,
    r: Result<int, ErrorView>,
)
    requires
        registry_wf(before),
        loaded_by(before, path, description, probe, loader, after, r),
        r is Ok,
    ensures
        find_library_spec(after, path, probe) == r,
{
    match find_library_spec(before, path, probe) {
        Err(ErrorView::NotLoaded { path: canonical }) => {
            let (file, outcome) = choose|file: &str, outcome: Result<M, String>|
                file@ == canonical && #[trigger] call_ensures(loader, (file,), outcome) && (
                    after,
                    r,
                ) == admit_library_spec(before, canonical, description, outcome_view(outcome));
            lemma_admit_library(before, canonical, description, outcome_view(outcome));
            assert(paths(after) =~= paths(before).push(canonical));
        },
        found => {},
    }
}

/// Whatever the resolver did, `get_or_add_parser` on an entry keeps a
/// well-formed entry well formed, keeps its path, its description and its
/// module, and keeps every binding it had where it was. Where it succeeds, a
/// lookup of the name finds the binding it returned.
pub proof fn law_resolving_keeps_bindings<M, C, G: FnOnce(&M, &str) -> Result<C, String>>(
    before: EntryView<M, C>,
    name: Seq<char>,
    description: Seq<char>,
    resolver: G,
    after: EntryView<M, C>,
    r: Result<int, ErrorView>,
)
    requires
        entry_wf(before),
        resolved_by(before, name, description, resolver, after, r),
    ensures
        entry_wf(after),
        after.path == before.path,
        after.description == before.description,
        after.module == before.module,
        before.bindings.is_prefix_of(after.bindings),
        r matches Ok(position) ==> find_parser_in(after, name) == r && 0 <= position
            < after.bindings.len(),
{
    match find_parser_in(before, name) {
        Ok(position) => {},
        Err(_) => {
            let (symbol, outcome) = choose|symbol: &str, outcome: Result<C, String>|
                symbol@ == name && #[trigger] call_ensures(
                    resolver,
                    (&before.module, symbol),
                    outcome,
                ) && (after, r) == admit_parser_spec(
                    before,
                    name,
                    description,
                    outcome_view(outcome),
                );
            lemma_admit_parser(before, name, description, outcome_view(outcome));
        },
    }
}

/// Whatever the loader and the resolver did, `get_or_add_parser` keeps a
/// well-formed registry well formed. No entry leaves or moves, none changes
/// its path, its description or its module, and none loses a binding or has
/// one moved. Where the call succeeds, a lookup of the path and the name
/// finds the binding it returned.
pub proof fn law_adding_keeps_entries<
    M,
    C,
    F: FnOnce(&str) -> Result<M, String>,
    G: FnOnce(&M, &str) -> Result<C, String>,
>(
    before: Seq<EntryView<M, C>>,
    path: Seq<char>,
    name: Seq<char>,
    description: Seq<char>,
    probe: PathProbe,
    loader: F,
    resolver: G,
    after: Seq<EntryView<M, C>>,
    r: Result<(int, int), ErrorView>,
)
    requires
        registry_wf(before),
        parser_added_by(before, path, name, description, probe, loader, resolver, after, r),
    ensures
        registry_wf(after),
        before.len() <= after.len(),
        forall|i: int|
            0 <= i < before.len() ==> {
                &&& (#[trigger] after[i]).path == before[i].path
                &&& after[i].description == before[i].description
                &&& after[i].module == before[i].module
                &&& before[i].bindings.is_prefix_of(after[i].bindings)
            },
        r is Ok ==> find_parser_spec(after, path, name, probe) == r,
{
    let (loaded, library) = choose|loaded: Seq<EntryView<M, C>>, library: Result<int, ErrorView>|
        #[trigger] loaded_by(before, path, description, probe, loader, loaded, library)
            && #[trigger] parser_resolved_in(
            loaded,
            library,
            name,
            description,
            resolver,
            after,
            r,
        );
    law_loading_keeps_entries(before, path, description, probe, loader, loaded, library);
    match library {
        Ok(position) => {
            let (entry, parser) = choose|entry: EntryView<M, C>, parser: Result<int, ErrorView>|
                #[trigger] resolved_by(loaded[position], name, description, resolver, entry, parser)
                    && after == loaded.update(position, entry) && r == handle_of(
                    position,
                    parser,
                );
            law_resolving_keeps_bindings(
                loaded[position],
                name,
                description,
                resolver,
                entry,
                parser,
            );
            lemma_found_after_loading(before, path, description, probe, loader, loaded, library);
            assert(paths(after) =~= paths(loaded));
        },
        Err(error) => {},
    }
}

/// A parser is resolved once. Where `get_or_add_parser` has succeeded for a
/// path and a name, a lookup of the two finds the binding it returned. A
/// second call for the two is therefore answered by the lookup, whatever its
/// description, its loader and its resolver are: it changes nothing and
/// returns the same binding.
pub proof fn law_parser_is_resolved_once<
    M,
    C,
    F1: FnOnce(&str) -> Result<M, String>,
    G1: FnOnce(&M, &str) -> Result<C, String>,
    F2: FnOnce(&str) -> Result<M, String>,
    G2: FnOnce(&M, &str) -> Result<C, String>,
>(
    before: Seq<EntryView<M, C>>,
    path: Seq<char>,
    name: Seq<char>,
    probe: PathProbe,
    first_description: Seq<char>,
    first_loader: F1,
    first_resolver: G1,
    added: Seq<EntryView<M, C>>,
    first: Result<(int, int), ErrorView>,
    second_description: Seq<char>,
    second_loader: F2,
    second_resolver: G2,
    after: Seq<EntryView<M, C>>,
    second: Result<(int, int), ErrorView>,
)
    requires
        registry_wf(before),
        parser_added_by(
            before,
            path,
            name,
            first_description,
            probe,
            first_loader,
            first_resolver,
            added,
            first,
        ),
        first is Ok,
        parser_added_by(
            added,
            path,
            name,
            second_description,
            probe,
            second_loader,
            second_resolver,
            after,
            second,
        ),
    ensures
        find_parser_spec(added, path, name, probe) == first,
        after == added,
        second == first,
{
    law_adding_keeps_entries(
        before,
        path,
        name,
        first_description,
        probe,
        first_loader,
        first_resolver,
        added,
        first,
    );
}

/// Resolution falls back on the platform's naming. A path that does not exist
/// as given, and whose platform form exists, resolves to the platform form.
pub proof fn law_resolution_falls_back(path: Seq<char>, probe: PathProbe)
    requires
        !probe.literal_exists,
        probe.platform_exists,
        platform_path_spec(path) is Ok,
    ensures
        resolve_spec(path, probe) == platform_path_spec(path),
{
}

/// A path that exists resolves to itself, so resolving what resolution
/// yielded changes nothing.
pub proof fn law_resolution_is_stable(path: Seq<char>, probe: PathProbe)
    requires
        probe.literal_exists,
    ensures
        resolve_spec(path, probe) == Ok::<Seq<char>, ErrorView>(path),
{
}

} // verus!
