//! The registry: every library loaded so far, each under its resolved path.

use crate::binding::ParserBinding;
use crate::entry::LibraryEntry;
use crate::error::{ErrorView, RegistryError};
use crate::model::{
    admit_library_spec, find_library_spec, find_parser_spec, index_option, index_result,
    lemma_index_of_distinct, lemma_push_distinct, library_position, loaded_by, outcome_view,
    parser_added_by, parser_resolved_in, paths, registry_wf, EntryView,
};
use crate::path::{resolve, PathProbe};
use vstd::prelude::*;

verus! {

/// Names a parser by where it stands: the position of its library in the
/// registry and its own position in that library.
#[derive(Debug, Clone, Copy, PartialEq, Eq)]
pub struct ParserHandle {
    pub library: usize,
    pub parser: usize,
}

/// A handle or an error, each by its view.
pub open spec fn handle_result(r: Result<ParserHandle, RegistryError>) -> Result<
    (int, int),
    ErrorView,
> {
    match r {
        Ok(handle) => Ok((handle.library as int, handle.parser as int)),
        Err(error) => Err(error@),
    }
}

/// The libraries loaded so far, in the order in which they were loaded.
/// Entries are added and never removed, and no two of them share a path.
///
/// A registry is a value that its user owns and passes on. Lookups borrow it
/// shared, loading and resolving borrow it exclusively, so whoever shares one
/// between threads puts it behind a lock and gets the right discipline from
/// the borrows. Nothing is ever unloaded: a module lives as long as the
/// registry, and so does every callable resolved in it.
pub struct Registry<M, C> {
    libraries: Vec<LibraryEntry<M, C>>,
}

impl<M, C> View for Registry<M, C> {
    type V = Seq<EntryView<M, C>>;

    closed spec fn view(&self) -> Seq<EntryView<M, C>> {
        self.libraries@.map_values(|entry: LibraryEntry<M, C>| entry@)
    }
}

impl<M, C> Registry<M, C> {
    /// No two entries share a path, and each entry is well formed.
    pub open spec fn wf(&self) -> bool {
        registry_wf(self@)
    }

    /// A registry with nothing loaded.
    pub fn new() -> (registry: Self)
        ensures
            registry.wf(),
            registry@ == Seq::<EntryView<M, C>>::empty(),
    {
        let registry = Registry { libraries: Vec::new() };
        registry
    }

    /// How many libraries are loaded.
    pub fn len(&self) -> (count: usize)
        ensures
            count == self@.len(),
    {
        self.libraries.len()
    }

    /// The library at `index`, in the order of loading.
    pub fn library(&self, index: usize) -> (r: Option<&LibraryEntry<M, C>>)
        ensures
            match r {
                Some(entry) => index < self@.len() && entry@ == self@[index as int],
                None => index >= self@.len(),
            },
    {
        if index < self.libraries.len() {
            Some(&self.libraries[index])
        } else {
            None
        }
    }

    /// The parser that `handle` names.
    pub fn parser(&self, handle: ParserHandle) -> (r: Option<&ParserBinding<C>>)
        ensures
            match r {
                Some(binding) => handle.library < self@.len() && handle.parser
                    < self@[handle.library as int].bindings.len() && binding@
                    == self@[handle.library as int].bindings[handle.parser as int],
                None => handle.library >= self@.len() || handle.parser
                    >= self@[handle.library as int].bindings.len(),
            },
    {
        if handle.library < self.libraries.len() {
            self.libraries[handle.library].parser(handle.parser)
        } else {
            None
        }
    }

    /// Where the entry keyed by `path` stands. The path is compared as it is
    /// given: nothing is resolved.
    pub fn position_of(&self, path: &str) -> (r: Option<usize>)
        requires
            self.wf(),
        ensures
            index_option(r) == library_position(self@, path@),
    {
        let wanted = path.to_owned();
        let mut index: usize = 0;
        while index < self.libraries.len()
            invariant
                self.wf(),
                wanted@ == path@,
                index <= self.libraries.len(),
                forall|j: int| 0 <= j < index ==> paths(self@)[j] != path@,
            decreases self.libraries.len() - index,
        {
            if self.libraries[index].is_keyed_by(&wanted) {
                proof {
                    lemma_index_of_distinct(paths(self@), index as int);
                }
                return Some(index);
            }
            index = index + 1;
        }
        None
    }

    /// Where the entry that `path` stands for is found, as `find_library`
    /// finds it.
    pub fn locate(&self, path: &str, probe: PathProbe) -> (r: Result<usize, RegistryError>)
        requires
            self.wf(),
        ensures
            index_result(r) == find_library_spec(self@, path@, probe),
            r matches Ok(index) ==> index < self@.len(),
    {
        match self.position_of(path) {
            Some(index) => Ok(index),
            None => match resolve(path, probe) {
                Ok(canonical) => match self.position_of(canonical.as_str()) {
                    Some(index) => Ok(index),
                    None => Err(RegistryError::NotLoaded { path: canonical }),
                },
                Err(error) => Err(error),
            },
        }
    }

    /// Looks a library up without loading anything.
    ///
    /// A path that is the key of an entry finds that entry. Any other path is
    /// resolved, which may fail with `InvalidPath` or `NotFound`, and finds
    /// the entry keyed by the resolved path, or fails with `NotLoaded`.
    pub fn find_library(&self, path: &str, probe: PathProbe) -> (r: Result<
        &LibraryEntry<M, C>,
        RegistryError,
    >)
        requires
            self.wf(),
        ensures
            match find_library_spec(self@, path@, probe) {
                Ok(position) => r matches Ok(entry) && entry@ == self@[position],
                Err(expected) => r matches Err(error) && error@ == expected,
            },
    {
        match self.locate(path, probe) {
            Ok(index) => Ok(&self.libraries[index]),
            Err(error) => Err(error),
        }
    }

    /// Records what a loader said of the resolved path `path`.
    ///
    /// A path that is loaded already keeps its entry and `outcome` is
    /// dropped. Otherwise a module becomes a new last entry, and a refusal
    /// comes back as `LoadFailure`.
    pub fn admit_library(&mut self, path: &str, description: &str, outcome: Result<M, String>) -> (r:
        Result<usize, RegistryError>)
        requires
            old(self).wf(),
        ensures
            final(self).wf(),
            (final(self)@, index_result(r)) == admit_library_spec(
                old(self)@,
                path@,
                description@,
                outcome_view(outcome),
            ),
            r matches Ok(index) ==> index < final(self)@.len(),
    {
        match self.position_of(path) {
            Some(index) => Ok(index),
            None => match outcome {
                Ok(module) => {
                    let index = self.libraries.len();
                    self.libraries.push(
                        LibraryEntry::new(path.to_owned(), description.to_owned(), module),
                    );
                    proof {
                        let added = EntryView {
                            path: path@,
                            description: description@,
                            module,
                            bindings: Seq::empty(),
                        };
                        assert(self@ =~= old(self)@.push(added));
                        assert(paths(self@) =~= paths(old(self)@).push(path@));
                        lemma_push_distinct(paths(old(self)@), path@);
                    }
                    Ok(index)
                },
                Err(message) => Err(RegistryError::LoadFailure { path: path.to_owned(), message }),
            },
        }
    }

    /// The library that `path` stands for, loaded now if it was not before.
    ///
    /// An entry that a lookup finds is returned as it is: the description is
    /// ignored and the loader is not called. The loader is called only where
    /// the lookup says `NotLoaded`, once, on the resolved path, and what it
    /// hands back is recorded as `admit_library` does.
    pub fn get_or_load_library<F>(
        &mut self,
        path: &str,
        description: &str,
        probe: PathProbe,
        loader: F,
    ) -> (r: Result<usize, RegistryError>) where F: FnOnce(&str) -> Result<M, String>
        requires
            old(self).wf(),
            forall|file: &str|
                find_library_spec(old(self)@, path@, probe) == Err::<int, ErrorView>(
                    ErrorView::NotLoaded { path: file@ },
                ) ==> #[trigger] call_requires(loader, (file,)),
        ensures
            final(self).wf(),
            loaded_by(
                old(self)@,
                path@,
                description@,
                probe,
                loader,
                final(self)@,
                index_result(r),
            ),
            r matches Ok(index) ==> index < final(self)@.len(),
    {
        match self.locate(path, probe) {
            Err(RegistryError::NotLoaded { path: canonical }) => {
                let outcome = loader(canonical.as_str());
                self.admit_library(canonical.as_str(), description, outcome)
            },
            found => found,
        }
    }

    /// Looks a parser up without loading or resolving anything.
    ///
    /// Fails as `find_library` does where the library is not found, and with
    /// `ParserNotLoaded` where the library has no binding of that name.
    pub fn find_parser(&self, path: &str, name: &str, probe: PathProbe) -> (r: Result<
        &ParserBinding<C>,
        RegistryError,
    >)
        requires
            self.wf(),
        ensures
            match find_parser_spec(self@, path@, name@, probe) {
                Ok((library, parser)) => r matches Ok(binding) && binding@
                    == self@[library].bindings[parser],
                Err(expected) => r matches Err(error) && error@ == expected,
            },
    {
        match self.locate(path, probe) {
            Ok(index) => self.libraries[index].find_parser(name),
            Err(error) => Err(error),
        }
    }

    /// The parser called `name` in the library that `path` stands for, with
    /// the library loaded and the parser resolved now if they were not before.
    ///
    /// The library is had as `get_or_load_library` has it, under the same
    /// description. In its entry, a binding of that name is returned as it
    /// is; otherwise the resolver is called once, on the entry's module and
    /// the name. A refusal comes back as `SymbolNotFound`, and the library
    /// stays loaded.
    pub fn get_or_add_parser<F, G>(
        &mut self,
        path: &str,
        name: &str,
        description: &str,
        probe: PathProbe,
        loader: F,
        resolver: G,
    ) -> (r: Result<ParserHandle, RegistryError>) where
        F: FnOnce(&str) -> Result<M, String>,
        G: FnOnce(&M, &str) -> Result<C, String>,

        requires
            old(self).wf(),
            forall|file: &str|
                find_library_spec(old(self)@, path@, probe) == Err::<int, ErrorView>(
                    ErrorView::NotLoaded { path: file@ },
                ) ==> #[trigger] call_requires(loader, (file,)),
            forall|module: &M, symbol: &str|
                symbol@ == name@ ==> #[trigger] call_requires(resolver, (module, symbol)),
        ensures
            final(self).wf(),
            parser_added_by(
                old(self)@,
                path@,
                name@,
                description@,
                probe,
                loader,
                resolver,
                final(self)@,
                handle_result(r),
            ),
    {
        let loaded = self.get_or_load_library(path, description, probe, loader);
        let ghost entries = self@;
        match loaded {
            Ok(library) => {
                assert(self.libraries@[library as int]@ == entries[library as int]);
                let resolved = self.libraries[library].get_or_add_parser(
                    name,
                    description,
                    resolver,
                );
                let r = match resolved {
                    Ok(parser) => Ok(ParserHandle { library, parser }),
                    Err(error) => Err(error),
                };
                proof {
                    let entry = self.libraries@[library as int]@;
                    assert(self@ =~= entries.update(library as int, entry));
                    assert(paths(self@) =~= paths(entries));
                    assert(parser_resolved_in(
                        entries,
                        index_result(loaded),
                        name@,
                        description@,
                        resolver,
                        self@,
                        handle_result(r),
                    ));
                }
                r
            },
            Err(error) => {
                let r = Err(error);
                assert(parser_resolved_in(
                    entries,
                    index_result(loaded),
                    name@,
                    description@,
                    resolver,
                    self@,
                    handle_result(r),
                ));
                r
            },
        }
    }
}

} // verus!
