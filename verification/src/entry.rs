//! One loaded library: its module and the parsers resolved in it.

use crate::binding::ParserBinding;
use crate::error::RegistryError;
use crate::model::{
    admit_parser_spec, entry_wf, find_parser_in, index_option, index_result,
    lemma_index_of_distinct, lemma_push_distinct, names, outcome_view, parser_position,
    resolved_by, BindingView, EntryView,
};
use vstd::prelude::*;

verus! {

/// A loaded library. It owns the module, and with it every parser that was
/// resolved in the module; no two of them share a name.
///
/// The bindings stand before the module, so when an entry is dropped they go
/// first and no callable is left behind a module that is gone.
pub struct LibraryEntry<M, C> {
    path: String,
    description: String,
    bindings: Vec<ParserBinding<C>>,
    module: M,
}

impl<M, C> View for LibraryEntry<M, C> {
    type V = EntryView<M, C>;

    closed spec fn view(&self) -> EntryView<M, C> {
        EntryView {
            path: self.path@,
            description: self.description@,
            module: self.module,
            bindings: self.bindings@.map_values(|binding: ParserBinding<C>| binding@),
        }
    }
}

impl<M, C> LibraryEntry<M, C> {
    /// No two bindings of the entry share a name.
    pub open spec fn wf(&self) -> bool {
        entry_wf(self@)
    }

    /// An entry for `module`, loaded from `path`, with no parser resolved yet.
    pub fn new(path: String, description: String, module: M) -> (entry: Self)
        ensures
            entry.wf(),
            entry@ == (EntryView {
                path: path@,
                description: description@,
                module,
                bindings: Seq::<BindingView<C>>::empty(),
            }),
    {
        LibraryEntry { path, description, bindings: Vec::new(), module }
    }

    /// The path the library was loaded from, which is its key.
    pub fn path(&self) -> (path: &str)
        ensures
            path@ == self@.path,
    {
        self.path.as_str()
    }

    /// Whether the library is keyed by `path`, compared as text.
    pub fn is_keyed_by(&self, path: &String) -> (same: bool)
        ensures
            same == (self@.path == path@),
    {
        self.path == *path
    }

    /// The label given when the library was loaded.
    pub fn description(&self) -> (description: &str)
        ensures
            description@ == self@.description,
    {
        self.description.as_str()
    }

    /// The loaded module.
    pub fn module(&self) -> (module: &M)
        ensures
            *module == self@.module,
    {
        &self.module
    }

    /// How many parsers are resolved in the library.
    pub fn parser_count(&self) -> (count: usize)
        ensures
            count == self@.bindings.len(),
    {
        self.bindings.len()
    }

    /// The parser at `index`, in the order of resolution.
    pub fn parser(&self, index: usize) -> (r: Option<&ParserBinding<C>>)
        ensures
            match r {
                Some(binding) => index < self@.bindings.len() && binding@
                    == self@.bindings[index as int],
                None => index >= self@.bindings.len(),
            },
    {
        if index < self.bindings.len() {
            Some(&self.bindings[index])
        } else {
            None
        }
    }

    /// Where the parser called `name` stands, if it is resolved.
    pub fn position_of_parser(&self, name: &str) -> (r: Option<usize>)
        requires
            self.wf(),
        ensures
            index_option(r) == parser_position(self@.bindings, name@),
    {
        let wanted = name.to_owned();
        let mut index: usize = 0;
        while index < self.bindings.len()
            invariant
                self.wf(),
                wanted@ == name@,
                index <= self.bindings.len(),
                forall|j: int| 0 <= j < index ==> names(self@.bindings)[j] != name@,
            decreases self.bindings.len() - index,
        {
            if self.bindings[index].is_named(&wanted) {
                proof {
                    lemma_index_of_distinct(names(self@.bindings), index as int);
                }
                return Some(index);
            }
            index = index + 1;
        }
        None
    }

    /// The parser called `name`, or `ParserNotLoaded`.
    pub fn find_parser(&self, name: &str) -> (r: Result<&ParserBinding<C>, RegistryError>)
        requires
            self.wf(),
        ensures
            match find_parser_in(self@, name@) {
                Ok(position) => r matches Ok(binding) && binding@ == self@.bindings[position],
                Err(expected) => r matches Err(error) && error@ == expected,
            },
    {
        match self.position_of_parser(name) {
            Some(index) => Ok(&self.bindings[index]),
            None => Err(
                RegistryError::ParserNotLoaded { name: name.to_owned(), path: self.path.clone() },
            ),
        }
    }

    /// Records what a symbol resolver said of `name`.
    ///
    /// A name that is bound already keeps its binding and `outcome` is
    /// dropped. Otherwise a callable is appended under the name, and a
    /// refusal comes back as `SymbolNotFound`.
    pub fn admit_parser(&mut self, name: &str, description: &str, outcome: Result<C, String>) -> (r:
        Result<usize, RegistryError>)
        requires
            old(self).wf(),
        ensures
            final(self).wf(),
            (final(self)@, index_result(r)) == admit_parser_spec(
                old(self)@,
                name@,
                description@,
                outcome_view(outcome),
            ),
    {
        match self.position_of_parser(name) {
            Some(index) => Ok(index),
            None => match outcome {
                Ok(callable) => {
                    let index = self.bindings.len();
                    self.bindings.push(
                        ParserBinding::new(name.to_owned(), description.to_owned(), callable),
                    );
                    proof {
                        assert(names(self@.bindings) =~= names(old(self)@.bindings).push(name@));
                        lemma_push_distinct(names(old(self)@.bindings), name@);
                    }
                    Ok(index)
                },
                Err(message) => Err(
                    RegistryError::SymbolNotFound {
                        name: name.to_owned(),
                        path: self.path.clone(),
                        message,
                    },
                ),
            },
        }
    }

    /// The parser called `name`, resolved now if it was not before.
    ///
    /// The resolver is called only for a name that has no binding yet, once,
    /// on the module and the name. What it hands back is recorded as
    /// `admit_parser` does.
    pub fn get_or_add_parser<G>(&mut self, name: &str, description: &str, resolver: G) -> (r: Result<
        usize,
        RegistryError,
    >) where G: FnOnce(&M, &str) -> Result<C, String>
        requires
            old(self).wf(),
            forall|symbol: &str|
                symbol@ == name@ && parser_position(old(self)@.bindings, name@) is None
                    ==> #[trigger] call_requires(resolver, (&old(self)@.module, symbol)),
        ensures
            final(self).wf(),
            resolved_by(old(self)@, name@, description@, resolver, final(self)@, index_result(r)),
    {
        match self.position_of_parser(name) {
            Some(index) => Ok(index),
            None => {
                assert(self@.module == self.module);
                let outcome = resolver(&self.module, name);
                self.admit_parser(name, description, outcome)
            },
        }
    }
}

} // verus!
