//! A parser resolved in a library, and what running it yields.

use crate::error::{ErrorView, RegistryError};
use crate::model::BindingView;
use vstd::prelude::*;

verus! {

/// A parser resolved in a library: its exported name, the label given by
/// whoever resolved it first, and the callable itself.
///
/// The callable cannot be taken out. It is run through `invoke`, on a binding
/// borrowed from the entry that owns the module, so the module is there for
/// as long as the call lasts.
pub struct ParserBinding<C> {
    name: String,
    description: String,
    callable: C,
}

impl<C> View for ParserBinding<C> {
    type V = BindingView<C>;

    closed spec fn view(&self) -> BindingView<C> {
        BindingView { name: self.name@, description: self.description@, callable: self.callable }
    }
}

/// What a parser's own result becomes: the scopes as they came, or a
/// `ParseFailure` with the parser's message.
pub open spec fn parsed<S>(raw: Result<Vec<S>, String>, r: Result<Vec<S>, RegistryError>) -> bool {
    match raw {
        Ok(scopes) => r == Ok::<Vec<S>, RegistryError>(scopes),
        Err(message) => r matches Err(error) && error@ == (ErrorView::ParseFailure {
            message: message@,
        }),
    }
}

/// Turns what a parser handed back into the registry's own result.
pub fn parse_outcome<S>(raw: Result<Vec<S>, String>) -> (r: Result<Vec<S>, RegistryError>)
    ensures
        parsed(raw, r),
{
    match raw {
        Ok(scopes) => Ok(scopes),
        Err(message) => Err(RegistryError::ParseFailure { message }),
    }
}

impl<C> ParserBinding<C> {
    /// Binds `callable` under `name`.
    pub fn new(name: String, description: String, callable: C) -> (binding: Self)
        ensures
            binding@ == (BindingView { name: name@, description: description@, callable }),
    {
        ParserBinding { name, description, callable }
    }

    /// The exported name.
    pub fn name(&self) -> (name: &str)
        ensures
            name@ == self@.name,
    {
        self.name.as_str()
    }

    /// Whether the parser is exported under `name`.
    pub fn is_named(&self, name: &String) -> (same: bool)
        ensures
            same == (self@.name == name@),
    {
        self.name == *name
    }

    /// The label given when the parser was resolved.
    pub fn description(&self) -> (description: &str)
        ensures
            description@ == self@.description,
    {
        self.description.as_str()
    }

    /// Runs the parser on `input`.
    ///
    /// The callable is called once, on the input as it is: whether that is a
    /// text or the path of a file that the parser reads is between the caller
    /// and the parser. Scopes come back unchanged; a failure that the parser
    /// reports is a `ParseFailure` carrying the parser's message.
    pub fn invoke<S>(&self, input: &str) -> (r: Result<Vec<S>, RegistryError>) where
        C: Fn(&str) -> Result<Vec<S>, String>,

        requires
            forall|text: &str|
                text@ == input@ ==> #[trigger] call_requires(self@.callable, (text,)),
        ensures
            exists|text: &str, raw: Result<Vec<S>, String>|
                text@ == input@ && call_ensures(self@.callable, (text,), raw) && parsed(raw, r),
    {
        assert(call_requires(self@.callable, (input,)));
        let raw = (self.callable)(input);
        parse_outcome(raw)
    }
}

} // verus!
