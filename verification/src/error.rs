//! The errors of the registry and the text each one is reported with.

use vstd::prelude::*;

verus! {

/// Why a registry operation failed.
#[derive(Debug, Clone, PartialEq, Eq)]
pub enum RegistryError {
    /// The identifier has no file name component. `directory` tells a path
    /// that ends in a directory from one that names nothing at all.
    InvalidPath { path: String, directory: bool },
    /// Neither the path as given nor its platform form exists.
    NotFound { path: String },
    /// The loader rejected the file; `message` is the loader's own account.
    LoadFailure { path: String, message: String },
    /// No library is loaded under this path.
    NotLoaded { path: String },
    /// The library is loaded, but this parser was never resolved in it.
    ParserNotLoaded { name: String, path: String },
    /// The library exports no usable symbol of this name.
    SymbolNotFound { name: String, path: String, message: String },
    /// The parser ran and reported a failure of its own.
    ParseFailure { message: String },
}

/// A `RegistryError` with its strings as sequences of characters.
pub enum ErrorView {
    InvalidPath { path: Seq<char>, directory: bool },
    NotFound { path: Seq<char> },
    LoadFailure { path: Seq<char>, message: Seq<char> },
    NotLoaded { path: Seq<char> },
    ParserNotLoaded { name: Seq<char>, path: Seq<char> },
    SymbolNotFound { name: Seq<char>, path: Seq<char>, message: Seq<char> },
    ParseFailure { message: Seq<char> },
}

impl View for RegistryError {
    type V = ErrorView;

    open spec fn view(&self) -> ErrorView {
        match *self {
            RegistryError::InvalidPath { path, directory } => ErrorView::InvalidPath {
                path: path@,
                directory,
            },
            RegistryError::NotFound { path } => ErrorView::NotFound { path: path@ },
            RegistryError::LoadFailure { path, message } => ErrorView::LoadFailure {
                path: path@,
                message: message@,
            },
            RegistryError::NotLoaded { path } => ErrorView::NotLoaded { path: path@ },
            RegistryError::ParserNotLoaded { name, path } => ErrorView::ParserNotLoaded {
                name: name@,
                path: path@,
            },
            RegistryError::SymbolNotFound { name, path, message } => ErrorView::SymbolNotFound {
                name: name@,
                path: path@,
                message: message@,
            },
            RegistryError::ParseFailure { message } => ErrorView::ParseFailure { message: message@ },
        }
    }
}

/// The text an error is reported with.
pub open spec fn error_message(error: ErrorView) -> Seq<char> {
    match error {
        ErrorView::InvalidPath { path, directory } => if directory {
            "\""@ + path + "\" path is a directory!"@
        } else {
            "Not a valid path!"@
        },
        ErrorView::NotFound { path } => "\""@ + path
            + "\" either does not exist or one does not have permissions to access it!"@,
        ErrorView::LoadFailure { path, message } => path + ": "@ + message,
        ErrorView::NotLoaded { path } => path + ": not loaded"@,
        ErrorView::ParserNotLoaded { name, path } => name + ": not loaded on "@ + path,
        ErrorView::SymbolNotFound { name, path, message } => name + ": not found in "@ + path
            + ": "@ + message,
        ErrorView::ParseFailure { message } => message,
    }
}

impl RegistryError {
    /// Renders the error as one line of text.
    pub fn message(&self) -> (text: String)
        ensures
            text@ == error_message(self@),
    {
        match self {
            RegistryError::InvalidPath { path, directory } => {
                if *directory {
                    let mut text = "\"".to_owned();
                    text.append(path.as_str());
                    text.append("\" path is a directory!");
                    text
                } else {
                    "Not a valid path!".to_owned()
                }
            },
            RegistryError::NotFound { path } => {
                let mut text = "\"".to_owned();
                text.append(path.as_str());
                text.append(
                    "\" either does not exist or one does not have permissions to access it!",
                );
                text
            },
            RegistryError::LoadFailure { path, message } => {
                let mut text = path.clone();
                text.append(": ");
                text.append(message.as_str());
                text
            },
            RegistryError::NotLoaded { path } => {
                let mut text = path.clone();
                text.append(": not loaded");
                text
            },
            RegistryError::ParserNotLoaded { name, path } => {
                let mut text = name.clone();
                text.append(": not loaded on ");
                text.append(path.as_str());
                text
            },
            RegistryError::SymbolNotFound { name, path, message } => {
                let mut text = name.clone();
                text.append(": not found in ");
                text.append(path.as_str());
                text.append(": ");
                text.append(message.as_str());
                text
            },
            RegistryError::ParseFailure { message } => message.clone(),
        }
    }
}

} // verus!
