//! Error types of the package graph, its typed views and the builders.

use vstd::prelude::*;

verus! {

/// What can go wrong while reading a package graph.
#[derive(Clone, Copy, Debug, PartialEq, Eq)]
pub enum SiPkgError {
    /// A node was resolved as one kind but holds another: expected, found.
    UnexpectedNodeKind(&'static str, &'static str),
    /// A node was projected as one typed view but holds another kind:
    /// expected, found.
    UnexpectedPkgNodeType(&'static str, &'static str),
}

/// The result of reading a package graph.
pub type PkgResult<T> = Result<T, SiPkgError>;

/// The mathematical content of a [`SiPkgError`].
pub enum SiPkgErrorView {
    UnexpectedNodeKind(Seq<char>, Seq<char>),
    UnexpectedPkgNodeType(Seq<char>, Seq<char>),
}

impl View for SiPkgError {
    type V = SiPkgErrorView;

    open spec fn view(&self) -> SiPkgErrorView {
        match *self {
            SiPkgError::UnexpectedNodeKind(expected, found) => SiPkgErrorView::UnexpectedNodeKind(
                expected@,
                found@,
            ),
            SiPkgError::UnexpectedPkgNodeType(expected, found) => {
                SiPkgErrorView::UnexpectedPkgNodeType(expected@, found@)
            },
        }
    }
}

impl SiPkgError {
    /// The kind that the caller asked for.
    pub fn expected(&self) -> (r: &'static str)
        ensures
            r@ == match self@ {
                SiPkgErrorView::UnexpectedNodeKind(expected, _) => expected,
                SiPkgErrorView::UnexpectedPkgNodeType(expected, _) => expected,
            },
    {
        match *self {
            SiPkgError::UnexpectedNodeKind(expected, _) => expected,
            SiPkgError::UnexpectedPkgNodeType(expected, _) => expected,
        }
    }

    /// The kind that the node holds.
    pub fn found(&self) -> (r: &'static str)
        ensures
            r@ == match self@ {
                SiPkgErrorView::UnexpectedNodeKind(_, found) => found,
                SiPkgErrorView::UnexpectedPkgNodeType(_, found) => found,
            },
    {
        match *self {
            SiPkgError::UnexpectedNodeKind(_, found) => found,
            SiPkgError::UnexpectedPkgNodeType(_, found) => found,
        }
    }
}

/// What can go wrong while a node's content is encoded for hashing.
#[derive(Clone, Copy, Debug, PartialEq, Eq)]
pub enum GraphError {
    /// A JSON value held by the node could not be serialized.
    JsonEncoding,
}

/// What can go wrong when a builder is finalized.
#[derive(Clone, Copy, Debug, PartialEq, Eq)]
pub enum SpecError {
    /// A required field was never set; the payload is the field's name.
    MissingField(&'static str),
}

impl SpecError {
    /// The name of the field that was missing.
    pub fn field(&self) -> (r: &'static str)
        ensures
            r@ == self.spec_field(),
    {
        match *self {
            SpecError::MissingField(name) => name,
        }
    }

    /// The name of the field that was missing, as a sequence of characters.
    pub open spec fn spec_field(&self) -> Seq<char> {
        match *self {
            SpecError::MissingField(name) => name@,
        }
    }
}

} // verus!
