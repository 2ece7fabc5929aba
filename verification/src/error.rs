//! The ways in which resolving or rendering one chunk can fail.
//!
//! Every failure belongs to the chunk whose call reported it: it is returned
//! as a value, never raised, and says nothing about any other chunk.

use vstd::prelude::*;
use vstd::string::StringExecFns;

verus! {

/// What a lookup in the chunk graph did not find.
#[derive(Clone, Copy, Debug, PartialEq, Eq, Structural)]
pub enum Missing {
    /// The chunk that was to be resolved or rendered.
    Chunk,
    /// The chunk group that an entry module of the chunk belongs to.
    EntryPoint,
    /// The runtime chunk that the entry point designates.
    RuntimeChunk,
}

/// Why the runtime chunk of an entry chunk has no usable filename.
#[derive(Clone, Copy, Debug, PartialEq, Eq, Structural)]
pub enum LinkFault {
    /// The runtime chunk has no render hash.
    MissingHash,
    /// The resolved filename still holds a placeholder.
    UnresolvedPlaceholder,
}

/// A collaborator that rendering delegates to and that can fail.
#[derive(Clone, Copy, Debug, PartialEq, Eq, Structural)]
pub enum Collaborator {
    /// Renders the module table of a chunk.
    ModuleRenderer,
    /// Renders the runtime-module table of a chunk.
    RuntimeModuleRenderer,
    /// Resolves a filename template against a context.
    TemplateEngine,
}

/// A failure of one chunk's resolution or render.
#[derive(Clone, Debug, PartialEq, Eq)]
pub enum RenderError {
    /// The chunk graph is inconsistent: a reference did not resolve.
    GraphLookupFailure(Missing),
    /// The runtime chunk could not be given a filename to link to.
    UnresolvedRuntimeLink(LinkFault),
    /// A collaborator reported an error; its message is kept as it came.
    CollaboratorFailure(Collaborator, String),
}

/// The mathematical value of a [`RenderError`].
pub enum RenderErrorView {
    GraphLookupFailure(Missing),
    UnresolvedRuntimeLink(LinkFault),
    CollaboratorFailure(Collaborator, Seq<char>),
}

impl View for RenderError {
    type V = RenderErrorView;

    open spec fn view(&self) -> RenderErrorView {
        match self {
            RenderError::GraphLookupFailure(missing) => RenderErrorView::GraphLookupFailure(
                *missing,
            ),
            RenderError::UnresolvedRuntimeLink(fault) => RenderErrorView::UnresolvedRuntimeLink(
                *fault,
            ),
            RenderError::CollaboratorFailure(who, message) => RenderErrorView::CollaboratorFailure(
                *who,
                message@,
            ),
        }
    }
}

impl RenderErrorView {
    /// The text that describes the failure.
    pub open spec fn message(self) -> Seq<char> {
        match self {
            RenderErrorView::GraphLookupFailure(Missing::Chunk) => "chunk not found"@,
            RenderErrorView::GraphLookupFailure(Missing::EntryPoint) => "should has entry point"@,
            RenderErrorView::GraphLookupFailure(Missing::RuntimeChunk) => "should has runtime chunk"@,
            RenderErrorView::UnresolvedRuntimeLink(LinkFault::MissingHash) => "runtime chunk has no render hash"@,
            RenderErrorView::UnresolvedRuntimeLink(LinkFault::UnresolvedPlaceholder) => "runtime chunk filename has an unresolved placeholder"@,
            RenderErrorView::CollaboratorFailure(_, message) => message,
        }
    }
}

impl RenderError {
    /// The text that describes the failure. For a collaborator's failure it
    /// is the collaborator's own message.
    pub fn message(&self) -> (text: String)
        ensures
            text@ == self@.message(),
    {
        match self {
            RenderError::GraphLookupFailure(Missing::Chunk) => String::from_str("chunk not found"),
            RenderError::GraphLookupFailure(Missing::EntryPoint) => String::from_str(
                "should has entry point",
            ),
            RenderError::GraphLookupFailure(Missing::RuntimeChunk) => String::from_str(
                "should has runtime chunk",
            ),
            RenderError::UnresolvedRuntimeLink(LinkFault::MissingHash) => String::from_str(
                "runtime chunk has no render hash",
            ),
            RenderError::UnresolvedRuntimeLink(LinkFault::UnresolvedPlaceholder) => String::from_str(
                "runtime chunk filename has an unresolved placeholder",
            ),
            RenderError::CollaboratorFailure(_, message) => message.clone(),
        }
    }
}

} // verus!
