//! The exchange between the assembler and its collaborators.
//!
//! The assembler renders no module, resolves no template and generates no
//! entry code itself. Whenever it needs one of these it answers with a
//! [`Request`]; the host performs it, records the answer in [`Replies`] and
//! asks again. A render is therefore a function of the snapshot, the chunk
//! and the replies gathered so far.

use crate::error::{RenderError, RenderErrorView};
use crate::filename::{FilenameContext, FilenameContextView};
use crate::graph::{ChunkKey, ModuleKey};
use crate::source::{ChunkSource, StatementView};
use vstd::prelude::*;

verus! {

/// What a collaborator answered: the rendered text, or the message of its
/// error.
pub open spec fn reply_text(reply: Option<Result<String, String>>) -> Option<
    Result<Seq<char>, Seq<char>>,
> {
    match reply {
        None => None,
        Some(Ok(text)) => Some(Ok(text@)),
        Some(Err(message)) => Some(Err(message@)),
    }
}

/// The answers of the collaborators that were gathered so far for one
/// chunk's render. A field is `None` until its collaborator has answered.
#[derive(Clone, Debug, PartialEq, Eq)]
pub struct Replies {
    /// The module renderer's answer: the module table of the chunk.
    pub module_table: Option<Result<String, String>>,
    /// The runtime-module renderer's answer: the runtime-module table.
    pub runtime_table: Option<Result<String, String>>,
    /// The template engine's answer: the filename of the runtime chunk.
    pub runtime_filename: Option<Result<String, String>>,
    /// The entry-code generator's answer. This collaborator does not fail.
    pub entry_code: Option<String>,
}

/// The mathematical value of [`Replies`].
pub struct RepliesView {
    pub module_table: Option<Result<Seq<char>, Seq<char>>>,
    pub runtime_table: Option<Result<Seq<char>, Seq<char>>>,
    pub runtime_filename: Option<Result<Seq<char>, Seq<char>>>,
    pub entry_code: Option<Seq<char>>,
}

impl View for Replies {
    type V = RepliesView;

    open spec fn view(&self) -> RepliesView {
        RepliesView {
            module_table: reply_text(self.module_table),
            runtime_table: reply_text(self.runtime_table),
            runtime_filename: reply_text(self.runtime_filename),
            entry_code: crate::graph::optional_text(self.entry_code),
        }
    }
}

impl RepliesView {
    /// No collaborator has answered yet.
    pub open spec fn none() -> RepliesView {
        RepliesView {
            module_table: None,
            runtime_table: None,
            runtime_filename: None,
            entry_code: None,
        }
    }
}

impl Replies {
    /// The replies at the start of a render: none.
    pub fn new() -> (fresh: Replies)
        ensures
            fresh@ == RepliesView::none(),
    {
        Replies { module_table: None, runtime_table: None, runtime_filename: None, entry_code: None }
    }
}

/// What the assembler asks of a collaborator.
#[derive(Clone, Debug, PartialEq, Eq)]
pub enum Request {
    /// Render the module table of `chunk`.
    ModuleTable { chunk: ChunkKey },
    /// Render the table of the runtime modules that `chunk` hosts, in the
    /// order of `modules`.
    RuntimeModuleTable { chunk: ChunkKey, modules: Vec<ModuleKey> },
    /// Resolve `template` against `context`.
    RuntimeFilename { template: String, context: FilenameContext },
    /// Generate the code that evaluates the entry modules of `chunk`.
    EntryCode { chunk: ChunkKey },
}

/// The mathematical value of a [`Request`].
pub enum RequestView {
    ModuleTable { chunk: ChunkKey },
    RuntimeModuleTable { chunk: ChunkKey, modules: Seq<ModuleKey> },
    RuntimeFilename { template: Seq<char>, context: FilenameContextView },
    EntryCode { chunk: ChunkKey },
}

impl View for Request {
    type V = RequestView;

    open spec fn view(&self) -> RequestView {
        match self {
            Request::ModuleTable { chunk } => RequestView::ModuleTable { chunk: *chunk },
            Request::RuntimeModuleTable { chunk, modules } => RequestView::RuntimeModuleTable {
                chunk: *chunk,
                modules: modules@,
            },
            Request::RuntimeFilename { template, context } => RequestView::RuntimeFilename {
                template: template@,
                context: context@,
            },
            Request::EntryCode { chunk } => RequestView::EntryCode { chunk: *chunk },
        }
    }
}

/// Where a render stands.
#[derive(Clone, Debug, PartialEq, Eq)]
pub enum RenderStep {
    /// The render cannot go on before a collaborator has answered.
    Need(Request),
    /// The render is complete.
    Done(ChunkSource),
}

/// The mathematical value of a [`RenderStep`].
pub enum RenderStepView {
    Need(RequestView),
    Done(Seq<StatementView>),
}

impl View for RenderStep {
    type V = RenderStepView;

    open spec fn view(&self) -> RenderStepView {
        match self {
            RenderStep::Need(request) => RenderStepView::Need(request@),
            RenderStep::Done(source) => RenderStepView::Done(source@),
        }
    }
}

/// The mathematical value of what a render answers.
pub open spec fn outcome_view(outcome: Result<RenderStep, RenderError>) -> Result<
    RenderStepView,
    RenderErrorView,
> {
    match outcome {
        Ok(step) => Ok(step@),
        Err(error) => Err(error@),
    }
}

} // verus!
