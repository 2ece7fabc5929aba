//! The emitted artifact of one chunk: a sequence of statements whose texts,
//! concatenated in order, are the chunk's output.

use crate::requirements::RuntimeRequirement;
use vstd::prelude::*;
use vstd::string::StringExecFns;

verus! {

/// What a statement of a chunk's artifact is for.
#[derive(Clone, Copy, Debug, PartialEq, Eq, Structural)]
pub enum StatementKind {
    /// Exposes the identifiers of the chunk.
    IdentifierList,
    /// Exposes the module table of the chunk.
    ModuleTable,
    /// Exposes the runtime-module table of the chunk.
    RuntimeTable,
    /// Loads the runtime chunk and binds it to the name of the require
    /// capability.
    Load,
    /// Hands the chunk's exports to the runtime chunk for installation.
    Install,
    /// Evaluates the entry modules.
    Execution,
}

impl StatementKind {
    /// Whether the statement belongs to the linking sequence of an entry
    /// chunk.
    pub open spec fn is_link(self) -> bool {
        self == StatementKind::Load || self == StatementKind::Install || self
            == StatementKind::Execution
    }
}

/// One statement of a chunk's artifact.
#[derive(Clone, Debug, PartialEq, Eq)]
pub struct Statement {
    pub kind: StatementKind,
    pub text: String,
}

/// The mathematical value of a [`Statement`].
pub struct StatementView {
    pub kind: StatementKind,
    pub text: Seq<char>,
}

impl View for Statement {
    type V = StatementView;

    open spec fn view(&self) -> StatementView {
        StatementView { kind: self.kind, text: self.text@ }
    }
}

impl StatementView {
    /// The statement that exposes the chunk's identifier.
    pub open spec fn identifier_list(id: Seq<char>) -> StatementView {
        StatementView {
            kind: StatementKind::IdentifierList,
            text: "exports.ids = ['"@ + id + "'];\n"@,
        }
    }

    /// The statement that exposes the rendered module table.
    pub open spec fn module_table(table: Seq<char>) -> StatementView {
        StatementView {
            kind: StatementKind::ModuleTable,
            text: "exports.modules = "@ + table + ";\n"@,
        }
    }

    /// The statement that exposes the rendered runtime-module table.
    pub open spec fn runtime_table(table: Seq<char>) -> StatementView {
        StatementView {
            kind: StatementKind::RuntimeTable,
            text: "exports.runtime = "@ + table + ";\n"@,
        }
    }

    /// The statement that loads the runtime chunk from `path`, a path
    /// relative to the directory of the chunk that is being emitted.
    pub open spec fn load(path: Seq<char>) -> StatementView {
        StatementView {
            kind: StatementKind::Load,
            text: "\nvar "@ + RuntimeRequirement::Require.spec_name() + " = require('./"@ + path
                + "')"@,
        }
    }

    /// The statement that has the runtime chunk install this chunk.
    pub open spec fn install() -> StatementView {
        StatementView {
            kind: StatementKind::Install,
            text: "\n"@ + RuntimeRequirement::ExternalInstallChunk.spec_name() + "(exports)\n"@,
        }
    }

    /// The statement that evaluates the entry modules: the code that the
    /// entry-code generator produced.
    pub open spec fn execution(code: Seq<char>) -> StatementView {
        StatementView { kind: StatementKind::Execution, text: code }
    }
}

impl Statement {
    /// The statement that exposes the chunk's identifier.
    pub fn identifier_list(id: &str) -> (statement: Statement)
        ensures
            statement@ == StatementView::identifier_list(id@),
    {
        let mut text = String::from_str("exports.ids = ['");
        text.append(id);
        text.append("'];\n");
        Statement { kind: StatementKind::IdentifierList, text }
    }

    /// The statement that exposes the rendered module table.
    pub fn module_table(table: &str) -> (statement: Statement)
        ensures
            statement@ == StatementView::module_table(table@),
    {
        let mut text = String::from_str("exports.modules = ");
        text.append(table);
        text.append(";\n");
        Statement { kind: StatementKind::ModuleTable, text }
    }

    /// The statement that exposes the rendered runtime-module table.
    pub fn runtime_table(table: &str) -> (statement: Statement)
        ensures
            statement@ == StatementView::runtime_table(table@),
    {
        let mut text = String::from_str("exports.runtime = ");
        text.append(table);
        text.append(";\n");
        Statement { kind: StatementKind::RuntimeTable, text }
    }

    /// The statement that loads the runtime chunk from `path`.
    pub fn load(path: &str) -> (statement: Statement)
        ensures
            statement@ == StatementView::load(path@),
    {
        let mut text = String::from_str("\nvar ");
        text.append(RuntimeRequirement::Require.name());
        text.append(" = require('./");
        text.append(path);
        text.append("')");
        Statement { kind: StatementKind::Load, text }
    }

    /// The statement that has the runtime chunk install this chunk.
    pub fn install() -> (statement: Statement)
        ensures
            statement@ == StatementView::install(),
    {
        let mut text = String::from_str("\n");
        text.append(RuntimeRequirement::ExternalInstallChunk.name());
        text.append("(exports)\n");
        Statement { kind: StatementKind::Install, text }
    }

    /// The statement that evaluates the entry modules.
    pub fn execution(code: &str) -> (statement: Statement)
        ensures
            statement@ == StatementView::execution(code@),
    {
        Statement { kind: StatementKind::Execution, text: String::from_str(code) }
    }
}

/// The text of an artifact: the texts of its statements, one after the
/// other.
pub open spec fn source_text(statements: Seq<StatementView>) -> Seq<char>
    decreases statements.len(),
{
    if statements.len() == 0 {
        Seq::<char>::empty()
    } else {
        source_text(statements.drop_last()) + statements.last().text
    }
}

/// A statement added at the end adds its text at the end.
pub proof fn lemma_source_text_push(statements: Seq<StatementView>, last: StatementView)
    ensures
        source_text(statements.push(last)) == source_text(statements) + last.text,
{
    assert(statements.push(last).drop_last() =~= statements);
}

/// The artifact of one chunk.
#[derive(Clone, Debug, PartialEq, Eq)]
pub struct ChunkSource {
    pub statements: Vec<Statement>,
}

impl View for ChunkSource {
    type V = Seq<StatementView>;

    open spec fn view(&self) -> Seq<StatementView> {
        Seq::new(self.statements@.len(), |i: int| self.statements@[i]@)
    }
}

impl ChunkSource {
    /// The text of the artifact.
    pub fn text(&self) -> (text: String)
        ensures
            text@ == source_text(self@),
    {
        let mut text = String::new();
        let mut i: usize = 0;
        while i < self.statements.len()
            invariant
                i <= self.statements@.len(),
                text@ == source_text(self@.take(i as int)),
            decreases self.statements@.len() - i,
        {
            proof {
                lemma_source_text_push(self@.take(i as int), self@[i as int]);
                assert(self@.take(i as int).push(self@[i as int]) =~= self@.take(i + 1));
            }
            text.append(self.statements[i].text.as_str());
            i = i + 1;
        }
        assert(self@.take(i as int) =~= self@);
        text
    }
}

} // verus!
