//! The CommonJS chunk format: which runtime requirements a chunk of this
//! format contributes, and how its artifact is assembled.
//!
//! A chunk is emitted as a CommonJS module that exposes its identifier, its
//! module table and, where it hosts runtime modules, their table. An entry
//! chunk whose runtime lives in another chunk goes on to load that chunk,
//! has it install the entry chunk's exports, and only then evaluates its
//! entry modules.

use crate::error::{Collaborator, LinkFault, Missing, RenderError, RenderErrorView};
use crate::filename::{
    build_runtime_filename_context, contains_placeholder, has_placeholder,
    runtime_filename_context, FilenameContextView,
};
use crate::graph::{
    lemma_entry_point_exists, lemma_entry_point_is_unique, ChunkKey, EntryModule, ModuleKey,
    Snapshot, SnapshotView,
};
use crate::render::{
    outcome_view, RenderStep, RenderStepView, Replies, RepliesView, Request, RequestView,
};
use crate::requirements::{RequirementAccumulator, RuntimeRequirement};
use crate::source::{
    lemma_source_text_push, source_text, ChunkSource, Statement, StatementKind, StatementView,
};
use vstd::prelude::*;

verus! {

/// The plugin that gives chunks the CommonJS chunk format.
#[derive(Debug)]
pub struct CommonJsChunkFormatPlugin {}

/// A copy of `keys`.
fn copy_keys(keys: &Vec<ModuleKey>) -> (copy: Vec<ModuleKey>)
    ensures
        copy@ == keys@,
{
    let mut copy: Vec<ModuleKey> = Vec::new();
    let mut i: usize = 0;
    while i < keys.len()
        invariant
            i <= keys@.len(),
            copy@ == keys@.take(i as int),
        decreases keys@.len() - i,
    {
        copy.push(keys[i]);
        assert(keys@.take(i as int).push(keys@[i as int]) =~= keys@.take(i + 1));
        i = i + 1;
    }
    assert(keys@.take(i as int) =~= keys@);
    copy
}

impl CommonJsChunkFormatPlugin {
    /// What this format contributes to the requirement set of `chunk`: the
    /// require capability and the capability to install a separately emitted
    /// chunk, where the chunk links to a runtime chunk, and nothing where it
    /// does not.
    pub open spec fn contribution(snapshot: SnapshotView, chunk: ChunkKey) -> Set<
        RuntimeRequirement,
    > {
        if snapshot.links_to_runtime(chunk) {
            Set::<RuntimeRequirement>::empty().insert(RuntimeRequirement::Require).insert(
                RuntimeRequirement::ExternalInstallChunk,
            )
        } else {
            Set::<RuntimeRequirement>::empty()
        }
    }

    /// What the template engine is asked to resolve the filename of the
    /// runtime chunk against, for an entry chunk that links to one. The
    /// format supplies no fallback name: a runtime chunk without a name has
    /// none in the context.
    pub open spec fn runtime_link(snapshot: SnapshotView, chunk: ChunkKey) -> Result<
        FilenameContextView,
        RenderErrorView,
    >
        recommends
            snapshot.links_to_runtime(chunk),
    {
        match snapshot.runtime_chunk_of(snapshot.chunk(chunk).entry_point()) {
            Err(error) => Err(error),
            Ok(runtime_chunk) => match runtime_filename_context(
                snapshot.chunk(runtime_chunk),
                None,
            ) {
                None => Err(RenderErrorView::UnresolvedRuntimeLink(LinkFault::MissingHash)),
                Some(context) => Ok(context),
            },
        }
    }

    /// Where the render of `chunk` stands once the statements of `head` have
    /// been emitted: what remains is the linking sequence, for a chunk that
    /// links to a runtime chunk, and nothing for any other.
    pub open spec fn linking(
        snapshot: SnapshotView,
        chunk: ChunkKey,
        replies: RepliesView,
        head: Seq<StatementView>,
    ) -> Result<RenderStepView, RenderErrorView> {
        if !snapshot.links_to_runtime(chunk) {
            Ok(RenderStepView::Done(head))
        } else {
            match Self::runtime_link(snapshot, chunk) {
                Err(error) => Err(error),
                Ok(context) => match replies.runtime_filename {
                    None => Ok(
                        RenderStepView::Need(
                            RequestView::RuntimeFilename {
                                template: snapshot.chunk_filename,
                                context,
                            },
                        ),
                    ),
                    Some(Err(message)) => Err(
                        RenderErrorView::CollaboratorFailure(Collaborator::TemplateEngine, message),
                    ),
                    Some(Ok(path)) => if has_placeholder(path) {
                        Err(
                            RenderErrorView::UnresolvedRuntimeLink(
                                LinkFault::UnresolvedPlaceholder,
                            ),
                        )
                    } else {
                        match replies.entry_code {
                            None => Ok(RenderStepView::Need(RequestView::EntryCode { chunk })),
                            Some(code) => Ok(
                                RenderStepView::Done(
                                    head.push(StatementView::load(path)).push(
                                        StatementView::install(),
                                    ).push(StatementView::execution(code)),
                                ),
                            ),
                        }
                    },
                },
            }
        }
    }

    /// Where the render of `chunk` stands with the replies gathered so far:
    /// the request that has to be answered next, the finished artifact, or
    /// the failure that ends the render.
    ///
    /// The steps are taken in the order of emission, and the first one that
    /// fails decides: the chunk lookup, the module table, the runtime-module
    /// table where the chunk hosts runtime modules, and then, for a chunk
    /// that links to a runtime chunk, the lookups of the link, the runtime
    /// chunk's filename and the entry code.
    pub open spec fn rendering(snapshot: SnapshotView, chunk: ChunkKey, replies: RepliesView)
        -> Result<RenderStepView, RenderErrorView> {
        if !snapshot.has_chunk(chunk) {
            Err(RenderErrorView::GraphLookupFailure(Missing::Chunk))
        } else {
            match replies.module_table {
                None => Ok(RenderStepView::Need(RequestView::ModuleTable { chunk })),
                Some(Err(message)) => Err(
                    RenderErrorView::CollaboratorFailure(Collaborator::ModuleRenderer, message),
                ),
                Some(Ok(modules)) => {
                    let head = seq![
                        StatementView::identifier_list(snapshot.chunk(chunk).id),
                        StatementView::module_table(modules),
                    ];
                    if snapshot.chunk(chunk).runtime_modules.len() == 0 {
                        Self::linking(snapshot, chunk, replies, head)
                    } else {
                        match replies.runtime_table {
                            None => Ok(
                                RenderStepView::Need(
                                    RequestView::RuntimeModuleTable {
                                        chunk,
                                        modules: snapshot.chunk(chunk).runtime_modules,
                                    },
                                ),
                            ),
                            Some(Err(message)) => Err(
                                RenderErrorView::CollaboratorFailure(
                                    Collaborator::RuntimeModuleRenderer,
                                    message,
                                ),
                            ),
                            Some(Ok(runtime)) => Self::linking(
                                snapshot,
                                chunk,
                                replies,
                                head.push(StatementView::runtime_table(runtime)),
                            ),
                        }
                    }
                },
            }
        }
    }

    /// The name that the plugin is registered under.
    pub fn name(&self) -> (name: &'static str)
        ensures
            name@ == "CommonJsChunkFormatPlugin"@,
    {
        "CommonJsChunkFormatPlugin"
    }

    /// Prepares the plugin for a compilation. The format needs no
    /// preparation: this succeeds and changes nothing.
    pub fn apply(&mut self) -> (outcome: Result<(), RenderError>)
        ensures
            outcome is Ok,
            *final(self) == *old(self),
    {
        Ok(())
    }

    /// Contributes this format's requirements for `chunk` to the set that the
    /// resolution pass accumulates.
    ///
    /// A chunk that hosts the runtime itself supplies its own machinery and a
    /// chunk without entry modules executes nothing, so neither gets
    /// anything. A chunk that is not in the snapshot is an inconsistency of
    /// the graph: it is reported, and the set is left as it was.
    pub fn additional_chunk_runtime_requirements(
        &self,
        snapshot: &Snapshot,
        chunk: ChunkKey,
        runtime_requirements: &mut RequirementAccumulator,
    ) -> (outcome: Result<(), RenderError>)
        ensures
            outcome is Ok <==> snapshot@.has_chunk(chunk),
            outcome is Ok ==> final(runtime_requirements)@ == old(runtime_requirements)@.union(
                Self::contribution(snapshot@, chunk),
            ),
            outcome matches Err(error) ==> error@ == RenderErrorView::GraphLookupFailure(
                Missing::Chunk,
            ) && final(runtime_requirements)@ == old(runtime_requirements)@,
            snapshot@.has_runtime(chunk) ==> final(runtime_requirements)@ == old(
                runtime_requirements,
            )@,
    {
        let found = match snapshot.chunk(chunk) {
            Some(found) => found,
            None => {
                return Err(RenderError::GraphLookupFailure(Missing::Chunk));
            },
        };

        if snapshot.has_runtime(chunk) {
            assert(runtime_requirements@.union(Self::contribution(snapshot@, chunk))
                =~= runtime_requirements@);
            return Ok(());
        }

        if found.number_of_entry_modules() > 0 {
            runtime_requirements.insert(RuntimeRequirement::Require);
            runtime_requirements.insert(RuntimeRequirement::ExternalInstallChunk);
            assert(runtime_requirements@ =~= old(runtime_requirements)@.union(
                Self::contribution(snapshot@, chunk),
            ));
        } else {
            assert(runtime_requirements@.union(Self::contribution(snapshot@, chunk))
                =~= runtime_requirements@);
        }

        Ok(())
    }

    /// Takes the render of `chunk` as far as the replies gathered so far
    /// allow.
    ///
    /// The answer is the request that a collaborator has to serve next, or
    /// the finished artifact, or the failure that ends this chunk's render.
    /// The snapshot is only read, so a failure here leaves the render of
    /// every other chunk untouched.
    pub fn render_chunk(&self, snapshot: &Snapshot, chunk: ChunkKey, replies: &Replies) -> (outcome:
        Result<RenderStep, RenderError>)
        ensures
            outcome_view(outcome) == Self::rendering(snapshot@, chunk, replies@),
    {
        let found = match snapshot.chunk(chunk) {
            Some(found) => found,
            None => {
                return Err(RenderError::GraphLookupFailure(Missing::Chunk));
            },
        };
        let mut statements: Vec<Statement> = Vec::new();
        statements.push(Statement::identifier_list(found.id.as_str()));

        let modules = match &replies.module_table {
            None => {
                return Ok(RenderStep::Need(Request::ModuleTable { chunk }));
            },
            Some(Err(message)) => {
                return Err(
                    RenderError::CollaboratorFailure(Collaborator::ModuleRenderer, message.clone()),
                );
            },
            Some(Ok(modules)) => modules,
        };
        statements.push(Statement::module_table(modules.as_str()));
        let ghost mut head = seq![
            StatementView::identifier_list(snapshot@.chunk(chunk).id),
            StatementView::module_table(modules@),
        ];
        assert(statement_views(statements@) =~= head);

        if found.runtime_modules.len() > 0 {
            let runtime = match &replies.runtime_table {
                None => {
                    return Ok(
                        RenderStep::Need(
                            Request::RuntimeModuleTable {
                                chunk,
                                modules: copy_keys(&found.runtime_modules),
                            },
                        ),
                    );
                },
                Some(Err(message)) => {
                    return Err(
                        RenderError::CollaboratorFailure(
                            Collaborator::RuntimeModuleRenderer,
                            message.clone(),
                        ),
                    );
                },
                Some(Ok(runtime)) => runtime,
            };
            statements.push(Statement::runtime_table(runtime.as_str()));
            proof {
                head = head.push(StatementView::runtime_table(runtime@));
            }
            assert(statement_views(statements@) =~= head);
        }
        assert(Self::rendering(snapshot@, chunk, replies@) == Self::linking(
            snapshot@,
            chunk,
            replies@,
            head,
        ));

        if let Some(entry_point) = found.entry_point() {
            if snapshot.has_runtime(chunk) {
                return Ok(RenderStep::Done(ChunkSource { statements }));
            }
            let runtime_chunk = match snapshot.runtime_chunk_of(entry_point) {
                Ok(key) => key,
                Err(error) => {
                    return Err(error);
                },
            };
            let context = match build_runtime_filename_context(
                &snapshot.chunks[runtime_chunk.0],
                None,
            ) {
                Ok(context) => context,
                Err(error) => {
                    return Err(error);
                },
            };
            let path = match &replies.runtime_filename {
                None => {
                    return Ok(
                        RenderStep::Need(
                            Request::RuntimeFilename {
                                template: snapshot.chunk_filename.clone(),
                                context,
                            },
                        ),
                    );
                },
                Some(Err(message)) => {
                    return Err(
                        RenderError::CollaboratorFailure(
                            Collaborator::TemplateEngine,
                            message.clone(),
                        ),
                    );
                },
                Some(Ok(path)) => path,
            };
            if contains_placeholder(path.as_str()) {
                return Err(RenderError::UnresolvedRuntimeLink(LinkFault::UnresolvedPlaceholder));
            }
            let code = match &replies.entry_code {
                None => {
                    return Ok(RenderStep::Need(Request::EntryCode { chunk }));
                },
                Some(code) => code,
            };
            statements.push(Statement::load(path.as_str()));
            statements.push(Statement::install());
            statements.push(Statement::execution(code.as_str()));
            assert(statement_views(statements@) =~= head.push(StatementView::load(path@)).push(
                StatementView::install(),
            ).push(StatementView::execution(code@)));
        }
        Ok(RenderStep::Done(ChunkSource { statements }))
    }
}

/// Whether a render did nothing towards a runtime link: it asked neither for
/// a filename nor for entry code, emitted no statement of the linking
/// sequence, and did not fail on anything that only a link needs.
pub open spec fn attempts_no_link(outcome: Result<RenderStepView, RenderErrorView>) -> bool {
    match outcome {
        Ok(RenderStepView::Need(request)) => request is ModuleTable || request
            is RuntimeModuleTable,
        Ok(RenderStepView::Done(statements)) => forall|i: int|
            0 <= i < statements.len() ==> !(#[trigger] statements[i]).kind.is_link(),
        Err(RenderErrorView::GraphLookupFailure(missing)) => missing == Missing::Chunk,
        Err(RenderErrorView::UnresolvedRuntimeLink(_)) => false,
        Err(RenderErrorView::CollaboratorFailure(who, _)) => who != Collaborator::TemplateEngine,
    }
}

/// Whether an artifact ends with the linking sequence and holds no other
/// statement of it: the load statement, then the install statement, then the
/// execution statement.
pub open spec fn ends_with_link(statements: Seq<StatementView>) -> bool {
    let n = statements.len() as int;
    &&& n >= 3
    &&& statements[n - 3].kind == StatementKind::Load
    &&& statements[n - 2].kind == StatementKind::Install
    &&& statements[n - 1].kind == StatementKind::Execution
    &&& forall|i: int| 0 <= i < n - 3 ==> !(#[trigger] statements[i]).kind.is_link()
}

/// Whether a collaborator has answered, and with a result.
pub open spec fn succeeded(reply: Option<Result<Seq<char>, Seq<char>>>) -> bool {
    reply is Some && reply->0 is Ok
}

/// Where in the text of an artifact its statement `index` begins.
pub open spec fn offset_of(statements: Seq<StatementView>, index: int) -> nat
    recommends
        0 <= index <= statements.len(),
{
    source_text(statements.take(index)).len()
}

/// A chunk that hosts the runtime contributes no requirement, and its render
/// attempts no runtime link, whatever the collaborators answer.
pub proof fn lemma_runtime_host_needs_no_link(
    snapshot: SnapshotView,
    chunk: ChunkKey,
    replies: RepliesView,
)
    requires
        snapshot.has_runtime(chunk),
    ensures
        CommonJsChunkFormatPlugin::contribution(snapshot, chunk) == Set::<
            RuntimeRequirement,
        >::empty(),
        attempts_no_link(CommonJsChunkFormatPlugin::rendering(snapshot, chunk, replies)),
{
}

/// The render of a chunk that hosts neither an entry module nor the runtime
/// attempts no runtime link, whatever the collaborators answer. The render
/// does not read requirement sets, so this holds whatever they contain; the
/// format itself contributes nothing to such a chunk's set.
pub proof fn lemma_chunk_without_entry_needs_no_link(
    snapshot: SnapshotView,
    chunk: ChunkKey,
    replies: RepliesView,
)
    requires
        snapshot.has_chunk(chunk),
        !snapshot.chunk(chunk).has_entry_module(),
        !snapshot.has_runtime(chunk),
    ensures
        CommonJsChunkFormatPlugin::contribution(snapshot, chunk) == Set::<
            RuntimeRequirement,
        >::empty(),
        attempts_no_link(CommonJsChunkFormatPlugin::rendering(snapshot, chunk, replies)),
{
}

/// For a chunk that hosts an entry module and not the runtime, the format
/// contributes exactly the require capability and the capability to install
/// a separately emitted chunk. Every finished artifact of such a chunk ends
/// with the linking sequence, and in its text the load statement begins
/// strictly before the install statement, which begins strictly before the
/// execution statement.
pub proof fn lemma_entry_chunk_links_in_order(
    snapshot: SnapshotView,
    chunk: ChunkKey,
    replies: RepliesView,
)
    requires
        snapshot.has_chunk(chunk),
        snapshot.chunk(chunk).has_entry_module(),
        !snapshot.has_runtime(chunk),
    ensures
        CommonJsChunkFormatPlugin::contribution(snapshot, chunk) =~= set![
            RuntimeRequirement::Require,
            RuntimeRequirement::ExternalInstallChunk,
        ],
        CommonJsChunkFormatPlugin::rendering(snapshot, chunk, replies) matches Ok(
            RenderStepView::Done(statements),
        ) ==> {
            let n = statements.len() as int;
            &&& ends_with_link(statements)
            &&& replies.runtime_filename matches Some(Ok(path)) && statements[n - 3]
                == StatementView::load(path)
            &&& statements[n - 2] == StatementView::install()
            &&& replies.entry_code matches Some(code) && statements[n - 1]
                == StatementView::execution(code)
            &&& offset_of(statements, n - 3) < offset_of(statements, n - 2) < offset_of(
                statements,
                n - 1,
            )
        },
{
    if let Ok(RenderStepView::Done(statements)) = CommonJsChunkFormatPlugin::rendering(
        snapshot,
        chunk,
        replies,
    ) {
        let n = statements.len() as int;
        lemma_source_text_push(statements.take(n - 3), statements[n - 3]);
        assert(statements.take(n - 3).push(statements[n - 3]) =~= statements.take(n - 2));
        lemma_source_text_push(statements.take(n - 2), statements[n - 2]);
        assert(statements.take(n - 2).push(statements[n - 2]) =~= statements.take(n - 1));
        reveal_strlit("\nvar ");
        reveal_strlit("\n");
    }
}

/// Rendering is a function of what the snapshot and the replies hold: two
/// renders of one chunk that agree on both end alike, statement for
/// statement and character for character.
pub proof fn lemma_render_is_deterministic(
    first: Snapshot,
    second: Snapshot,
    chunk: ChunkKey,
    first_replies: Replies,
    second_replies: Replies,
)
    requires
        first@ == second@,
        first_replies@ == second_replies@,
    ensures
        CommonJsChunkFormatPlugin::rendering(first@, chunk, first_replies@)
            == CommonJsChunkFormatPlugin::rendering(second@, chunk, second_replies@),
{
}

/// A failure planted in one chunk stays there. Where the entry modules of
/// `broken` are replaced by one that belongs to no chunk group, the render of
/// `broken` fails on that reference as soon as it gets to it, while the
/// render and the requirements of every other chunk are what they were.
pub proof fn lemma_lookup_failure_is_isolated(
    snapshot: SnapshotView,
    broken: ChunkKey,
    dangling: EntryModule,
    broken_replies: RepliesView,
    other: ChunkKey,
    other_replies: RepliesView,
)
    requires
        snapshot.has_chunk(broken),
        !snapshot.has_group(dangling.group),
        other != broken,
    ensures
        ({
            let damaged = snapshot.with_entry_modules(broken, seq![dangling]);
            &&& CommonJsChunkFormatPlugin::rendering(damaged, other, other_replies)
                == CommonJsChunkFormatPlugin::rendering(snapshot, other, other_replies)
            &&& CommonJsChunkFormatPlugin::contribution(damaged, other)
                == CommonJsChunkFormatPlugin::contribution(snapshot, other)
            &&& (!snapshot.has_runtime(broken) && succeeded(broken_replies.module_table) && (
            snapshot.chunk(broken).runtime_modules.len() > 0 ==> succeeded(
                broken_replies.runtime_table,
            )))
                ==> CommonJsChunkFormatPlugin::rendering(damaged, broken, broken_replies) == Err::<
                RenderStepView,
                RenderErrorView,
            >(RenderErrorView::GraphLookupFailure(Missing::EntryPoint))
        }),
{
    let damaged = snapshot.with_entry_modules(broken, seq![dangling]);
    assert(damaged.groups == snapshot.groups);
    assert(damaged.has_runtime(other) == snapshot.has_runtime(other));
    assert(damaged.has_runtime(broken) == snapshot.has_runtime(broken));
    assert(damaged.has_chunk(other) == snapshot.has_chunk(other));
    if snapshot.has_chunk(other) {
        assert(damaged.chunk(other) == snapshot.chunk(other));
        if snapshot.links_to_runtime(other) {
            let entry_point = snapshot.chunk(other).entry_point();
            assert(damaged.runtime_chunk_of(entry_point) == snapshot.runtime_chunk_of(entry_point));
            if let Ok(runtime_chunk) = snapshot.runtime_chunk_of(entry_point) {
                assert(runtime_filename_context(damaged.chunk(runtime_chunk), None)
                    == runtime_filename_context(snapshot.chunk(runtime_chunk), None));
            }
        }
    }
    assert(damaged.chunk(broken).entry_modules[0] == dangling);
    assert(damaged.chunk(broken).is_entry_point(dangling.group));
    lemma_entry_point_is_unique(damaged.chunk(broken), dangling.group);
}

/// In a consistent graph no render of a chunk of the graph fails on a
/// lookup.
pub proof fn lemma_consistent_graph_resolves(
    snapshot: SnapshotView,
    chunk: ChunkKey,
    replies: RepliesView,
)
    requires
        snapshot.consistent(),
        snapshot.has_chunk(chunk),
    ensures
        !(CommonJsChunkFormatPlugin::rendering(snapshot, chunk, replies) matches Err(
            RenderErrorView::GraphLookupFailure(_),
        )),
{
    if snapshot.links_to_runtime(chunk) {
        let hosted = snapshot.chunks[chunk.0 as int];
        lemma_entry_point_exists(hosted);
        let e = choose|e: int|
            0 <= e < hosted.entry_modules.len() && (#[trigger] hosted.entry_modules[e]).group
                == hosted.entry_point();
        assert(snapshot.runtime_chunk_of(hosted.entry_modules[e].group) is Ok);
    }
}

/// A render never asks twice: the reply that a request asks for is one that
/// has not been gathered yet.
pub proof fn lemma_request_is_unanswered(
    snapshot: SnapshotView,
    chunk: ChunkKey,
    replies: RepliesView,
)
    ensures
        match CommonJsChunkFormatPlugin::rendering(snapshot, chunk, replies) {
            Ok(RenderStepView::Need(RequestView::ModuleTable { .. })) => replies.module_table
                is None,
            Ok(RenderStepView::Need(RequestView::RuntimeModuleTable { .. })) => replies.runtime_table
                is None,
            Ok(RenderStepView::Need(RequestView::RuntimeFilename { .. })) => replies.runtime_filename
                is None,
            Ok(RenderStepView::Need(RequestView::EntryCode { .. })) => replies.entry_code is None,
            _ => true,
        },
{
}

/// The values of the statements of an artifact.
spec fn statement_views(statements: Seq<Statement>) -> Seq<StatementView> {
    Seq::new(statements.len(), |i: int| statements[i]@)
}

} // verus!
