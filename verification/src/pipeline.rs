//! The hook pipeline: how the registered extensions take part in the two
//! hooks of chunk output generation.
//!
//! The requirements hook asks every extension and unites what they
//! contribute. The render hook hands the chunk to the extension that renders
//! chunks. The extensions form a closed set, so both hooks are plain matches
//! over its variants.

use crate::common_js_chunk_format::CommonJsChunkFormatPlugin;
use crate::error::{Missing, RenderError, RenderErrorView};
use crate::graph::{ChunkKey, Snapshot, SnapshotView};
use crate::render::{RenderStep, RenderStepView, Replies, RepliesView};
use crate::requirements::{RequirementAccumulator, RuntimeRequirement, RuntimeRequirementSet};
use vstd::prelude::*;

verus! {

/// An extension that can be registered with the pipeline.
#[derive(Debug)]
pub enum Extension {
    /// The CommonJS chunk format: contributes requirements and renders
    /// chunks.
    ChunkFormat(CommonJsChunkFormatPlugin),
    /// Contributes the same requirements to every chunk and renders nothing.
    Contributor(RuntimeRequirementSet),
    /// Takes part in neither hook.
    Passive,
}

/// The mathematical value of an [`Extension`].
pub enum ExtensionView {
    ChunkFormat,
    Contributor(Set<RuntimeRequirement>),
    Passive,
}

impl View for Extension {
    type V = ExtensionView;

    open spec fn view(&self) -> ExtensionView {
        match self {
            Extension::ChunkFormat(_) => ExtensionView::ChunkFormat,
            Extension::Contributor(requirements) => ExtensionView::Contributor(requirements@),
            Extension::Passive => ExtensionView::Passive,
        }
    }
}

impl ExtensionView {
    /// What the extension contributes to the requirement set of `chunk`. It
    /// depends on the snapshot and the chunk alone, never on what others
    /// have contributed.
    pub open spec fn contribution(self, snapshot: SnapshotView, chunk: ChunkKey) -> Set<
        RuntimeRequirement,
    > {
        match self {
            ExtensionView::ChunkFormat => CommonJsChunkFormatPlugin::contribution(snapshot, chunk),
            ExtensionView::Contributor(requirements) => requirements,
            ExtensionView::Passive => Set::<RuntimeRequirement>::empty(),
        }
    }

    /// Whether the extension renders chunks.
    pub open spec fn renders(self) -> bool {
        self is ChunkFormat
    }
}

/// What the extensions contribute to the requirement set of `chunk`, taken
/// together: the union of their contributions.
pub open spec fn resolved(extensions: Seq<ExtensionView>, snapshot: SnapshotView, chunk: ChunkKey)
    -> Set<RuntimeRequirement> {
    Set::new(
        |requirement: RuntimeRequirement|
            exists|i: int|
                0 <= i < extensions.len() && (#[trigger] extensions[i]).contribution(
                    snapshot,
                    chunk,
                ).contains(requirement),
    )
}

/// Whether one of the extensions renders chunks.
pub open spec fn has_renderer(extensions: Seq<ExtensionView>) -> bool {
    exists|i: int| 0 <= i < extensions.len() && (#[trigger] extensions[i]).renders()
}

/// Where the render of `chunk` stands, as the render hook answers: `None`
/// where no extension renders chunks, and the answer of the chunk format
/// where one does.
pub open spec fn hook_rendering(
    extensions: Seq<ExtensionView>,
    snapshot: SnapshotView,
    chunk: ChunkKey,
    replies: RepliesView,
) -> Result<Option<RenderStepView>, RenderErrorView> {
    if !has_renderer(extensions) {
        Ok(None)
    } else {
        match CommonJsChunkFormatPlugin::rendering(snapshot, chunk, replies) {
            Ok(step) => Ok(Some(step)),
            Err(error) => Err(error),
        }
    }
}

/// The mathematical value of what the render hook answers.
pub open spec fn hook_outcome_view(outcome: Result<Option<RenderStep>, RenderError>) -> Result<
    Option<RenderStepView>,
    RenderErrorView,
> {
    match outcome {
        Ok(Some(step)) => Ok(Some(step@)),
        Ok(None) => Ok(None),
        Err(error) => Err(error@),
    }
}

/// The extensions of one compilation, in the order of their registration.
#[derive(Debug)]
pub struct HookPipeline {
    pub extensions: Vec<Extension>,
}

impl View for HookPipeline {
    type V = Seq<ExtensionView>;

    open spec fn view(&self) -> Seq<ExtensionView> {
        Seq::new(self.extensions@.len(), |i: int| self.extensions@[i]@)
    }
}

/// One more extension contributes what the others did, and its own.
proof fn lemma_resolved_push(
    extensions: Seq<ExtensionView>,
    last: ExtensionView,
    snapshot: SnapshotView,
    chunk: ChunkKey,
)
    ensures
        resolved(extensions.push(last), snapshot, chunk) == resolved(
            extensions,
            snapshot,
            chunk,
        ).union(last.contribution(snapshot, chunk)),
{
    let longer = extensions.push(last);
    assert forall|requirement: RuntimeRequirement|
        resolved(longer, snapshot, chunk).contains(requirement) <==> resolved(
            extensions,
            snapshot,
            chunk,
        ).union(last.contribution(snapshot, chunk)).contains(requirement) by {
        if resolved(longer, snapshot, chunk).contains(requirement) {
            let i = choose|i: int|
                0 <= i < longer.len() && (#[trigger] longer[i]).contribution(
                    snapshot,
                    chunk,
                ).contains(requirement);
            if i < extensions.len() {
                assert(extensions[i] == longer[i]);
            }
        }
        if resolved(extensions, snapshot, chunk).contains(requirement) {
            let i = choose|i: int|
                0 <= i < extensions.len() && (#[trigger] extensions[i]).contribution(
                    snapshot,
                    chunk,
                ).contains(requirement);
            assert(longer[i] == extensions[i]);
        }
        if last.contribution(snapshot, chunk).contains(requirement) {
            assert(longer[extensions.len() as int] == last);
        }
    }
    assert(resolved(longer, snapshot, chunk) =~= resolved(extensions, snapshot, chunk).union(
        last.contribution(snapshot, chunk),
    ));
}

impl HookPipeline {
    /// The requirements hook for one chunk: every extension contributes, and
    /// the set takes up the union of the contributions.
    ///
    /// A chunk that is not in the snapshot is an inconsistency of the graph.
    /// It is reported before any extension is asked, and the set is left as
    /// it was.
    pub fn additional_chunk_runtime_requirements(
        &self,
        snapshot: &Snapshot,
        chunk: ChunkKey,
        runtime_requirements: &mut RequirementAccumulator,
    ) -> (outcome: Result<(), RenderError>)
        ensures
            outcome is Ok <==> snapshot@.has_chunk(chunk),
            outcome is Ok ==> final(runtime_requirements)@ == old(runtime_requirements)@.union(
                resolved(self@, snapshot@, chunk),
            ),
            outcome matches Err(error) ==> error@ == RenderErrorView::GraphLookupFailure(
                Missing::Chunk,
            ) && final(runtime_requirements)@ == old(runtime_requirements)@,
            old(runtime_requirements)@.subset_of(final(runtime_requirements)@),
    {
        if snapshot.chunk(chunk).is_none() {
            return Err(RenderError::GraphLookupFailure(Missing::Chunk));
        }
        assert(resolved(self@.take(0), snapshot@, chunk) =~= Set::<RuntimeRequirement>::empty());
        assert(runtime_requirements@.union(Set::<RuntimeRequirement>::empty())
            =~= runtime_requirements@);
        let mut i: usize = 0;
        while i < self.extensions.len()
            invariant
                i <= self.extensions@.len(),
                snapshot@.has_chunk(chunk),
                runtime_requirements@ == old(runtime_requirements)@.union(
                    resolved(self@.take(i as int), snapshot@, chunk),
                ),
            decreases self.extensions@.len() - i,
        {
            proof {
                lemma_resolved_push(self@.take(i as int), self@[i as int], snapshot@, chunk);
                assert(self@.take(i as int).push(self@[i as int]) =~= self@.take(i + 1));
            }
            let ghost before = runtime_requirements@;
            match &self.extensions[i] {
                Extension::ChunkFormat(plugin) => {
                    let _ = plugin.additional_chunk_runtime_requirements(
                        snapshot,
                        chunk,
                        runtime_requirements,
                    );
                },
                Extension::Contributor(requirements) => {
                    runtime_requirements.absorb(requirements);
                },
                Extension::Passive => {
                    assert(before.union(Set::<RuntimeRequirement>::empty()) =~= before);
                },
            }
            assert(runtime_requirements@ =~= old(runtime_requirements)@.union(
                resolved(self@.take(i + 1), snapshot@, chunk),
            ));
            i = i + 1;
        }
        assert(self@.take(i as int) =~= self@);
        Ok(())
    }

    /// The resolution pass: the final requirement set of every chunk of the
    /// snapshot, frozen, at the position of the chunk's key.
    pub fn resolve_all(&self, snapshot: &Snapshot) -> (sets: Vec<RuntimeRequirementSet>)
        ensures
            sets@.len() == snapshot@.chunks.len(),
            forall|c: int|
                0 <= c < sets@.len() ==> (#[trigger] sets@[c])@ == resolved(
                    self@,
                    snapshot@,
                    ChunkKey(c as usize),
                ),
    {
        let mut sets: Vec<RuntimeRequirementSet> = Vec::new();
        let mut c: usize = 0;
        while c < snapshot.chunks.len()
            invariant
                c <= snapshot@.chunks.len(),
                sets@.len() == c,
                forall|k: int|
                    0 <= k < c ==> (#[trigger] sets@[k])@ == resolved(
                        self@,
                        snapshot@,
                        ChunkKey(k as usize),
                    ),
            decreases snapshot@.chunks.len() - c,
        {
            let mut accumulator = RequirementAccumulator::new();
            let _ = self.additional_chunk_runtime_requirements(
                snapshot,
                ChunkKey(c),
                &mut accumulator,
            );
            assert(accumulator@ =~= resolved(self@, snapshot@, ChunkKey(c)));
            sets.push(accumulator.freeze());
            c = c + 1;
        }
        sets
    }

    /// The render hook for one chunk: `None` where no extension renders
    /// chunks, and else where the render of the chunk stands.
    pub fn render_chunk(&self, snapshot: &Snapshot, chunk: ChunkKey, replies: &Replies) -> (outcome:
        Result<Option<RenderStep>, RenderError>)
        ensures
            hook_outcome_view(outcome) == hook_rendering(self@, snapshot@, chunk, replies@),
    {
        let mut i: usize = 0;
        while i < self.extensions.len()
            invariant
                i <= self.extensions@.len(),
                forall|k: int| 0 <= k < i ==> !(#[trigger] self@[k]).renders(),
            decreases self.extensions@.len() - i,
        {
            match &self.extensions[i] {
                Extension::ChunkFormat(plugin) => {
                    assert(self@[i as int].renders());
                    return match plugin.render_chunk(snapshot, chunk, replies) {
                        Ok(step) => Ok(Some(step)),
                        Err(error) => Err(error),
                    };
                },
                _ => {},
            }
            i = i + 1;
        }
        Ok(None)
    }
}

/// Two sequences that hold the same items, in whatever order, have the same
/// members.
proof fn lemma_same_members(
    first: Seq<ExtensionView>,
    second: Seq<ExtensionView>,
    member: ExtensionView,
)
    requires
        first.to_multiset() == second.to_multiset(),
        first.contains(member),
    ensures
        second.contains(member),
{
    first.to_multiset_ensures();
    second.to_multiset_ensures();
    assert(first.to_multiset().count(member) > 0);
    assert(second.to_multiset().count(member) > 0);
}

/// The order in which the extensions are asked does not matter: two
/// pipelines that hold the same extensions, in whatever order, resolve every
/// chunk to the same requirement set.
pub proof fn lemma_resolution_is_order_independent(
    first: Seq<ExtensionView>,
    second: Seq<ExtensionView>,
    snapshot: SnapshotView,
    chunk: ChunkKey,
)
    requires
        first.to_multiset() == second.to_multiset(),
    ensures
        resolved(first, snapshot, chunk) == resolved(second, snapshot, chunk),
{
    assert forall|requirement: RuntimeRequirement|
        resolved(first, snapshot, chunk).contains(requirement) <==> resolved(
            second,
            snapshot,
            chunk,
        ).contains(requirement) by {
        if resolved(first, snapshot, chunk).contains(requirement) {
            let i = choose|i: int|
                0 <= i < first.len() && (#[trigger] first[i]).contribution(
                    snapshot,
                    chunk,
                ).contains(requirement);
            assert(first.contains(first[i]));
            lemma_same_members(first, second, first[i]);
            let j = choose|j: int| 0 <= j < second.len() && second[j] == first[i];
            assert(second[j].contribution(snapshot, chunk).contains(requirement));
        }
        if resolved(second, snapshot, chunk).contains(requirement) {
            let j = choose|j: int|
                0 <= j < second.len() && (#[trigger] second[j]).contribution(
                    snapshot,
                    chunk,
                ).contains(requirement);
            assert(second.contains(second[j]));
            lemma_same_members(second, first, second[j]);
            let i = choose|i: int| 0 <= i < first.len() && first[i] == second[j];
            assert(first[i].contribution(snapshot, chunk).contains(requirement));
        }
    }
    assert(resolved(first, snapshot, chunk) =~= resolved(second, snapshot, chunk));
}

/// Resolving is idempotent: a set that has taken up the contributions once
/// is not changed by taking them up again.
pub proof fn lemma_resolution_is_idempotent(
    extensions: Seq<ExtensionView>,
    snapshot: SnapshotView,
    chunk: ChunkKey,
    before: Set<RuntimeRequirement>,
)
    ensures
        before.union(resolved(extensions, snapshot, chunk)).union(
            resolved(extensions, snapshot, chunk),
        ) == before.union(resolved(extensions, snapshot, chunk)),
{
    assert(before.union(resolved(extensions, snapshot, chunk)).union(
        resolved(extensions, snapshot, chunk),
    ) =~= before.union(resolved(extensions, snapshot, chunk)));
}

/// Where the chunk format is registered, a chunk that hosts an entry module
/// and not the runtime ends up with the require capability and the
/// capability to install a separately emitted chunk, whatever else the
/// other extensions add.
pub proof fn lemma_entry_chunk_requirements_are_resolved(
    extensions: Seq<ExtensionView>,
    at: int,
    snapshot: SnapshotView,
    chunk: ChunkKey,
)
    requires
        0 <= at < extensions.len(),
        extensions[at] is ChunkFormat,
        snapshot.links_to_runtime(chunk),
    ensures
        resolved(extensions, snapshot, chunk).contains(RuntimeRequirement::Require),
        resolved(extensions, snapshot, chunk).contains(RuntimeRequirement::ExternalInstallChunk),
{
    assert(extensions[at].contribution(snapshot, chunk).contains(RuntimeRequirement::Require));
    assert(extensions[at].contribution(snapshot, chunk).contains(
        RuntimeRequirement::ExternalInstallChunk,
    ));
}

/// The render hook does not depend on the order of registration either: only
/// one format renders chunks, so two pipelines that hold the same extensions
/// answer alike.
pub proof fn lemma_render_hook_is_order_independent(
    first: Seq<ExtensionView>,
    second: Seq<ExtensionView>,
    snapshot: SnapshotView,
    chunk: ChunkKey,
    replies: RepliesView,
)
    requires
        first.to_multiset() == second.to_multiset(),
    ensures
        hook_rendering(first, snapshot, chunk, replies) == hook_rendering(
            second,
            snapshot,
            chunk,
            replies,
        ),
{
    if has_renderer(first) {
        let i = choose|i: int| 0 <= i < first.len() && (#[trigger] first[i]).renders();
        assert(first.contains(first[i]));
        lemma_same_members(first, second, first[i]);
        let j = choose|j: int| 0 <= j < second.len() && second[j] == first[i];
        assert(second[j].renders());
    }
    if has_renderer(second) {
        let j = choose|j: int| 0 <= j < second.len() && (#[trigger] second[j]).renders();
        assert(second.contains(second[j]));
        lemma_same_members(second, first, second[j]);
        let i = choose|i: int| 0 <= i < first.len() && first[i] == second[j];
        assert(first[i].renders());
    }
}

} // verus!
