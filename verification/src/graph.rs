//! The chunk graph snapshot: the read-only view of chunks and chunk groups
//! that requirement resolution and assembly work against.
//!
//! Chunks and chunk groups live in two flat tables. Every cross-reference is
//! a key into one of them, so a reference can dangle: a lookup answers with
//! `None` then, and the caller reports the inconsistency.

use crate::error::{Missing, RenderError, RenderErrorView};
use vstd::prelude::*;

verus! {

/// The key of a chunk: its position in the snapshot's chunk table.
#[derive(Clone, Copy, Debug, PartialEq, Eq, Hash, Structural)]
pub struct ChunkKey(pub usize);

/// The key of a chunk group: its position in the snapshot's group table.
/// Groups are kept in the order of their registration, so the smaller key
/// belongs to the group that was registered earlier.
#[derive(Clone, Copy, Debug, PartialEq, Eq, Hash, Structural)]
pub struct GroupKey(pub usize);

/// The key of a module or of a runtime module.
#[derive(Clone, Copy, Debug, PartialEq, Eq, Hash, Structural)]
pub struct ModuleKey(pub usize);

/// An entry module of a chunk, with the chunk group that owns it.
#[derive(Clone, Copy, Debug, PartialEq, Eq, Structural)]
pub struct EntryModule {
    pub module: ModuleKey,
    pub group: GroupKey,
}

/// One unit of output.
#[derive(Clone, Debug, PartialEq, Eq)]
pub struct Chunk {
    /// The identifier that emitted code knows the chunk by.
    pub id: String,
    /// The human name, if the chunk has one.
    pub name: Option<String>,
    /// The modules that the chunk owns.
    pub modules: Vec<ModuleKey>,
    /// The runtime modules that the chunk hosts, in the order in which they
    /// were registered, which is the order in which they are emitted.
    pub runtime_modules: Vec<ModuleKey>,
    /// The entry modules that the chunk hosts, each with its chunk group.
    pub entry_modules: Vec<EntryModule>,
    /// The content hash of this render pass, once it has been computed.
    pub render_hash: Option<String>,
}

/// The mathematical value of a [`Chunk`].
pub struct ChunkView {
    pub id: Seq<char>,
    pub name: Option<Seq<char>>,
    pub modules: Seq<ModuleKey>,
    pub runtime_modules: Seq<ModuleKey>,
    pub entry_modules: Seq<EntryModule>,
    pub render_hash: Option<Seq<char>>,
}

/// The text of an optional string.
pub open spec fn optional_text(text: Option<String>) -> Option<Seq<char>> {
    match text {
        Some(t) => Some(t@),
        None => None,
    }
}

impl View for Chunk {
    type V = ChunkView;

    open spec fn view(&self) -> ChunkView {
        ChunkView {
            id: self.id@,
            name: optional_text(self.name),
            modules: self.modules@,
            runtime_modules: self.runtime_modules@,
            entry_modules: self.entry_modules@,
            render_hash: optional_text(self.render_hash),
        }
    }
}

/// Whether `group` is the earliest chunk group among the owners of the first
/// `upto` entry modules: it owns one of them, and none of them belongs to a
/// group with a smaller key.
pub open spec fn earliest_among(entries: Seq<EntryModule>, upto: int, group: GroupKey) -> bool {
    &&& exists|e: int| 0 <= e < upto && (#[trigger] entries[e]).group == group
    &&& forall|e: int| 0 <= e < upto ==> group.0 <= (#[trigger] entries[e]).group.0
}

impl ChunkView {
    /// Whether the chunk hosts an entry module.
    pub open spec fn has_entry_module(self) -> bool {
        self.entry_modules.len() > 0
    }

    /// Whether `group` is the entry point of the chunk: of the chunk groups
    /// that own its entry modules, the one that was registered first.
    pub open spec fn is_entry_point(self, group: GroupKey) -> bool {
        earliest_among(self.entry_modules, self.entry_modules.len() as int, group)
    }

    /// The entry point of a chunk that hosts an entry module.
    pub open spec fn entry_point(self) -> GroupKey
        recommends
            self.has_entry_module(),
    {
        choose|group: GroupKey| self.is_entry_point(group)
    }
}

/// Among the owners of any entry modules there is an earliest chunk group.
proof fn lemma_earliest_exists(entries: Seq<EntryModule>, upto: int)
    requires
        0 < upto <= entries.len(),
    ensures
        exists|group: GroupKey| earliest_among(entries, upto, group),
    decreases upto,
{
    if upto == 1 {
        assert(earliest_among(entries, upto, entries[0].group));
    } else {
        let shorter = upto - 1;
        lemma_earliest_exists(entries, shorter);
        let before = choose|group: GroupKey| earliest_among(entries, shorter, group);
        let last = entries[shorter].group;
        if last.0 < before.0 {
            assert(earliest_among(entries, upto, last));
        } else {
            let e = choose|e: int| 0 <= e < shorter && (#[trigger] entries[e]).group == before;
            assert(entries[e].group == before);
            assert(earliest_among(entries, upto, before));
        }
    }
}

/// A chunk that hosts an entry module has an entry point.
pub proof fn lemma_entry_point_exists(chunk: ChunkView)
    requires
        chunk.has_entry_module(),
    ensures
        chunk.is_entry_point(chunk.entry_point()),
{
    let n = chunk.entry_modules.len() as int;
    lemma_earliest_exists(chunk.entry_modules, n);
    let earliest = choose|group: GroupKey| earliest_among(chunk.entry_modules, n, group);
    assert(chunk.is_entry_point(earliest));
}

/// A chunk has no more than one entry point.
pub proof fn lemma_entry_point_is_unique(chunk: ChunkView, group: GroupKey)
    requires
        chunk.is_entry_point(group),
    ensures
        chunk.entry_point() == group,
{
    let chosen = chunk.entry_point();
    assert(chunk.is_entry_point(chosen));
    let n = chunk.entry_modules.len() as int;
    let e = choose|e: int| 0 <= e < n && (#[trigger] chunk.entry_modules[e]).group == group;
    let f = choose|f: int| 0 <= f < n && (#[trigger] chunk.entry_modules[f]).group == chosen;
    assert(chosen.0 <= chunk.entry_modules[e].group.0);
    assert(group.0 <= chunk.entry_modules[f].group.0);
}

impl Chunk {
    /// How many entry modules the chunk hosts.
    pub fn number_of_entry_modules(&self) -> (count: usize)
        ensures
            count == self@.entry_modules.len(),
    {
        self.entry_modules.len()
    }

    /// Whether the chunk hosts an entry module.
    pub fn has_entry_module(&self) -> (hosts: bool)
        ensures
            hosts == self@.has_entry_module(),
    {
        self.entry_modules.len() > 0
    }

    /// The chunk group that decides which runtime chunk an entry chunk links
    /// to. Where the entry modules of one chunk belong to several groups,
    /// the group that was registered first is taken, whatever the order of
    /// the entry modules.
    pub fn entry_point(&self) -> (group: Option<GroupKey>)
        ensures
            group is Some <==> self@.has_entry_module(),
            group matches Some(g) ==> self@.is_entry_point(g) && g == self@.entry_point(),
    {
        if self.entry_modules.len() == 0 {
            return None;
        }
        let mut earliest = self.entry_modules[0].group;
        let mut e: usize = 1;
        while e < self.entry_modules.len()
            invariant
                1 <= e <= self.entry_modules@.len(),
                earliest_among(self.entry_modules@, e as int, earliest),
            decreases self.entry_modules@.len() - e,
        {
            let ghost before = earliest;
            if self.entry_modules[e].group.0 < earliest.0 {
                earliest = self.entry_modules[e].group;
            }
            proof {
                if earliest == before {
                    let at = choose|at: int|
                        0 <= at < e && (#[trigger] self.entry_modules@[at]).group == before;
                    assert(self.entry_modules@[at].group == earliest);
                } else {
                    assert(self.entry_modules@[e as int].group == earliest);
                }
            }
            e = e + 1;
        }
        proof {
            lemma_entry_point_is_unique(self@, earliest);
        }
        Some(earliest)
    }
}

/// One load unit: an ordered sequence of chunks and the chunk that hosts
/// their runtime.
#[derive(Clone, Debug, PartialEq, Eq)]
pub struct ChunkGroup {
    /// The member chunks, in load order.
    pub chunks: Vec<ChunkKey>,
    /// The runtime chunk of the group. It need not be one of the members.
    pub runtime_chunk: ChunkKey,
}

/// The mathematical value of a [`ChunkGroup`].
pub struct ChunkGroupView {
    pub chunks: Seq<ChunkKey>,
    pub runtime_chunk: ChunkKey,
}

impl View for ChunkGroup {
    type V = ChunkGroupView;

    open spec fn view(&self) -> ChunkGroupView {
        ChunkGroupView { chunks: self.chunks@, runtime_chunk: self.runtime_chunk }
    }
}

/// What one render pass reads: the chunk table, the chunk-group table and
/// the filename template of emitted chunks.
#[derive(Clone, Debug, PartialEq, Eq)]
pub struct Snapshot {
    pub chunks: Vec<Chunk>,
    pub groups: Vec<ChunkGroup>,
    /// The template that a chunk's output filename is resolved from.
    pub chunk_filename: String,
}

/// The mathematical value of a [`Snapshot`].
pub struct SnapshotView {
    pub chunks: Seq<ChunkView>,
    pub groups: Seq<ChunkGroupView>,
    pub chunk_filename: Seq<char>,
}

impl View for Snapshot {
    type V = SnapshotView;

    open spec fn view(&self) -> SnapshotView {
        SnapshotView {
            chunks: Seq::new(self.chunks@.len(), |i: int| self.chunks@[i]@),
            groups: Seq::new(self.groups@.len(), |i: int| self.groups@[i]@),
            chunk_filename: self.chunk_filename@,
        }
    }
}

impl SnapshotView {
    /// Whether `key` resolves to a chunk.
    pub open spec fn has_chunk(self, key: ChunkKey) -> bool {
        key.0 < self.chunks.len()
    }

    /// The chunk that `key` resolves to.
    pub open spec fn chunk(self, key: ChunkKey) -> ChunkView
        recommends
            self.has_chunk(key),
    {
        self.chunks[key.0 as int]
    }

    /// Whether `key` resolves to a chunk group.
    pub open spec fn has_group(self, key: GroupKey) -> bool {
        key.0 < self.groups.len()
    }

    /// The chunk group that `key` resolves to.
    pub open spec fn group(self, key: GroupKey) -> ChunkGroupView
        recommends
            self.has_group(key),
    {
        self.groups[key.0 as int]
    }

    /// Whether the chunk was selected to host the runtime of at least one
    /// chunk group.
    pub open spec fn has_runtime(self, key: ChunkKey) -> bool {
        exists|g: int| 0 <= g < self.groups.len() && (#[trigger] self.groups[g]).runtime_chunk == key
    }

    /// Whether the chunk must load a separately emitted runtime chunk before
    /// it executes: it hosts an entry module and is not itself a runtime
    /// chunk.
    pub open spec fn links_to_runtime(self, key: ChunkKey) -> bool {
        &&& self.has_chunk(key)
        &&& !self.has_runtime(key)
        &&& self.chunk(key).has_entry_module()
    }

    /// The runtime chunk that the chunks of `entry_point` link to. The entry
    /// point may not resolve, and neither may the runtime chunk that it
    /// designates.
    pub open spec fn runtime_chunk_of(self, entry_point: GroupKey) -> Result<
        ChunkKey,
        RenderErrorView,
    > {
        if !self.has_group(entry_point) {
            Err(RenderErrorView::GraphLookupFailure(Missing::EntryPoint))
        } else if !self.has_chunk(self.group(entry_point).runtime_chunk) {
            Err(RenderErrorView::GraphLookupFailure(Missing::RuntimeChunk))
        } else {
            Ok(self.group(entry_point).runtime_chunk)
        }
    }

    /// This snapshot with the entry modules of the chunk `at` replaced by
    /// `entries`, and nothing else changed.
    pub open spec fn with_entry_modules(self, at: ChunkKey, entries: Seq<EntryModule>) -> SnapshotView
        recommends
            self.has_chunk(at),
    {
        SnapshotView {
            chunks: self.chunks.update(
                at.0 as int,
                ChunkView { entry_modules: entries, ..self.chunks[at.0 as int] },
            ),
            ..self
        }
    }

    /// The invariant of a graph that was built correctly: the chunk group of
    /// every entry module resolves, and so does that group's runtime chunk.
    pub open spec fn consistent(self) -> bool {
        forall|c: int, e: int|
            0 <= c < self.chunks.len() && 0 <= e < self.chunks[c].entry_modules.len()
                ==> self.runtime_chunk_of((#[trigger] self.chunks[c].entry_modules[e]).group)
                is Ok
    }
}

impl Snapshot {
    /// Looks a chunk up by its key.
    pub fn chunk(&self, key: ChunkKey) -> (found: Option<&Chunk>)
        ensures
            found is Some <==> self@.has_chunk(key),
            found matches Some(chunk) ==> chunk@ == self@.chunk(key),
    {
        if key.0 < self.chunks.len() {
            Some(&self.chunks[key.0])
        } else {
            None
        }
    }

    /// Looks a chunk group up by its key.
    pub fn group(&self, key: GroupKey) -> (found: Option<&ChunkGroup>)
        ensures
            found is Some <==> self@.has_group(key),
            found matches Some(group) ==> group@ == self@.group(key),
    {
        if key.0 < self.groups.len() {
            Some(&self.groups[key.0])
        } else {
            None
        }
    }

    /// Resolves the runtime chunk that the chunks of `entry_point` link to.
    pub fn runtime_chunk_of(&self, entry_point: GroupKey) -> (found: Result<ChunkKey, RenderError>)
        ensures
            self@.runtime_chunk_of(entry_point) == match found {
                Ok(runtime_chunk) => Ok(runtime_chunk),
                Err(error) => Err(error@),
            },
    {
        match self.group(entry_point) {
            None => Err(RenderError::GraphLookupFailure(Missing::EntryPoint)),
            Some(group) => {
                let runtime_chunk = group.runtime_chunk;
                if self.chunk(runtime_chunk).is_some() {
                    Ok(runtime_chunk)
                } else {
                    Err(RenderError::GraphLookupFailure(Missing::RuntimeChunk))
                }
            },
        }
    }

    /// Whether the graph is consistent: whether every entry module's chunk
    /// group resolves, and that group's runtime chunk with it.
    pub fn is_consistent(&self) -> (consistent: bool)
        ensures
            consistent == self@.consistent(),
    {
        let mut c: usize = 0;
        while c < self.chunks.len()
            invariant
                c <= self.chunks@.len(),
                forall|k: int, e: int|
                    0 <= k < c && 0 <= e < self@.chunks[k].entry_modules.len()
                        ==> self@.runtime_chunk_of(
                        (#[trigger] self@.chunks[k].entry_modules[e]).group,
                    ) is Ok,
            decreases self.chunks@.len() - c,
        {
            let chunk = &self.chunks[c];
            let mut e: usize = 0;
            while e < chunk.entry_modules.len()
                invariant
                    c < self.chunks@.len(),
                    chunk@ == self@.chunks[c as int],
                    e <= chunk@.entry_modules.len(),
                    forall|j: int|
                        0 <= j < e ==> self@.runtime_chunk_of(
                            (#[trigger] chunk@.entry_modules[j]).group,
                        ) is Ok,
                decreases chunk@.entry_modules.len() - e,
            {
                if self.runtime_chunk_of(chunk.entry_modules[e].group).is_err() {
                    assert(self@.runtime_chunk_of(
                        self@.chunks[c as int].entry_modules[e as int].group,
                    ) is Err);
                    return false;
                }
                e = e + 1;
            }
            c = c + 1;
        }
        true
    }

    /// Whether the chunk was selected to host the runtime of at least one
    /// chunk group.
    pub fn has_runtime(&self, key: ChunkKey) -> (hosts: bool)
        ensures
            hosts == self@.has_runtime(key),
    {
        let mut g: usize = 0;
        while g < self.groups.len()
            invariant
                g <= self.groups@.len(),
                forall|k: int| 0 <= k < g ==> (#[trigger] self@.groups[k]).runtime_chunk != key,
            decreases self.groups@.len() - g,
        {
            if self.groups[g].runtime_chunk == key {
                assert(self@.groups[g as int].runtime_chunk == key);
                return true;
            }
            g = g + 1;
        }
        false
    }
}

} // verus!
