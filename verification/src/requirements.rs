//! Runtime requirements: the capabilities a chunk's emitted code relies on,
//! and the per-chunk sets they accumulate into.
//!
//! A set lives through two phases, each with a type of its own. While the
//! resolution pass runs it is a [`RequirementAccumulator`], which can only
//! grow. Before assembly begins it is frozen into a [`RuntimeRequirementSet`],
//! which can only be queried.

use vstd::prelude::*;

verus! {

/// A capability that emitted chunk code may depend on at execution time.
#[derive(Clone, Copy, Debug, PartialEq, Eq, Hash, Structural)]
pub enum RuntimeRequirement {
    /// Resolving a module identifier to its exported value.
    Require,
    /// The cache of instantiated modules.
    ModuleCache,
    /// The table of module factories.
    ModuleFactories,
    /// Loading another chunk on demand.
    EnsureChunk,
    /// The public path that emitted assets are served from.
    PublicPath,
    /// Receiving and registering the modules and runtime of a chunk that was
    /// emitted separately, before anything executes.
    ExternalInstallChunk,
}

impl RuntimeRequirement {
    /// The name under which emitted code refers to this capability.
    pub open spec fn spec_name(self) -> Seq<char> {
        match self {
            RuntimeRequirement::Require => "__webpack_require__"@,
            RuntimeRequirement::ModuleCache => "__webpack_require__.c"@,
            RuntimeRequirement::ModuleFactories => "__webpack_require__.m"@,
            RuntimeRequirement::EnsureChunk => "__webpack_require__.e"@,
            RuntimeRequirement::PublicPath => "__webpack_require__.p"@,
            RuntimeRequirement::ExternalInstallChunk => "__webpack_require__.C"@,
        }
    }

    /// The name under which emitted code refers to this capability.
    pub fn name(self) -> (text: &'static str)
        ensures
            text@ == self.spec_name(),
    {
        match self {
            RuntimeRequirement::Require => "__webpack_require__",
            RuntimeRequirement::ModuleCache => "__webpack_require__.c",
            RuntimeRequirement::ModuleFactories => "__webpack_require__.m",
            RuntimeRequirement::EnsureChunk => "__webpack_require__.e",
            RuntimeRequirement::PublicPath => "__webpack_require__.p",
            RuntimeRequirement::ExternalInstallChunk => "__webpack_require__.C",
        }
    }
}

/// Where `wanted` stands in `items`, if anywhere.
fn position(items: &Vec<RuntimeRequirement>, wanted: RuntimeRequirement) -> (at: Option<usize>)
    ensures
        match at {
            Some(i) => i < items@.len() && items@[i as int] == wanted,
            None => !items@.contains(wanted),
        },
{
    let mut i: usize = 0;
    while i < items.len()
        invariant
            i <= items@.len(),
            forall|k: int| 0 <= k < i ==> items@[k] != wanted,
        decreases items@.len() - i,
    {
        if items[i] == wanted {
            return Some(i);
        }
        i = i + 1;
    }
    None
}

/// The requirement set of one chunk while the resolution pass runs.
///
/// It starts empty and only grows: there is no way to take a requirement
/// out again, so no contributor can undo what another one added.
#[derive(Debug)]
pub struct RequirementAccumulator {
    items: Vec<RuntimeRequirement>,
}

impl View for RequirementAccumulator {
    type V = Set<RuntimeRequirement>;

    closed spec fn view(&self) -> Set<RuntimeRequirement> {
        self.items@.to_set()
    }
}

impl RequirementAccumulator {
    #[verifier::type_invariant]
    spec fn distinct(&self) -> bool {
        self.items@.no_duplicates()
    }

    /// The empty set that every chunk starts the resolution pass with.
    pub fn new() -> (fresh: Self)
        ensures
            fresh@ == Set::<RuntimeRequirement>::empty(),
    {
        let fresh = RequirementAccumulator { items: Vec::new() };
        assert(fresh.items@.to_set() =~= Set::<RuntimeRequirement>::empty());
        fresh
    }

    /// Whether `requirement` has been contributed so far.
    pub fn contains(&self, requirement: RuntimeRequirement) -> (present: bool)
        ensures
            present == self@.contains(requirement),
    {
        position(&self.items, requirement).is_some()
    }

    /// Adds `requirement`; says whether it was new.
    pub fn insert(&mut self, requirement: RuntimeRequirement) -> (added: bool)
        ensures
            final(self)@ == old(self)@.insert(requirement),
            added == !old(self)@.contains(requirement),
    {
        proof {
            use_type_invariant(&*self);
        }
        if position(&self.items, requirement).is_some() {
            assert(self@.insert(requirement) =~= self@);
            false
        } else {
            let ghost before = self.items@;
            // The items are moved out and back in, so that the set is never
            // seen half-changed.
            let mut holder = RequirementAccumulator { items: Vec::new() };
            std::mem::swap(self, &mut holder);
            let mut items = holder.items;
            items.push(requirement);
            *self = RequirementAccumulator { items };
            assert(self.items@.to_set() =~= before.to_set().insert(requirement)) by {
                assert forall|r: RuntimeRequirement|
                    self.items@.contains(r) <==> (before.contains(r) || r == requirement) by {
                    if before.contains(r) {
                        let k = choose|k: int| 0 <= k < before.len() && before[k] == r;
                        assert(self.items@[k] == r);
                    }
                    if r == requirement {
                        assert(self.items@[before.len() as int] == r);
                    }
                }
            }
            true
        }
    }

    /// Adds every requirement of `other`.
    pub fn absorb(&mut self, other: &RuntimeRequirementSet)
        ensures
            final(self)@ == old(self)@.union(other@),
    {
        let mut i: usize = 0;
        while i < other.items.len()
            invariant
                i <= other.items@.len(),
                self@ == old(self)@.union(other.items@.take(i as int).to_set()),
            decreases other.items@.len() - i,
        {
            let ghost before = self@;
            self.insert(other.items[i]);
            assert(other.items@.take(i + 1).to_set() =~= other.items@.take(i as int).to_set().insert(
                other.items@[i as int],
            )) by {
                let longer = other.items@.take(i + 1);
                let shorter = other.items@.take(i as int);
                assert forall|r: RuntimeRequirement|
                    longer.contains(r) <==> (shorter.contains(r) || r == other.items@[i as int]) by {
                    if shorter.contains(r) {
                        let k = choose|k: int| 0 <= k < shorter.len() && shorter[k] == r;
                        assert(longer[k] == r);
                    }
                    if r == other.items@[i as int] {
                        assert(longer[i as int] == r);
                    }
                }
            }
            assert(self@ =~= old(self)@.union(other.items@.take(i + 1).to_set()));
            i = i + 1;
        }
        assert(other.items@.take(i as int) =~= other.items@);
    }

    /// Ends the accumulation phase: the set can be read from now on, and no
    /// longer changed.
    pub fn freeze(self) -> (frozen: RuntimeRequirementSet)
        ensures
            frozen@ == self@,
    {
        proof {
            use_type_invariant(&self);
        }
        RuntimeRequirementSet { items: self.items }
    }
}

/// The final requirement set of one chunk, as assembly reads it.
#[derive(Debug)]
pub struct RuntimeRequirementSet {
    items: Vec<RuntimeRequirement>,
}

impl View for RuntimeRequirementSet {
    type V = Set<RuntimeRequirement>;

    closed spec fn view(&self) -> Set<RuntimeRequirement> {
        self.items@.to_set()
    }
}

impl RuntimeRequirementSet {
    #[verifier::type_invariant]
    spec fn distinct(&self) -> bool {
        self.items@.no_duplicates()
    }

    /// Whether the chunk needs `requirement`.
    pub fn contains(&self, requirement: RuntimeRequirement) -> (present: bool)
        ensures
            present == self@.contains(requirement),
    {
        position(&self.items, requirement).is_some()
    }

    /// How many requirements the chunk has.
    pub fn len(&self) -> (count: usize)
        ensures
            self@.finite(),
            count == self@.len(),
    {
        proof {
            use_type_invariant(self);
            self.items@.unique_seq_to_set();
        }
        self.items.len()
    }

    /// Whether the chunk needs nothing.
    pub fn is_empty(&self) -> (empty: bool)
        ensures
            empty == (self@ == Set::<RuntimeRequirement>::empty()),
    {
        proof {
            if self.items@.len() == 0 {
                assert(self@ =~= Set::<RuntimeRequirement>::empty());
            } else {
                assert(self.items@.contains(self.items@[0]));
                assert(self@.contains(self.items@[0]));
            }
        }
        self.items.len() == 0
    }
}

} // verus!
