//! The cache of a reactor: for each stream name the workflow definition that
//! the executor gave last, and the number of keep-alive channels that still
//! ask for it.
//!
//! The cache is modelled as a sequence of entries in which no stream name
//! occurs twice and every count is at least one. New stream names go to the
//! end, so a snapshot yields the definitions by first arrival.

use vstd::prelude::*;
use crate::workflows::definitions::{WorkflowDefinition, WorkflowDefinitionView};

verus! {

/// What the cache holds for one stream name.
#[verifier::ext_equal]
pub struct CachedWorkflowView {
    pub stream_name: Seq<char>,
    pub definition: WorkflowDefinitionView,
    pub keep_alive_count: nat,
}

/// What releasing a stream name did: whether the entry left the cache, and if
/// so the name of the workflow that it held.
#[verifier::ext_equal]
pub struct ReleaseView {
    pub removed: bool,
    pub last_name: Option<Seq<char>>,
}

/// No stream name occurs twice, and every entry is kept alive by somebody.
pub open spec fn cache_well_formed(cache: Seq<CachedWorkflowView>) -> bool {
    &&& forall|i: int, j: int|
        0 <= i < j < cache.len() ==> (#[trigger] cache[i]).stream_name != (
        #[trigger] cache[j]).stream_name
    &&& forall|i: int| 0 <= i < cache.len() ==> (#[trigger] cache[i]).keep_alive_count >= 1
}

/// Whether the cache has an entry for the stream name.
pub open spec fn caches(cache: Seq<CachedWorkflowView>, stream_name: Seq<char>) -> bool {
    exists|i: int| 0 <= i < cache.len() && (#[trigger] cache[i]).stream_name == stream_name
}

/// Where the entry of the stream name stands, if the cache has one.
pub open spec fn position(cache: Seq<CachedWorkflowView>, stream_name: Seq<char>) -> int {
    choose|i: int| 0 <= i < cache.len() && (#[trigger] cache[i]).stream_name == stream_name
}

/// The number of keep-alive channels on record for the stream name: zero if
/// the cache has no entry for it.
pub open spec fn keep_alive_count(cache: Seq<CachedWorkflowView>, stream_name: Seq<char>) -> nat {
    if caches(cache, stream_name) {
        cache[position(cache, stream_name)].keep_alive_count
    } else {
        0
    }
}

/// The definition on record for the stream name, if the cache has an entry.
pub open spec fn cached_definition(
    cache: Seq<CachedWorkflowView>,
    stream_name: Seq<char>,
) -> Option<WorkflowDefinitionView> {
    if caches(cache, stream_name) {
        Some(cache[position(cache, stream_name)].definition)
    } else {
        None
    }
}

/// The cache after one more keep-alive channel asks for the stream name with
/// `definition`: an existing entry takes the new definition and counts one
/// more, a new entry starts at one.
pub open spec fn bumped(
    cache: Seq<CachedWorkflowView>,
    stream_name: Seq<char>,
    definition: WorkflowDefinitionView,
) -> Seq<CachedWorkflowView> {
    if caches(cache, stream_name) {
        let i = position(cache, stream_name);
        cache.update(
            i,
            CachedWorkflowView {
                stream_name,
                definition,
                keep_alive_count: cache[i].keep_alive_count + 1,
            },
        )
    } else {
        cache.push(CachedWorkflowView { stream_name, definition, keep_alive_count: 1 })
    }
}

/// The cache after one keep-alive channel of the stream name has closed: the
/// entry counts one less, and leaves when nobody is left. A stream name
/// without an entry changes nothing.
pub open spec fn released(cache: Seq<CachedWorkflowView>, stream_name: Seq<char>) -> Seq<
    CachedWorkflowView,
> {
    if caches(cache, stream_name) {
        let i = position(cache, stream_name);
        if cache[i].keep_alive_count <= 1 {
            cache.remove(i)
        } else {
            cache.update(
                i,
                CachedWorkflowView {
                    keep_alive_count: (cache[i].keep_alive_count - 1) as nat,
                    ..cache[i]
                },
            )
        }
    } else {
        cache
    }
}

/// What releasing the stream name reports.
pub open spec fn release_result(cache: Seq<CachedWorkflowView>, stream_name: Seq<char>) -> ReleaseView {
    if caches(cache, stream_name) && cache[position(cache, stream_name)].keep_alive_count <= 1 {
        ReleaseView {
            removed: true,
            last_name: Some(cache[position(cache, stream_name)].definition.name),
        }
    } else {
        ReleaseView { removed: false, last_name: None }
    }
}

/// The definitions in the cache, in the order of the entries.
pub open spec fn definitions(cache: Seq<CachedWorkflowView>) -> Seq<WorkflowDefinitionView> {
    Seq::new(cache.len(), |i: int| cache[i].definition)
}

/// In a well-formed cache the entry of a stream name stands at one place only.
pub proof fn lemma_position_is_unique(cache: Seq<CachedWorkflowView>, stream_name: Seq<char>, i: int)
    requires
        cache_well_formed(cache),
        0 <= i < cache.len(),
        cache[i].stream_name == stream_name,
    ensures
        caches(cache, stream_name),
        position(cache, stream_name) == i,
{
    let p = position(cache, stream_name);
    assert(0 <= p < cache.len() && cache[p].stream_name == stream_name);
    if p < i {
        assert(cache[p].stream_name != cache[i].stream_name);
    } else if i < p {
        assert(cache[i].stream_name != cache[p].stream_name);
    }
}

/// Bumping keeps a cache well formed.
pub proof fn lemma_bumped_is_well_formed(
    cache: Seq<CachedWorkflowView>,
    stream_name: Seq<char>,
    definition: WorkflowDefinitionView,
)
    requires
        cache_well_formed(cache),
    ensures
        cache_well_formed(bumped(cache, stream_name, definition)),
{
    let after = bumped(cache, stream_name, definition);
    if caches(cache, stream_name) {
        let p = position(cache, stream_name);
        assert forall|i: int, j: int| 0 <= i < j < after.len() implies (
        #[trigger] after[i]).stream_name != (#[trigger] after[j]).stream_name by {
            assert(after[i].stream_name == cache[i].stream_name);
            assert(after[j].stream_name == cache[j].stream_name);
        }
        assert forall|i: int| 0 <= i < after.len() implies (#[trigger] after[i]).keep_alive_count
            >= 1 by {
            if i != p {
                assert(after[i] == cache[i]);
            }
        }
    } else {
        assert forall|i: int, j: int| 0 <= i < j < after.len() implies (
        #[trigger] after[i]).stream_name != (#[trigger] after[j]).stream_name by {
            assert(after[i] == cache[i]);
            if j < cache.len() {
                assert(after[j] == cache[j]);
            }
        }
        assert forall|i: int| 0 <= i < after.len() implies (#[trigger] after[i]).keep_alive_count
            >= 1 by {
            if i < cache.len() {
                assert(after[i] == cache[i]);
            }
        }
    }
}

/// After a bump the stream name has an entry with the new definition and one
/// keep-alive channel more than before. No other stream name is touched.
pub proof fn lemma_bumped_entry(
    cache: Seq<CachedWorkflowView>,
    stream_name: Seq<char>,
    definition: WorkflowDefinitionView,
    other: Seq<char>,
)
    requires
        cache_well_formed(cache),
    ensures
        caches(bumped(cache, stream_name, definition), stream_name),
        cached_definition(bumped(cache, stream_name, definition), stream_name) == Some(definition),
        keep_alive_count(bumped(cache, stream_name, definition), stream_name) == keep_alive_count(
            cache,
            stream_name,
        ) + 1,
        other != stream_name ==> {
            &&& caches(bumped(cache, stream_name, definition), other) == caches(cache, other)
            &&& cached_definition(bumped(cache, stream_name, definition), other)
                == cached_definition(cache, other)
            &&& keep_alive_count(bumped(cache, stream_name, definition), other)
                == keep_alive_count(cache, other)
        },
{
    let after = bumped(cache, stream_name, definition);
    lemma_bumped_is_well_formed(cache, stream_name, definition);
    let p = if caches(cache, stream_name) {
        position(cache, stream_name)
    } else {
        cache.len() as int
    };
    assert(after[p].stream_name == stream_name);
    lemma_position_is_unique(after, stream_name, p);
    if other != stream_name {
        if caches(cache, other) {
            let q = position(cache, other);
            assert(q != p);
            assert(after[q] == cache[q]);
            lemma_position_is_unique(after, other, q);
        }
        if caches(after, other) {
            let q = position(after, other);
            assert(q != p);
            assert(after[q] == cache[q]);
            lemma_position_is_unique(cache, other, q);
        }
    }
}

/// Releasing keeps a cache well formed.
pub proof fn lemma_released_is_well_formed(cache: Seq<CachedWorkflowView>, stream_name: Seq<char>)
    requires
        cache_well_formed(cache),
    ensures
        cache_well_formed(released(cache, stream_name)),
{
    let after = released(cache, stream_name);
    if caches(cache, stream_name) {
        let p = position(cache, stream_name);
        if cache[p].keep_alive_count <= 1 {
            assert forall|i: int, j: int| 0 <= i < j < after.len() implies (
            #[trigger] after[i]).stream_name != (#[trigger] after[j]).stream_name by {
                let i0 = if i < p { i } else { i + 1 };
                let j0 = if j < p { j } else { j + 1 };
                assert(after[i] == cache[i0]);
                assert(after[j] == cache[j0]);
            }
            assert forall|i: int| 0 <= i < after.len() implies (
            #[trigger] after[i]).keep_alive_count >= 1 by {
                let i0 = if i < p { i } else { i + 1 };
                assert(after[i] == cache[i0]);
            }
        } else {
            assert forall|i: int, j: int| 0 <= i < j < after.len() implies (
            #[trigger] after[i]).stream_name != (#[trigger] after[j]).stream_name by {
                assert(after[i].stream_name == cache[i].stream_name);
                assert(after[j].stream_name == cache[j].stream_name);
            }
            assert forall|i: int| 0 <= i < after.len() implies (
            #[trigger] after[i]).keep_alive_count >= 1 by {
                if i != p {
                    assert(after[i] == cache[i]);
                }
            }
        }
    }
}

/// After a release the stream name has one keep-alive channel less than
/// before, and no entry when none is left; its definition stays while it has
/// an entry. No other stream name is touched.
pub proof fn lemma_released_entry(
    cache: Seq<CachedWorkflowView>,
    stream_name: Seq<char>,
    other: Seq<char>,
)
    requires
        cache_well_formed(cache),
    ensures
        caches(released(cache, stream_name), stream_name) == (keep_alive_count(cache, stream_name)
            > 1),
        keep_alive_count(cache, stream_name) > 0 ==> keep_alive_count(
            released(cache, stream_name),
            stream_name,
        ) == keep_alive_count(cache, stream_name) - 1,
        keep_alive_count(cache, stream_name) == 0 ==> released(cache, stream_name) == cache,
        keep_alive_count(cache, stream_name) > 1 ==> cached_definition(
            released(cache, stream_name),
            stream_name,
        ) == cached_definition(cache, stream_name),
        other != stream_name ==> {
            &&& caches(released(cache, stream_name), other) == caches(cache, other)
            &&& cached_definition(released(cache, stream_name), other) == cached_definition(
                cache,
                other,
            )
            &&& keep_alive_count(released(cache, stream_name), other) == keep_alive_count(
                cache,
                other,
            )
        },
{
    let after = released(cache, stream_name);
    lemma_released_is_well_formed(cache, stream_name);
    if caches(cache, stream_name) {
        let p = position(cache, stream_name);
        assert(cache[p].stream_name == stream_name);
        assert(cache[p].keep_alive_count >= 1);
        if cache[p].keep_alive_count <= 1 {
            if caches(after, stream_name) {
                let q = position(after, stream_name);
                let q0 = if q < p { q } else { q + 1 };
                assert(after[q] == cache[q0]);
                lemma_position_is_unique(cache, stream_name, q0);
            }
            if other != stream_name {
                if caches(cache, other) {
                    let q0 = position(cache, other);
                    assert(q0 != p);
                    let q = if q0 < p { q0 } else { q0 - 1 };
                    assert(after[q] == cache[q0]);
                    lemma_position_is_unique(after, other, q);
                }
                if caches(after, other) {
                    let q = position(after, other);
                    let q0 = if q < p { q } else { q + 1 };
                    assert(after[q] == cache[q0]);
                    lemma_position_is_unique(cache, other, q0);
                }
            }
        } else {
            assert(after[p].stream_name == stream_name);
            lemma_position_is_unique(after, stream_name, p);
            if other != stream_name {
                if caches(cache, other) {
                    let q = position(cache, other);
                    assert(q != p);
                    assert(after[q] == cache[q]);
                    lemma_position_is_unique(after, other, q);
                }
                if caches(after, other) {
                    let q = position(after, other);
                    assert(q != p);
                    assert(after[q] == cache[q]);
                    lemma_position_is_unique(cache, other, q);
                }
            }
        }
    }
}

/// A cached workflow: the definition for a stream name and the number of
/// keep-alive channels that still ask for it.
#[derive(Debug, PartialEq, Eq)]
pub struct CachedWorkflow {
    pub stream_name: String,
    pub definition: WorkflowDefinition,
    pub keep_alive_count: usize,
}

impl View for CachedWorkflow {
    type V = CachedWorkflowView;

    open spec fn view(&self) -> CachedWorkflowView {
        CachedWorkflowView {
            stream_name: self.stream_name@,
            definition: self.definition@,
            keep_alive_count: self.keep_alive_count as nat,
        }
    }
}

/// Cached workflows, each by what it holds.
pub open spec fn entry_views(entries: Seq<CachedWorkflow>) -> Seq<CachedWorkflowView> {
    Seq::new(entries.len(), |i: int| entries[i]@)
}

/// The result of [`WorkflowCache::release`].
#[derive(Debug, PartialEq, Eq)]
pub struct Release {
    /// Whether the entry left the cache.
    pub removed: bool,
    /// The name of the workflow that the removed entry held.
    pub last_name: Option<String>,
}

impl View for Release {
    type V = ReleaseView;

    open spec fn view(&self) -> ReleaseView {
        ReleaseView {
            removed: self.removed,
            last_name: match self.last_name {
                Some(name) => Some(name@),
                None => None,
            },
        }
    }
}

/// The definitions that a snapshot yields, each by what it holds.
pub open spec fn definition_views(definitions: Seq<WorkflowDefinition>) -> Seq<
    WorkflowDefinitionView,
> {
    Seq::new(definitions.len(), |i: int| definitions[i]@)
}

/// The cache of a reactor, keyed by stream name.
#[derive(Debug)]
pub struct WorkflowCache {
    entries: Vec<CachedWorkflow>,
}

impl View for WorkflowCache {
    type V = Seq<CachedWorkflowView>;

    closed spec fn view(&self) -> Seq<CachedWorkflowView> {
        entry_views(self.entries@)
    }
}

impl WorkflowCache {
    /// The invariant of the cache: see [`cache_well_formed`].
    pub open spec fn well_formed(&self) -> bool {
        cache_well_formed(self@)
    }

    /// An empty cache.
    pub fn new() -> (cache: Self)
        ensures
            cache@ == Seq::<CachedWorkflowView>::empty(),
            cache.well_formed(),
    {
        let cache = WorkflowCache { entries: Vec::new() };
        assert(cache@ =~= Seq::<CachedWorkflowView>::empty());
        cache
    }

    /// The number of stream names in the cache.
    pub fn len(&self) -> (n: usize)
        ensures
            n == self@.len(),
    {
        self.entries.len()
    }

    /// Whether the cache holds nothing.
    pub fn is_empty(&self) -> (empty: bool)
        ensures
            empty == (self@.len() == 0),
    {
        self.entries.len() == 0
    }

    /// Where the entry of the stream name stands.
    fn find(&self, stream_name: &String) -> (found: Option<usize>)
        requires
            self.well_formed(),
        ensures
            found.is_some() == caches(self@, stream_name@),
            found matches Some(i) ==> i < self.entries@.len() && i == position(
                self@,
                stream_name@,
            ) && self.entries@[i as int].stream_name@ == stream_name@,
    {
        let mut i: usize = 0;
        while i < self.entries.len()
            invariant
                self.well_formed(),
                i <= self.entries@.len(),
                forall|k: int| 0 <= k < i ==> (#[trigger] self@[k]).stream_name != stream_name@,
            decreases self.entries@.len() - i,
        {
            if self.entries[i].stream_name == *stream_name {
                proof {
                    assert(self@[i as int].stream_name == stream_name@);
                    lemma_position_is_unique(self@, stream_name@, i as int);
                }
                return Some(i);
            }
            assert(self@[i as int].stream_name != stream_name@);
            i += 1;
        }
        None
    }

    /// Whether the cache has an entry for the stream name.
    pub fn contains(&self, stream_name: &String) -> (present: bool)
        requires
            self.well_formed(),
        ensures
            present == caches(self@, stream_name@),
    {
        self.find(stream_name).is_some()
    }

    /// The number of keep-alive channels on record for the stream name.
    pub fn keep_alive_count(&self, stream_name: &String) -> (count: usize)
        requires
            self.well_formed(),
        ensures
            count == keep_alive_count(self@, stream_name@),
    {
        match self.find(stream_name) {
            Some(i) => self.entries[i].keep_alive_count,
            None => 0,
        }
    }

    /// The definition on record for the stream name.
    pub fn definition(&self, stream_name: &String) -> (definition: Option<&WorkflowDefinition>)
        requires
            self.well_formed(),
        ensures
            cached_definition(self@, stream_name@) == match definition {
                Some(found) => Some(found@),
                None => None,
            },
    {
        match self.find(stream_name) {
            Some(i) => Some(&self.entries[i].definition),
            None => None,
        }
    }

    /// Records one more keep-alive channel for the stream name, with the
    /// definition that the executor gave for it now.
    pub fn bump(&mut self, stream_name: String, definition: WorkflowDefinition)
        requires
            old(self).well_formed(),
            keep_alive_count(old(self)@, stream_name@) < usize::MAX,
        ensures
            final(self)@ == bumped(old(self)@, stream_name@, definition@),
            final(self).well_formed(),
    {
        match self.find(&stream_name) {
            Some(i) => {
                let keep_alive_count: usize = self.entries[i].keep_alive_count + 1;
                self.entries.set(i, CachedWorkflow { stream_name, definition, keep_alive_count });
                assert(self@ =~= bumped(old(self)@, stream_name@, definition@));
            },
            None => {
                self.entries.push(CachedWorkflow { stream_name, definition, keep_alive_count: 1 });
                assert(self@ =~= bumped(old(self)@, stream_name@, definition@));
            },
        }
    }

    /// Records that one keep-alive channel of the stream name has closed.
    pub fn release(&mut self, stream_name: &String) -> (release: Release)
        requires
            old(self).well_formed(),
        ensures
            final(self)@ == released(old(self)@, stream_name@),
            release@ == release_result(old(self)@, stream_name@),
            final(self).well_formed(),
    {
        match self.find(stream_name) {
            Some(i) => {
                let entry = self.entries.remove(i);
                assert(entry@ == old(self)@[i as int]);
                if entry.keep_alive_count <= 1 {
                    assert(self@ =~= released(old(self)@, stream_name@));
                    Release { removed: true, last_name: Some(entry.definition.name) }
                } else {
                    let CachedWorkflow { stream_name: name, definition, keep_alive_count } = entry;
                    self.entries.insert(
                        i,
                        CachedWorkflow {
                            stream_name: name,
                            definition,
                            keep_alive_count: keep_alive_count - 1,
                        },
                    );
                    assert(self@ =~= released(old(self)@, stream_name@));
                    Release { removed: false, last_name: None }
                }
            },
            None => Release { removed: false, last_name: None },
        }
    }

    /// A copy of every definition in the cache.
    pub fn snapshot(&self) -> (snapshot: Vec<WorkflowDefinition>)
        ensures
            definition_views(snapshot@) == definitions(self@),
    {
        let mut snapshot: Vec<WorkflowDefinition> = Vec::new();
        let mut i: usize = 0;
        while i < self.entries.len()
            invariant
                i <= self.entries@.len(),
                snapshot@.len() == i,
                forall|k: int| 0 <= k < i ==> snapshot@[k]@ == self.entries@[k].definition@,
            decreases self.entries@.len() - i,
        {
            snapshot.push(self.entries[i].definition.clone());
            i += 1;
        }
        assert(definition_views(snapshot@) =~= definitions(self@));
        snapshot
    }
}

} // verus!
