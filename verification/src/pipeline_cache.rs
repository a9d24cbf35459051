//! The bookkeeping of the scene compiler: a bounded cache of compiled scene
//! pipelines, used least-recently-first for eviction, with at most one
//! compilation in flight. Scene changes never queue more work behind a
//! compilation that has not come back. The caller owns the compiler worker,
//! its channels and its clock; this cache decides what to send and what to
//! keep.
use vstd::prelude::*;

use crate::scene_shader::SceneKey;

verus! {

/// The cache holds at most this many compiled scenes.
pub const MAX_CACHED_PIPELINES: usize = 16;

/// A compiled scene and the frame on which it was last used.
pub struct CachedPipeline<P> {
    pub key: SceneKey,
    pub pipeline: P,
    pub last_used: u64,
}

/// The cache as values.
pub struct PipelineCacheView<P> {
    pub entries: Seq<CachedPipeline<P>>,
    pub pending: Option<SceneKey>,
    pub frame: u64,
}

/// Whether the cache holds a pipeline for `key`.
pub open spec fn holds<P>(entries: Seq<CachedPipeline<P>>, key: SceneKey) -> bool {
    exists|i: int| 0 <= i < entries.len() && entries[i].key == key
}

/// The position of `key`'s pipeline, where the cache holds one.
pub open spec fn index_of<P>(entries: Seq<CachedPipeline<P>>, key: SceneKey) -> int {
    choose|i: int| 0 <= i < entries.len() && entries[i].key == key
}

/// No scene is cached twice.
pub open spec fn distinct_keys<P>(entries: Seq<CachedPipeline<P>>) -> bool {
    forall|i: int, j: int|
        0 <= i < j < entries.len() ==> entries[i].key != entries[j].key
}

/// Whether the current frame needs `key`.
pub open spec fn needed(key: SceneKey, a: SceneKey, b: SceneKey) -> bool {
    key == a || key == b
}

/// `after` is `before` less one pipeline that the frame does not need and
/// that was used no later than any other pipeline the frame does not need.
pub open spec fn evicts_least_recent<P>(
    before: Seq<CachedPipeline<P>>,
    after: Seq<CachedPipeline<P>>,
    a: SceneKey,
    b: SceneKey,
) -> bool {
    exists|i: int|
        #![trigger before.remove(i)]
        {
            &&& 0 <= i < before.len()
            &&& after == before.remove(i)
            &&& !needed(before[i].key, a, b)
            &&& forall|j: int|
                0 <= j < before.len() && !needed(before[j].key, a, b) ==> before[i].last_used
                    <= #[trigger] before[j].last_used
        }
}

/// A full cache drops its least recently used pipeline that the frame does
/// not need; a cache with room keeps everything.
pub open spec fn makes_room<P>(
    before: Seq<CachedPipeline<P>>,
    kept: Seq<CachedPipeline<P>>,
    a: SceneKey,
    b: SceneKey,
) -> bool {
    if before.len() >= MAX_CACHED_PIPELINES {
        evicts_least_recent(before, kept, a, b)
    } else {
        kept == before
    }
}

/// `entries` with `key`'s pipeline replaced, or added at the end when the
/// cache held none.
pub open spec fn put<P>(entries: Seq<CachedPipeline<P>>, entry: CachedPipeline<P>) -> Seq<
    CachedPipeline<P>,
> {
    if holds(entries, entry.key) {
        entries.update(index_of(entries, entry.key), entry)
    } else {
        entries.push(entry)
    }
}

proof fn lemma_index_of<P>(entries: Seq<CachedPipeline<P>>, i: int)
    requires
        distinct_keys(entries),
        0 <= i < entries.len(),
    ensures
        holds(entries, entries[i].key),
        index_of(entries, entries[i].key) == i,
{
    let key = entries[i].key;
    assert(holds(entries, key));
    let j = index_of(entries, key);
    if j < i {
        assert(entries[j].key != entries[i].key);
    } else if i < j {
        assert(entries[i].key != entries[j].key);
    }
}

fn find<P>(entries: &Vec<CachedPipeline<P>>, key: SceneKey) -> (r: Option<usize>)
    requires
        distinct_keys(entries@),
    ensures
        r is None <==> !holds(entries@, key),
        r matches Some(i) ==> i < entries@.len() && i == index_of(entries@, key)
            && entries@[i as int].key == key,
{
    let mut i: usize = 0;
    while i < entries.len()
        invariant
            i <= entries@.len(),
            distinct_keys(entries@),
            forall|j: int| 0 <= j < i ==> entries@[j].key != key,
        decreases entries@.len() - i,
    {
        if entries[i].key == key {
            proof {
                lemma_index_of(entries@, i as int);
            }
            return Some(i);
        }
        i = i + 1;
    }
    None
}

/// The position of the least recently used pipeline that the frame does not
/// need, if there is one.
fn least_recent<P>(entries: &Vec<CachedPipeline<P>>, a: SceneKey, b: SceneKey) -> (r: Option<usize>)
    ensures
        r matches Some(i) ==> {
            &&& i < entries@.len()
            &&& !needed(entries@[i as int].key, a, b)
            &&& forall|j: int|
                0 <= j < entries@.len() && !needed(entries@[j].key, a, b)
                    ==> entries@[i as int].last_used <= entries@[j].last_used
        },
        r is None ==> forall|j: int| 0 <= j < entries@.len() ==> needed(entries@[j].key, a, b),
{
    let mut best: Option<usize> = None;
    let mut i: usize = 0;
    while i < entries.len()
        invariant
            i <= entries@.len(),
            best matches Some(k) ==> {
                &&& k < i
                &&& !needed(entries@[k as int].key, a, b)
                &&& forall|j: int|
                    0 <= j < i && !needed(entries@[j].key, a, b)
                        ==> entries@[k as int].last_used <= entries@[j].last_used
            },
            best is None ==> forall|j: int| 0 <= j < i ==> needed(entries@[j].key, a, b),
        decreases entries@.len() - i,
    {
        let key = entries[i].key;
        if key != a && key != b {
            match best {
                Some(k) => {
                    if entries[i].last_used < entries[k].last_used {
                        best = Some(i);
                    }
                },
                None => {
                    best = Some(i);
                },
            }
        }
        i = i + 1;
    }
    best
}

/// What a visit of `key` does: a cached pipeline is marked as used on this
/// frame and nothing is sent; otherwise the cache is unchanged and the scene
/// is sent only when nothing is in flight.
pub open spec fn visit_result<P>(v: PipelineCacheView<P>, key: SceneKey) -> (bool, PipelineCacheView<P>) {
    if holds(v.entries, key) {
        let i = index_of(v.entries, key);
        (
            false,
            PipelineCacheView {
                entries: v.entries.update(i, CachedPipeline { last_used: v.frame, ..v.entries[i] }),
                ..v
            },
        )
    } else {
        (v.pending.is_none(), v)
    }
}

/// The compiled scenes, the compilation in flight and the frame counter.
pub struct PipelineCache<P> {
    entries: Vec<CachedPipeline<P>>,
    pending: Option<SceneKey>,
    frame: u64,
}

impl<P> View for PipelineCache<P> {
    type V = PipelineCacheView<P>;

    closed spec fn view(&self) -> PipelineCacheView<P> {
        PipelineCacheView { entries: self.entries@, pending: self.pending, frame: self.frame }
    }
}

impl<P> PipelineCache<P> {
    #[verifier::type_invariant]
    spec fn well_formed(self) -> bool {
        &&& distinct_keys(self.entries@)
        &&& self.entries@.len() <= MAX_CACHED_PIPELINES
    }

    /// An empty cache with nothing in flight.
    pub fn new() -> (r: Self)
        ensures
            r@.entries.len() == 0,
            r@.pending.is_none(),
            r@.frame == 0,
    {
        PipelineCache { entries: Vec::new(), pending: None, frame: 0 }
    }

    /// The scene being compiled, if any.
    pub fn pending(&self) -> (r: Option<SceneKey>)
        ensures
            r == self@.pending,
    {
        self.pending
    }

    /// The number of cached scenes.
    pub fn len(&self) -> (r: usize)
        ensures
            r == self@.entries.len(),
            r <= MAX_CACHED_PIPELINES,
    {
        proof {
            use_type_invariant(self);
        }
        self.entries.len()
    }

    /// The frame counter.
    pub fn frame(&self) -> (r: u64)
        ensures
            r == self@.frame,
    {
        self.frame
    }

    /// Whether the cache holds a pipeline for `key`.
    pub fn contains(&self, key: SceneKey) -> (r: bool)
        ensures
            r == holds(self@.entries, key),
    {
        proof {
            use_type_invariant(self);
        }
        find(&self.entries, key).is_some()
    }

    /// Whether `key` should go to the compiler now: it is not cached and
    /// nothing is in flight.
    pub fn needs_compile(&self, key: SceneKey) -> (r: bool)
        ensures
            r == (self@.pending.is_none() && !holds(self@.entries, key)),
    {
        self.pending.is_none() && !self.contains(key)
    }

    /// Starts a frame.
    pub fn begin_frame(&mut self)
        requires
            old(self)@.frame < u64::MAX,
        ensures
            final(self)@ == (PipelineCacheView { frame: (old(self)@.frame + 1) as u64, ..old(self)@ }),
    {
        proof {
            use_type_invariant(&*self);
        }
        self.frame = self.frame + 1;
    }

    /// Visits a scene the frame needs: a cached pipeline is marked as used
    /// on this frame; otherwise returns whether the scene must be sent to
    /// the compiler, which is so only when nothing is in flight.
    pub fn visit(&mut self, key: SceneKey) -> (send: bool)
        ensures
            (send, final(self)@) == visit_result(old(self)@, key),
    {
        proof {
            use_type_invariant(&*self);
        }
        match find(&self.entries, key) {
            Some(i) => {
                let mut entries = Vec::new();
                std::mem::swap(&mut entries, &mut self.entries);
                let mut entry = entries.remove(i);
                entry.last_used = self.frame;
                entries.insert(i, entry);
                proof {
                    assert(entries@ =~= old(self)@.entries.update(
                        i as int,
                        CachedPipeline { last_used: old(self)@.frame, ..old(self)@.entries[i as int] },
                    ));
                    assert forall|x: int, y: int| 0 <= x < y < entries@.len() implies entries@[x].key
                        != entries@[y].key by {
                        assert(old(self)@.entries[x].key != old(self)@.entries[y].key);
                    }
                }
                self.entries = entries;
                false
            },
            None => self.pending.is_none(),
        }
    }

    /// Records that `key` was handed to the compiler.
    pub fn mark_pending(&mut self, key: SceneKey)
        ensures
            final(self)@ == (PipelineCacheView { pending: Some(key), ..old(self)@ }),
    {
        proof {
            use_type_invariant(&*self);
        }
        self.pending = Some(key);
    }

    /// A compilation came back for `key` while the frame needs `a` and
    /// `b`: nothing is in flight any more; a full cache first drops its
    /// least recently used pipeline that the frame does not need; then a
    /// compiled pipeline is cached as used on this frame (replacing an
    /// older one for the same scene), and a failure is handed back.
    pub fn complete(&mut self, key: SceneKey, result: Result<P, String>, a: SceneKey, b: SceneKey) -> (r:
        Result<(), String>)
        ensures
            final(self)@.pending.is_none(),
            final(self)@.frame == old(self)@.frame,
            final(self)@.entries.len() <= MAX_CACHED_PIPELINES,
            ({
                let before = old(self)@.entries;
                exists|kept: Seq<CachedPipeline<P>>|
                    {
                        &&& #[trigger] makes_room(before, kept, a, b)
                        &&& match result {
                            Ok(pipeline) => r is Ok && final(self)@.entries == put(
                                kept,
                                CachedPipeline { key, pipeline, last_used: old(self)@.frame },
                            ),
                            Err(message) => r == Err::<(), String>(message)
                                && final(self)@.entries == kept,
                        }
                    }
            }),
    {
        proof {
            use_type_invariant(&*self);
        }
        self.pending = None;
        let mut entries = Vec::new();
        std::mem::swap(&mut entries, &mut self.entries);
        let ghost before = entries@;
        if entries.len() >= MAX_CACHED_PIPELINES {
            proof {
                // Three distinct scenes cannot all be among the two needed.
                assert(entries@[0].key != entries@[1].key);
                assert(entries@[0].key != entries@[2].key);
                assert(entries@[1].key != entries@[2].key);
            }
            match least_recent(&entries, a, b) {
                Some(i) => {
                    let _ = entries.remove(i);
                    proof {
                        assert(evicts_least_recent(before, entries@, a, b)) by {
                            assert(entries@ == before.remove(i as int));
                        }
                    }
                },
                None => {
                    proof {
                        assert(needed(before[0].key, a, b));
                        assert(needed(before[1].key, a, b));
                        assert(needed(before[2].key, a, b));
                    }
                },
            }
        }
        let ghost kept = entries@;
        assert(distinct_keys(kept)) by {
            assert forall|x: int, y: int| 0 <= x < y < kept.len() implies kept[x].key
                != kept[y].key by {
                if kept.len() < before.len() {
                    let i = choose|i: int|
                        #![trigger before.remove(i)]
                        0 <= i < before.len() && kept == before.remove(i);
                    let bx = if x < i { x } else { x + 1 };
                    let by = if y < i { y } else { y + 1 };
                    assert(kept[x] == before[bx]);
                    assert(kept[y] == before[by]);
                }
            }
        }
        assert(kept.len() < MAX_CACHED_PIPELINES || kept.len() == before.len());
        match result {
            Ok(pipeline) => {
                let entry = CachedPipeline { key, pipeline, last_used: self.frame };
                match find(&entries, key) {
                    Some(i) => {
                        let _ = entries.remove(i);
                        entries.insert(i, entry);
                        proof {
                            assert(entries@ =~= kept.update(i as int, entry));
                        }
                    },
                    None => {
                        entries.push(entry);
                    },
                }
                proof {
                    assert(entries@ == put(kept, entry));
                    assert forall|x: int, y: int| 0 <= x < y < entries@.len() implies entries@[x].key
                        != entries@[y].key by {
                        if x < kept.len() && y < kept.len() {
                            assert(kept[x].key != kept[y].key);
                        }
                    }
                }
                self.entries = entries;
                assert(makes_room(old(self)@.entries, kept, a, b));
                Ok(())
            },
            Err(message) => {
                self.entries = entries;
                assert(makes_room(old(self)@.entries, kept, a, b));
                Err(message)
            },
        }
    }

    /// The compiled pipelines for the two scenes a frame draws, once both
    /// are cached.
    pub fn pipelines(&self, a: SceneKey, b: SceneKey) -> (r: Option<(&P, &P)>)
        ensures
            r is Some <==> holds(self@.entries, a) && holds(self@.entries, b),
            r matches Some(pair) ==> *pair.0 == self@.entries[index_of(self@.entries, a)].pipeline
                && *pair.1 == self@.entries[index_of(self@.entries, b)].pipeline,
    {
        proof {
            use_type_invariant(self);
        }
        match (find(&self.entries, a), find(&self.entries, b)) {
            (Some(i), Some(j)) => Some((&self.entries[i].pipeline, &self.entries[j].pipeline)),
            _ => None,
        }
    }
}

/// At most one compilation is in flight: while one is pending, no visit
/// sends another scene and no scene needs compiling.
pub proof fn law_one_compilation_in_flight<P>(v: PipelineCacheView<P>, key: SceneKey)
    requires
        v.pending is Some,
    ensures
        !visit_result(v, key).0,
        visit_result(v, key).1.pending == v.pending,
        !(v.pending.is_none() && !holds(v.entries, key)),
{
}

/// The scenes a frame needs are never evicted: every needed scene cached
/// before a completion is still cached after it.
pub proof fn law_needed_scenes_stay_cached<P>(
    before: Seq<CachedPipeline<P>>,
    kept: Seq<CachedPipeline<P>>,
    a: SceneKey,
    b: SceneKey,
    key: SceneKey,
)
    requires
        evicts_least_recent(before, kept, a, b),
        needed(key, a, b),
        holds(before, key),
    ensures
        holds(kept, key),
{
    let i = choose|i: int|
        #![trigger before.remove(i)]
        {
            &&& 0 <= i < before.len()
            &&& kept == before.remove(i)
            &&& !needed(before[i].key, a, b)
            &&& forall|j: int|
                0 <= j < before.len() && !needed(before[j].key, a, b) ==> before[i].last_used
                    <= #[trigger] before[j].last_used
        };
    let j = choose|j: int| 0 <= j < before.len() && before[j].key == key;
    assert(j != i);
    if j < i {
        assert(kept[j] == before[j]);
    } else {
        assert(kept[j - 1] == before[j]);
    }
}

} // verus!
