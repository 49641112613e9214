use vstd::prelude::*;

verus! {

/// One entry of a scene collection: its position in the collection, whether the
/// GPU copy lags behind the CPU value, and the value itself.
pub struct Record<T> {
    pub index: usize,
    pub dirty: bool,
    pub value: T,
}

/// The GPU work a mirror has handed out and not yet seen completed.
#[derive(Debug, Clone, Copy, PartialEq, Eq, Structural)]
pub enum Pending {
    Idle,
    /// A buffer of this many records is being allocated.
    Allocating(usize),
    /// The record at this position is being copied into the buffer.
    Writing(usize),
}

/// What the mirror asks the GPU side to do next.
#[derive(Debug, Clone, Copy, PartialEq, Eq, Structural)]
pub enum SyncAction {
    /// Replace the buffer by a fresh one holding exactly this many records.
    Allocate(usize),
    /// Copy the record at this position into the same slot of the buffer.
    Write(usize),
    /// The buffer holds every record: nothing is left to do in this frame.
    Done,
}

/// Every record is clean.
pub open spec fn all_clean<T>(recs: Seq<Record<T>>) -> bool {
    forall|j: int| 0 <= j < recs.len() ==> !(#[trigger] recs[j]).dirty
}

/// Every record is dirty.
pub open spec fn all_dirty<T>(recs: Seq<Record<T>>) -> bool {
    forall|j: int| 0 <= j < recs.len() ==> (#[trigger] recs[j]).dirty
}

/// `i` is the position of the first dirty record.
pub open spec fn first_dirty<T>(recs: Seq<Record<T>>, i: int) -> bool {
    &&& 0 <= i < recs.len()
    &&& recs[i].dirty
    &&& forall|j: int| 0 <= j < i ==> !(#[trigger] recs[j]).dirty
}

/// Each record's index is its position.
pub open spec fn indexed<T>(recs: Seq<Record<T>>) -> bool {
    forall|j: int| 0 <= j < recs.len() ==> (#[trigger] recs[j]).index == j
}

/// The records with every dirty flag raised.
pub open spec fn with_all_dirty<T>(recs: Seq<Record<T>>) -> Seq<Record<T>> {
    Seq::new(recs.len(), |j: int| Record { index: recs[j].index, dirty: true, value: recs[j].value })
}

/// The record with its dirty flag set to `d`.
pub open spec fn flagged<T>(r: Record<T>, d: bool) -> Record<T> {
    Record { index: r.index, dirty: d, value: r.value }
}

/// What a `DynamicBuffer` is: the CPU collection and what is known of its GPU copy.
pub struct MirrorView<T> {
    pub records: Seq<Record<T>>,
    /// The number of records the live buffer was sized for (0 before the first one).
    pub capacity: nat,
    /// Whether a buffer has been allocated at all.
    pub has_buffer: bool,
    pub pending: Pending,
    /// A write failed: the buffer must be replaced before anything else is written.
    pub retry: bool,
    /// The buffer was replaced since the descriptors were last built.
    pub stale: bool,
}

impl<T> MirrorView<T> {
    pub open spec fn needs_allocation(self) -> bool {
        self.retry || self.capacity != self.records.len()
    }

    /// The action handed out, if any, is still the one owed: nothing that
    /// would change it can happen while it is outstanding.
    pub open spec fn consistent(self) -> bool {
        match self.pending {
            Pending::Idle => true,
            Pending::Allocating(n) => self.needs_allocation() && n == self.records.len(),
            Pending::Writing(i) => !self.needs_allocation() && i < self.records.len() && self.records[i as int].dirty,
        }
    }

    /// `a` is the action owed in this state.
    pub open spec fn admits(self, a: SyncAction) -> bool {
        match a {
            SyncAction::Allocate(n) => self.needs_allocation() && n == self.records.len(),
            SyncAction::Write(i) => !self.needs_allocation() && first_dirty(self.records, i as int),
            SyncAction::Done => !self.needs_allocation() && all_clean(self.records),
        }
    }

    /// The state once `a` has been handed out.
    pub open spec fn issued(self, a: SyncAction) -> Self {
        match a {
            SyncAction::Allocate(n) => MirrorView { pending: Pending::Allocating(n), ..self },
            SyncAction::Write(i) => MirrorView { pending: Pending::Writing(i), ..self },
            SyncAction::Done => self,
        }
    }

    /// The state once the allocation handed out has completed: the old contents
    /// are gone, so every record must be written again.
    pub open spec fn allocated(self) -> Self {
        MirrorView {
            records: with_all_dirty(self.records),
            capacity: match self.pending {
                Pending::Allocating(n) => n as nat,
                _ => self.capacity,
            },
            has_buffer: true,
            pending: Pending::Idle,
            retry: false,
            stale: true,
        }
    }

    /// The state once the write handed out has completed, successfully or not.
    pub open spec fn written(self, ok: bool) -> Self {
        match self.pending {
            Pending::Writing(i) => if ok {
                MirrorView {
                    records: self.records.update(i as int, flagged(self.records[i as int], false)),
                    pending: Pending::Idle,
                    ..self
                }
            } else {
                MirrorView { pending: Pending::Idle, retry: true, ..self }
            },
            _ => self,
        }
    }
}

/// In any state at most one action is owed: the mirror's choice is determined.
pub proof fn lemma_action_determined<T>(s: MirrorView<T>, a: SyncAction, b: SyncAction)
    requires
        s.admits(a),
        s.admits(b),
    ensures
        a == b,
{
    match (a, b) {
        (SyncAction::Write(i), SyncAction::Write(k)) => {
            if i < k {
                assert(!s.records[i as int].dirty);
            } else if k < i {
                assert(!s.records[k as int].dirty);
            }
        },
        (SyncAction::Write(i), SyncAction::Done) => {
            assert(!s.records[i as int].dirty);
        },
        (SyncAction::Done, SyncAction::Write(k)) => {
            assert(!s.records[k as int].dirty);
        },
        _ => {},
    }
}

/// A pass ends only once the buffer holds exactly as many records as the
/// collection, and an allocation sizes the buffer to exactly that length.
pub proof fn law_capacity_is_exact<T>(s: MirrorView<T>, a: SyncAction)
    requires
        s.admits(a),
    ensures
        a == SyncAction::Done ==> s.capacity == s.records.len(),
        a matches SyncAction::Allocate(_) ==> s.issued(a).allocated().capacity == s.records.len(),
{
}

/// A pass over a collection that is clean and already fits its buffer writes
/// nothing and leaves the mirror as it was; so a pass that ended, run again with
/// no edit in between, writes nothing either.
pub proof fn law_clean_pass_writes_nothing<T>(s: MirrorView<T>)
    requires
        s.consistent(),
        !s.retry,
        s.capacity == s.records.len(),
        all_clean(s.records),
    ensures
        s.pending == Pending::Idle,
        s.admits(SyncAction::Done),
        forall|a: SyncAction| s.admits(a) ==> a == SyncAction::Done,
        s.issued(SyncAction::Done) == s,
        s.issued(SyncAction::Done).admits(SyncAction::Done),
{
    assert forall|a: SyncAction| s.admits(a) implies a == SyncAction::Done by {
        lemma_action_determined(s, a, SyncAction::Done);
    }
}

/// One legal move of a mirror whose collection is not edited: handing out the
/// owed action, handing out again the one outstanding, or completing it.
pub open spec fn moves_to<T>(s: MirrorView<T>, t: MirrorView<T>) -> bool {
    ||| t == s
    ||| s.pending == Pending::Idle && exists|a: SyncAction| s.admits(a) && t == s.issued(a)
    ||| (s.pending matches Pending::Allocating(_)) && t == s.allocated()
    ||| (s.pending matches Pending::Writing(i) && i < s.records.len()) && (t == s.written(true) || t == s.written(false))
}

/// Each state of `run` moves to the next.
pub open spec fn is_run<T>(run: Seq<MirrorView<T>>) -> bool {
    forall|k: int| 0 <= k < run.len() - 1 ==> moves_to(#[trigger] run[k], run[k + 1])
}

/// At step `k` of `run`, record `j` was written successfully.
pub open spec fn wrote_at<T>(run: Seq<MirrorView<T>>, k: int, j: int) -> bool {
    &&& run[k].pending == Pending::Writing(j as usize)
    &&& run[k + 1] == run[k].written(true)
}

/// At step `k` of `run`, a new buffer replaced the old one.
pub open spec fn allocated_at<T>(run: Seq<MirrorView<T>>, k: int) -> bool {
    &&& run[k].pending matches Pending::Allocating(_)
    &&& run[k + 1] == run[k].allocated()
}

/// No buffer replacement completes at any step from `lo` up to, not including, `hi`.
pub open spec fn no_allocation_between<T>(run: Seq<MirrorView<T>>, lo: int, hi: int) -> bool {
    forall|k: int| lo <= k < hi ==> !#[trigger] allocated_at(run, k)
}

/// Record `j` is written successfully at some step of `run`, and no buffer
/// replacement completes after that write.
pub open spec fn rewritten_in<T>(run: Seq<MirrorView<T>>, j: int) -> bool {
    exists|k: int| 0 <= k < run.len() - 1 && #[trigger] wrote_at(run, k, j) && no_allocation_between(run, k + 1, run.len() - 1)
}

proof fn lemma_move_keeps_length<T>(s: MirrorView<T>, t: MirrorView<T>)
    requires
        moves_to(s, t),
    ensures
        t.records.len() == s.records.len(),
{
}

proof fn lemma_run_keeps_length<T>(run: Seq<MirrorView<T>>, m: int)
    requires
        is_run(run),
        0 <= m < run.len(),
    ensures
        run[m].records.len() == run[0].records.len(),
    decreases m,
{
    if m > 0 {
        lemma_run_keeps_length(run, m - 1);
        lemma_move_keeps_length(run[m - 1], run[m]);
    }
}

/// If record `j` is dirty at the start of a run and clean at step `m`, it was
/// written successfully at some step before `m`, and no buffer replacement
/// completed after that write.
proof fn lemma_cleaned_by_write<T>(run: Seq<MirrorView<T>>, m: int, j: int)
    requires
        is_run(run),
        0 <= m < run.len(),
        0 <= j < run[0].records.len(),
        run[0].records[j].dirty,
        !run[m].records[j].dirty,
    ensures
        exists|k: int| 0 <= k < m && #[trigger] wrote_at(run, k, j) && no_allocation_between(run, k + 1, m),
    decreases m,
{
    lemma_run_keeps_length(run, m);
    let p = m - 1;
    assert(moves_to(run[p], run[p + 1]));
    lemma_run_keeps_length(run, p);
    let s = run[p];
    if allocated_at(run, p) {
        assert(run[m].records[j] == flagged(s.records[j], true));
    } else if !s.records[j].dirty {
        lemma_cleaned_by_write(run, p, j);
        let k = choose|k: int| 0 <= k < p && #[trigger] wrote_at(run, k, j) && no_allocation_between(run, k + 1, p);
        assert(no_allocation_between(run, k + 1, m));
    } else {
        if run[m] == s {
            assert(run[m].records[j] == s.records[j]);
        } else if s.pending == Pending::Idle {
            let a = choose|a: SyncAction| s.admits(a) && run[m] == s.issued(a);
            assert(run[m].records == s.records);
        } else {
            let i = match s.pending {
                Pending::Writing(i) => i,
                _ => 0,
            };
            if run[m] == s.written(false) || i as int != j {
                assert(run[m].records[j] == s.records[j]);
            }
            assert(wrote_at(run, p, j));
            assert(no_allocation_between(run, p + 1, m));
        }
    }
}

/// The pass that follows a change of the collection's length ends only once
/// every record has been rewritten: the new buffer starts with every record
/// dirty, and in any run of moves from there to a state where `Done` is owed,
/// each record is written successfully at some step, with no buffer replaced
/// after it.
pub proof fn law_pass_after_resize_rewrites_all<T>(s: MirrorView<T>, n: usize, run: Seq<MirrorView<T>>)
    requires
        s.capacity != s.records.len(),
        n == s.records.len(),
        run.len() > 0,
        run[0] == s.issued(SyncAction::Allocate(n)).allocated(),
        is_run(run),
        run.last().admits(SyncAction::Done),
    ensures
        all_dirty(run[0].records),
        forall|j: int| 0 <= j < n ==> #[trigger] rewritten_in(run, j),
        run.last().capacity == n,
{
    let m = run.len() - 1;
    lemma_run_keeps_length(run, m);
    assert forall|j: int| 0 <= j < n implies #[trigger] rewritten_in(run, j) by {
        assert(run[0].records[j] == flagged(s.records[j], true));
        assert(!run[m].records[j].dirty);
        lemma_cleaned_by_write(run, m, j);
    }
}

/// A growable GPU buffer that mirrors a CPU collection of fixed-size records.
///
/// The GPU work itself happens elsewhere: the mirror hands out one action at a
/// time (`next_action`) and is told when it completed.
pub struct DynamicBuffer<T> {
    records: Vec<Record<T>>,
    capacity: usize,
    has_buffer: bool,
    /// Every record before this position is clean.
    cursor: usize,
    pending: Pending,
    retry: bool,
    stale: bool,
}

impl<T> View for DynamicBuffer<T> {
    type V = MirrorView<T>;

    closed spec fn view(&self) -> MirrorView<T> {
        MirrorView {
            records: self.records@,
            capacity: self.capacity as nat,
            has_buffer: self.has_buffer,
            pending: self.pending,
            retry: self.retry,
            stale: self.stale,
        }
    }
}

impl<T> DynamicBuffer<T> {
    /// The mirror's invariant.
    pub closed spec fn wf(&self) -> bool {
        &&& self.capacity <= self.records.len()
        &&& self.cursor <= self.records.len()
        &&& forall|j: int| 0 <= j < self.cursor ==> !(#[trigger] self.records@[j]).dirty
        &&& indexed(self.records@)
        &&& self@.consistent()
        &&& match self.pending {
            Pending::Idle => true,
            Pending::Allocating(n) => n == self.records.len(),
            Pending::Writing(i) => self.cursor == i && i < self.records.len(),
        }
    }

    /// An empty collection with no buffer behind it yet.
    pub fn new() -> (r: Self)
        ensures
            r.wf(),
            r@.consistent(),
            r@.records.len() == 0,
            r@.capacity == 0,
            !r@.has_buffer,
            r@.pending == Pending::Idle,
            !r@.retry,
            !r@.stale,
    {
        DynamicBuffer {
            records: Vec::new(),
            capacity: 0,
            has_buffer: false,
            cursor: 0,
            pending: Pending::Idle,
            retry: false,
            stale: false,
        }
    }

    /// A well-formed mirror gives each entry its position as index, and the
    /// action it has handed out, if any, is still the one owed.
    pub proof fn lemma_valid(&self)
        requires
            self.wf(),
        ensures
            indexed(self@.records),
            self@.consistent(),
    {
    }

    pub fn len(&self) -> (r: usize)
        ensures
            r == self@.records.len(),
    {
        self.records.len()
    }

    pub fn get(&self, i: usize) -> (r: &Record<T>)
        requires
            i < self@.records.len(),
        ensures
            *r == self@.records[i as int],
    {
        &self.records[i]
    }

    pub fn has_buffer(&self) -> (r: bool)
        ensures
            r == self@.has_buffer,
    {
        self.has_buffer
    }

    pub fn is_idle(&self) -> (r: bool)
        ensures
            r <==> self@.pending == Pending::Idle,
    {
        self.pending == Pending::Idle
    }

    /// Appends a new entry, dirty, under the next index, and returns that index.
    pub fn push(&mut self, value: T) -> (r: usize)
        requires
            old(self).wf(),
            old(self)@.pending == Pending::Idle,
            old(self)@.records.len() < usize::MAX,
        ensures
            final(self).wf(),
            indexed(final(self)@.records),
            r == old(self)@.records.len(),
            final(self)@ == (MirrorView {
                records: old(self)@.records.push(Record { index: r, dirty: true, value }),
                ..old(self)@
            }),
    {
        let r = self.records.len();
        self.records.push(Record { index: r, dirty: true, value });
        assert(indexed(self.records@)) by {
            assert forall|j: int| 0 <= j < self.records@.len() implies (#[trigger] self.records@[j]).index == j by {
                if j < r {
                    assert(self.records@[j] == old(self).records@[j]);
                }
            }
        }
        r
    }

    /// Replaces the value at `i` and marks it dirty.
    pub fn set(&mut self, i: usize, value: T)
        requires
            old(self).wf(),
            old(self)@.pending == Pending::Idle,
            i < old(self)@.records.len(),
        ensures
            final(self).wf(),
            indexed(final(self)@.records),
            final(self)@ == (MirrorView {
                records: old(self)@.records.update(i as int, Record { index: i, dirty: true, value }),
                ..old(self)@
            }),
    {
        self.records.set(i, Record { index: i, dirty: true, value });
        if i < self.cursor {
            self.cursor = i;
        }
    }

    /// Marks the entry at `i` dirty, so that the next pass writes it again.
    pub fn mark_dirty(&mut self, i: usize)
        requires
            old(self).wf(),
            old(self)@.pending == Pending::Idle,
            i < old(self)@.records.len(),
        ensures
            final(self).wf(),
            indexed(final(self)@.records),
            final(self)@ == (MirrorView {
                records: old(self)@.records.update(i as int, flagged(old(self)@.records[i as int], true)),
                ..old(self)@
            }),
    {
        self.records[i].dirty = true;
        if i < self.cursor {
            self.cursor = i;
        }
    }

    /// Hands out the next piece of GPU work: a new buffer when the collection's
    /// length differs from the buffer's (or a write failed), else the first dirty
    /// record, else `Done`. An action handed out and not yet completed is
    /// handed out again, and nothing changes.
    pub fn next_action(&mut self) -> (a: SyncAction)
        requires
            old(self).wf(),
        ensures
            final(self).wf(),
            indexed(final(self)@.records),
            old(self)@.admits(a),
            match old(self)@.pending {
                Pending::Idle => final(self)@ == old(self)@.issued(a),
                Pending::Allocating(n) => a == SyncAction::Allocate(n) && final(self)@ == old(self)@,
                Pending::Writing(i) => a == SyncAction::Write(i) && final(self)@ == old(self)@,
            },
            moves_to(old(self)@, final(self)@),
    {
        match self.pending {
            Pending::Allocating(n) => return SyncAction::Allocate(n),
            Pending::Writing(i) => return SyncAction::Write(i),
            Pending::Idle => {},
        }
        let len = self.records.len();
        if self.retry || self.capacity != len {
            self.pending = Pending::Allocating(len);
            return SyncAction::Allocate(len);
        }
        let mut i: usize = self.cursor;
        while i < len
            invariant
                self.wf(),
                self.pending == Pending::Idle,
                self.records@ == old(self).records@,
                self@ == old(self)@,
                !self.retry,
                self.capacity == len,
                self.cursor <= i <= len,
                len == self.records.len(),
                forall|j: int| 0 <= j < i ==> !(#[trigger] self.records@[j]).dirty,
            decreases len - i,
        {
            if self.records[i].dirty {
                self.cursor = i;
                self.pending = Pending::Writing(i);
                return SyncAction::Write(i);
            }
            i = i + 1;
        }
        self.cursor = len;
        SyncAction::Done
    }

    /// Reports that the buffer handed out by `Allocate` now exists. Its contents
    /// are new, so every record is marked dirty and the descriptors go stale.
    pub fn complete_allocation(&mut self)
        requires
            old(self).wf(),
            old(self)@.pending matches Pending::Allocating(_),
        ensures
            final(self).wf(),
            indexed(final(self)@.records),
            final(self)@ == old(self)@.allocated(),
            moves_to(old(self)@, final(self)@),
    {
        let len = self.records.len();
        let mut j: usize = 0;
        while j < len
            invariant
                len == self.records.len(),
                len == old(self).records.len(),
                j <= len,
                forall|k: int| 0 <= k < j ==> self.records@[k] == flagged(#[trigger] old(self).records@[k], true),
                forall|k: int| j <= k < len ==> self.records@[k] == #[trigger] old(self).records@[k],
            decreases len - j,
        {
            self.records[j].dirty = true;
            j = j + 1;
        }
        self.capacity = len;
        self.has_buffer = true;
        self.cursor = 0;
        self.pending = Pending::Idle;
        self.retry = false;
        self.stale = true;
        assert(self.records@ =~= with_all_dirty(old(self).records@));
        assert(indexed(self.records@)) by {
            assert forall|k: int| 0 <= k < len implies (#[trigger] self.records@[k]).index == k by {
                assert(self.records@[k] == flagged(old(self).records@[k], true));
            }
        }
    }

    /// Reports how the write handed out by `Write` went. A successful one cleans
    /// its record; a failed one leaves every flag as it was and asks for a new
    /// buffer before anything else.
    pub fn complete_write(&mut self, ok: bool)
        requires
            old(self).wf(),
            old(self)@.pending matches Pending::Writing(_),
        ensures
            final(self).wf(),
            indexed(final(self)@.records),
            final(self)@ == old(self)@.written(ok),
            moves_to(old(self)@, final(self)@),
    {
        let i = match self.pending {
            Pending::Writing(i) => i,
            _ => 0,
        };
        if ok {
            self.records[i].dirty = false;
            self.cursor = i + 1;
            assert(self.records@ =~= old(self).records@.update(i as int, flagged(old(self).records@[i as int], false)));
            assert(indexed(self.records@)) by {
                assert forall|k: int| 0 <= k < self.records@.len() implies (#[trigger] self.records@[k]).index == k by {
                    if k != i {
                        assert(self.records@[k] == old(self).records@[k]);
                    }
                }
            }
        } else {
            self.retry = true;
        }
        self.pending = Pending::Idle;
    }

    /// Whether the buffer was replaced since the last call; clears the signal.
    pub fn take_descriptors_stale(&mut self) -> (r: bool)
        requires
            old(self).wf(),
        ensures
            final(self).wf(),
            indexed(final(self)@.records),
            r == old(self)@.stale,
            final(self)@ == (MirrorView { stale: false, ..old(self)@ }),
    {
        let r = self.stale;
        self.stale = false;
        r
    }
}

} // verus!
