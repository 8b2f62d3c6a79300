use vstd::prelude::*;

verus! {

/// A task's process-wide identity: handed out by the executor in strictly
/// increasing order and never reused.
#[derive(Clone, Copy, Debug, PartialEq, Eq, Structural, PartialOrd, Ord)]
pub struct TaskId(pub u64);

/// A schedulable unit of work. The suspended computation itself lives with
/// the run loop, keyed by this record's id; the scheduler tracks only
/// identity and readiness.
#[derive(Clone, Copy, Debug, PartialEq, Eq, Structural)]
pub struct Task {
    pub id: TaskId,
}

impl Task {
    pub fn new(id: TaskId) -> (t: Task)
        ensures
            t.id == id,
    {
        Task { id }
    }
}

/// The sequence with every occurrence of `id` removed, the order of the
/// remaining elements kept.
pub open spec fn spec_remove_id(s: Seq<TaskId>, id: TaskId) -> Seq<TaskId>
    decreases s.len(),
{
    if s.len() == 0 {
        s
    } else if s.first() == id {
        spec_remove_id(s.drop_first(), id)
    } else {
        seq![s.first()] + spec_remove_id(s.drop_first(), id)
    }
}

/// Removing an id removes exactly that id: membership of every other element
/// is unchanged, freedom from duplicates is kept, and a sequence that never
/// held the id comes back untouched.
pub proof fn lemma_remove_id_props(s: Seq<TaskId>, id: TaskId)
    ensures
        forall|o: TaskId| #[trigger] spec_remove_id(s, id).contains(o) <==> (s.contains(o) && o
            != id),
        s.no_duplicates() ==> spec_remove_id(s, id).no_duplicates(),
        !s.contains(id) ==> spec_remove_id(s, id) == s,
    decreases s.len(),
{
    if s.len() == 0 {
        assert forall|o: TaskId| #[trigger] spec_remove_id(s, id).contains(o) <==> (s.contains(o)
            && o != id) by {
            assert(!spec_remove_id(s, id).contains(o));
            assert(!s.contains(o));
        }
    } else {
        let rest = s.drop_first();
        lemma_remove_id_props(rest, id);
        assert forall|o: TaskId| #[trigger] s.contains(o) implies (o == s.first() || rest.contains(
            o,
        )) by {
            let i = choose|i: int| 0 <= i < s.len() && s[i] == o;
            if i > 0 {
                assert(rest[i - 1] == o);
            }
        }
        assert forall|o: TaskId| #[trigger] rest.contains(o) implies s.contains(o) by {
            let i = choose|i: int| 0 <= i < rest.len() && rest[i] == o;
            assert(s[i + 1] == o);
        }
        assert(s.contains(s.first()));
        if s.first() == id {
            assert(spec_remove_id(s, id) == spec_remove_id(rest, id));
            assert forall|o: TaskId| #[trigger] spec_remove_id(s, id).contains(o) <==> (s.contains(
                o,
            ) && o != id) by {
                assert(spec_remove_id(rest, id).contains(o) <==> (rest.contains(o) && o != id));
                if s.contains(o) && o != id {
                    assert(o == s.first() || rest.contains(o));
                    assert(rest.contains(o));
                }
                if rest.contains(o) {
                    assert(s.contains(o));
                }
            }
        } else {
            let r = spec_remove_id(rest, id);
            assert(spec_remove_id(s, id) == seq![s.first()] + r);
            assert forall|o: TaskId| #[trigger] (seq![s.first()] + r).contains(o) implies (o
                == s.first() || r.contains(o)) by {
                let i = choose|i: int|
                    0 <= i < (seq![s.first()] + r).len() && (seq![s.first()] + r)[i] == o;
                if i > 0 {
                    assert(r[i - 1] == o);
                }
            }
            assert forall|o: TaskId| o == s.first() || r.contains(o) implies #[trigger] (seq![
                s.first(),
            ] + r).contains(o) by {
                if o == s.first() {
                    assert((seq![s.first()] + r)[0] == o);
                } else {
                    let i = choose|i: int| 0 <= i < r.len() && r[i] == o;
                    assert((seq![s.first()] + r)[i + 1] == o);
                }
            }
            if s.no_duplicates() {
                assert(rest.no_duplicates());
                assert(!rest.contains(s.first()));
                assert(!r.contains(s.first()));
                assert forall|i: int, j: int|
                    0 <= i < j < (seq![s.first()] + r).len() implies (seq![s.first()] + r)[i] != (
                seq![s.first()] + r)[j] by {
                    if i == 0 {
                        assert(r.contains(r[j - 1]));
                    }
                }
            }
            if !s.contains(id) {
                assert(!rest.contains(id));
                assert(spec_remove_id(s, id) =~= s);
            }
        }
    }
}

/// A fresh id vanishes from a ready queue exactly as it came: removing it
/// right after it was enqueued restores the queue, so it was enqueued once.
pub proof fn lemma_remove_pushed_id(s: Seq<TaskId>, id: TaskId)
    requires
        !s.contains(id),
    ensures
        spec_remove_id(s.push(id), id) == s,
    decreases s.len(),
{
    if s.len() == 0 {
        assert(s.push(id).len() == 1);
        assert(s.push(id).first() == id);
        assert(s.push(id).drop_first() =~= Seq::<TaskId>::empty());
        assert(spec_remove_id(s.push(id), id) == spec_remove_id(
            Seq::<TaskId>::empty(),
            id,
        ));
        assert(spec_remove_id(Seq::<TaskId>::empty(), id) =~= s);
    } else {
        assert(s.push(id).first() == s.first());
        assert(s.contains(s.first()));
        assert(s.first() != id);
        assert(s.push(id).drop_first() =~= s.drop_first().push(id));
        assert forall|o: TaskId| #[trigger] s.drop_first().contains(o) implies s.contains(o) by {
            let i = choose|i: int| 0 <= i < s.drop_first().len() && s.drop_first()[i] == o;
            assert(s[i + 1] == o);
        }
        lemma_remove_pushed_id(s.drop_first(), id);
        assert(spec_remove_id(s.push(id), id) == seq![s.first()] + s.drop_first());
        assert(seq![s.first()] + s.drop_first() =~= s);
    }
}

/// The cooperative scheduler's bookkeeping: the set of live tasks, the FIFO
/// queue of task ids ready to be polled, and the counter the next id comes
/// from. The run loop pops an id, polls the task it names, and reports the
/// outcome back; a waker hands a pending task's id back to the queue.
pub struct Executor {
    next_id: u64,
    live: Vec<TaskId>,
    ready: Vec<TaskId>,
}

impl Executor {
    /// The ids of the tasks that have been spawned and have not completed.
    pub closed spec fn spec_live(self) -> Seq<TaskId> {
        self.live@
    }

    /// The ids waiting to be polled, front first.
    pub closed spec fn spec_ready(self) -> Seq<TaskId> {
        self.ready@
    }

    /// The id the next spawned task will get.
    pub closed spec fn spec_next_id(self) -> u64 {
        self.next_id
    }

    /// The scheduler's invariant: no id is live or ready twice, every ready
    /// id is live, and every live id is below the allocation counter, so
    /// spawned ids are fresh.
    pub closed spec fn wf(self) -> bool {
        &&& self.live@.no_duplicates()
        &&& self.ready@.no_duplicates()
        &&& forall|i: int|
            0 <= i < self.ready@.len() ==> self.live@.contains(#[trigger] self.ready@[i])
        &&& forall|i: int| 0 <= i < self.live@.len() ==> (#[trigger] self.live@[i]).0 < self.next_id
    }

    pub fn new() -> (e: Executor)
        ensures
            e.wf(),
            e.spec_live() == Seq::<TaskId>::empty(),
            e.spec_ready() == Seq::<TaskId>::empty(),
            e.spec_next_id() == 0,
    {
        Executor { next_id: 0, live: Vec::new(), ready: Vec::new() }
    }

    /// Registers a new task as live and ready. The returned record carries
    /// the fresh id, strictly above every id handed out before, for the run
    /// loop to pair with the task's suspended computation.
    pub fn spawn(&mut self) -> (t: Task)
        requires
            old(self).wf(),
            old(self).spec_next_id() < u64::MAX,
        ensures
            final(self).wf(),
            t.id.0 == old(self).spec_next_id(),
            !old(self).spec_live().contains(t.id),
            !old(self).spec_ready().contains(t.id),
            final(self).spec_live() == old(self).spec_live().push(t.id),
            final(self).spec_ready() == old(self).spec_ready().push(t.id),
            final(self).spec_next_id() == old(self).spec_next_id() + 1,
    {
        let id = TaskId(self.next_id);
        proof {
            assert(forall|i: int|
                0 <= i < self.live@.len() ==> (#[trigger] self.live@[i]).0 < id.0);
            assert(!self.live@.contains(id));
            if self.ready@.contains(id) {
                let i = choose|i: int| 0 <= i < self.ready@.len() && self.ready@[i] == id;
                assert(self.live@.contains(id));
            }
        }
        self.next_id = self.next_id + 1;
        self.live.push(id);
        self.ready.push(id);
        proof {
            let l0 = old(self).live@;
            let r0 = old(self).ready@;
            assert forall|i: int, j: int|
                0 <= i < j < l0.push(id).len() implies l0.push(id)[i] != l0.push(id)[j] by {
                if j < l0.len() {
                    assert(l0[i] != l0[j]);
                } else {
                    assert(l0.contains(l0[i]));
                }
            }
            assert forall|i: int, j: int|
                0 <= i < j < r0.push(id).len() implies r0.push(id)[i] != r0.push(id)[j] by {
                if j < r0.len() {
                    assert(r0[i] != r0[j]);
                } else {
                    assert(r0.contains(r0[i]));
                }
            }
            assert forall|i: int|
                0 <= i < r0.push(id).len() implies l0.push(id).contains(
                #[trigger] r0.push(id)[i]) by {
                if i < r0.len() {
                    let k = choose|k: int| 0 <= k < l0.len() && l0[k] == r0[i];
                    assert(l0.push(id)[k] == r0[i]);
                } else {
                    assert(l0.push(id)[l0.len() as int] == id);
                }
            }
        }
        Task::new(id)
    }

    /// Takes the id at the front of the ready queue, the next task the run
    /// loop should poll; the id is no longer queued afterwards.
    pub fn next_ready(&mut self) -> (r: Option<TaskId>)
        requires
            old(self).wf(),
        ensures
            final(self).wf(),
            final(self).spec_live() == old(self).spec_live(),
            final(self).spec_next_id() == old(self).spec_next_id(),
            old(self).spec_ready().len() == 0 ==> r is None
                && final(self).spec_ready() == old(self).spec_ready(),
            old(self).spec_ready().len() > 0 ==> (r == Some(old(self).spec_ready().first())
                && final(self).spec_ready() == old(self).spec_ready().drop_first()
                && !final(self).spec_ready().contains(old(self).spec_ready().first())),
    {
        if self.ready.len() == 0 {
            None
        } else {
            let id = self.ready.remove(0);
            proof {
                let r0 = old(self).ready@;
                assert(r0.remove(0) =~= r0.drop_first());
                assert forall|i: int, j: int|
                    0 <= i < j < r0.drop_first().len() implies r0.drop_first()[i]
                    != r0.drop_first()[j] by {
                    assert(r0[i + 1] != r0[j + 1]);
                }
                assert forall|i: int|
                    0 <= i < r0.drop_first().len() implies self.live@.contains(
                    #[trigger] r0.drop_first()[i]) by {
                    assert(r0.drop_first()[i] == r0[i + 1]);
                }
                if r0.drop_first().contains(r0.first()) {
                    let i = choose|i: int|
                        0 <= i < r0.drop_first().len() && r0.drop_first()[i] == r0.first();
                    assert(r0[i + 1] == r0[0]);
                }
            }
            Some(id)
        }
    }

    /// Records the outcome of polling task `id`: a completed task is removed
    /// from the live set (and from the ready queue, should a wake have raced
    /// the poll), never to be polled again; a pending one is left exactly as
    /// it is, to be re-enqueued only by its wake source.
    pub fn finish_poll(&mut self, id: TaskId, completed: bool)
        requires
            old(self).wf(),
        ensures
            final(self).wf(),
            final(self).spec_next_id() == old(self).spec_next_id(),
            !completed ==> *final(self) == *old(self),
            completed ==> final(self).spec_live() == spec_remove_id(old(self).spec_live(), id),
            completed ==> final(self).spec_ready() == spec_remove_id(old(self).spec_ready(), id),
            completed ==> !final(self).spec_live().contains(id)
                && !final(self).spec_ready().contains(id),
    {
        if completed {
            let new_live = vec_remove_id(&self.live, id);
            let new_ready = vec_remove_id(&self.ready, id);
            proof {
                lemma_remove_id_props(self.live@, id);
                lemma_remove_id_props(self.ready@, id);
            }
            self.live = new_live;
            self.ready = new_ready;
            proof {
                let l0 = old(self).live@;
                let r0 = old(self).ready@;
                assert forall|i: int|
                    0 <= i < self.ready@.len() implies self.live@.contains(
                    #[trigger] self.ready@[i]) by {
                    let o = self.ready@[i];
                    assert(self.ready@.contains(o));
                    assert(r0.contains(o) && o != id);
                    let j = choose|j: int| 0 <= j < r0.len() && r0[j] == o;
                    assert(l0.contains(r0[j]));
                    assert(self.live@.contains(o));
                }
                assert forall|i: int|
                    0 <= i < self.live@.len() implies (#[trigger] self.live@[i]).0
                    < self.next_id by {
                    let o = self.live@[i];
                    assert(self.live@.contains(o));
                    assert(l0.contains(o));
                    let j = choose|j: int| 0 <= j < l0.len() && l0[j] == o;
                }
            }
        }
    }

    /// The wake path: a live task that is not already queued is pushed onto
    /// the back of the ready queue, so the run loop will poll it again; a
    /// wake for a completed (or already queued) task changes nothing.
    pub fn wake_task(&mut self, id: TaskId) -> (r: bool)
        requires
            old(self).wf(),
        ensures
            final(self).wf(),
            final(self).spec_live() == old(self).spec_live(),
            final(self).spec_next_id() == old(self).spec_next_id(),
            r == (old(self).spec_live().contains(id) && !old(self).spec_ready().contains(id)),
            r ==> final(self).spec_ready() == old(self).spec_ready().push(id),
            !r ==> final(self).spec_ready() == old(self).spec_ready(),
    {
        let is_live = contains_id(&self.live, id);
        let is_queued = contains_id(&self.ready, id);
        if is_live && !is_queued {
            self.ready.push(id);
            proof {
                let r0 = old(self).ready@;
                let l0 = old(self).live@;
                assert forall|i: int, j: int|
                    0 <= i < j < r0.push(id).len() implies r0.push(id)[i] != r0.push(id)[j] by {
                    if j < r0.len() {
                        assert(r0[i] != r0[j]);
                    } else {
                        assert(r0.contains(r0[i]));
                    }
                }
                assert forall|i: int|
                    0 <= i < r0.push(id).len() implies l0.contains(#[trigger] r0.push(id)[i]) by {
                    if i < r0.len() {
                        assert(l0.contains(r0[i]));
                    }
                }
            }
            true
        } else {
            false
        }
    }

    /// How many tasks are waiting to be polled.
    pub fn ready_count(&self) -> (n: usize)
        ensures
            n == self.spec_ready().len(),
    {
        self.ready.len()
    }

    /// How many tasks are live.
    pub fn live_count(&self) -> (n: usize)
        ensures
            n == self.spec_live().len(),
    {
        self.live.len()
    }

    /// Whether the run loop may halt the CPU: nothing is ready to poll. The
    /// run loop must mask interrupts around this check and the halt, so a
    /// wake cannot slip between them.
    pub fn is_idle(&self) -> (r: bool)
        ensures
            r == (self.spec_ready().len() == 0),
    {
        self.ready.len() == 0
    }

    /// Whether the task with this id is live.
    pub fn is_live(&self, id: TaskId) -> (r: bool)
        ensures
            r == self.spec_live().contains(id),
    {
        contains_id(&self.live, id)
    }
}

/// Linear search for an id.
fn contains_id(v: &Vec<TaskId>, id: TaskId) -> (r: bool)
    ensures
        r == v@.contains(id),
{
    let mut i: usize = 0;
    while i < v.len()
        invariant
            i <= v@.len(),
            forall|j: int| 0 <= j < i ==> v@[j] != id,
        decreases v@.len() - i,
    {
        if v[i] == id {
            return true;
        }
        i = i + 1;
    }
    false
}

/// A copy of the vector with every occurrence of `id` removed.
fn vec_remove_id(v: &Vec<TaskId>, id: TaskId) -> (out: Vec<TaskId>)
    ensures
        out@ == spec_remove_id(v@, id),
{
    let mut out: Vec<TaskId> = Vec::new();
    let mut i: usize = 0;
    proof {
        assert(v@.skip(0) =~= v@);
        assert(out@ + spec_remove_id(v@, id) =~= spec_remove_id(v@, id));
    }
    while i < v.len()
        invariant
            i <= v@.len(),
            out@ + spec_remove_id(v@.skip(i as int), id) == spec_remove_id(v@, id),
        decreases v@.len() - i,
    {
        proof {
            assert(v@.skip(i as int).len() > 0);
            assert(v@.skip(i as int).first() == v@[i as int]);
            assert(v@.skip(i as int).drop_first() =~= v@.skip(i as int + 1));
        }
        if v[i] != id {
            let ghost out0 = out@;
            proof {
                assert(spec_remove_id(v@.skip(i as int), id) == seq![v@[i as int]]
                    + spec_remove_id(v@.skip(i as int + 1), id));
            }
            out.push(v[i]);
            proof {
                assert(out0 + (seq![v@[i as int]] + spec_remove_id(v@.skip(i as int + 1), id))
                    =~= out0.push(v@[i as int]) + spec_remove_id(v@.skip(i as int + 1), id));
            }
        } else {
            proof {
                assert(spec_remove_id(v@.skip(i as int), id) == spec_remove_id(
                    v@.skip(i as int + 1),
                    id,
                ));
            }
        }
        i = i + 1;
    }
    proof {
        assert(v@.skip(v@.len() as int) =~= Seq::<TaskId>::empty());
        assert(spec_remove_id(Seq::<TaskId>::empty(), id) =~= Seq::<TaskId>::empty());
        assert(out@ + Seq::<TaskId>::empty() =~= out@);
    }
    out
}

/// Executor liveness, completion half: a task spawned into a queue that does
/// not hold its id is enqueued exactly once — removing the id right after
/// the spawn restores the queue — so the run loop polls it exactly once
/// before its completion takes it out of the live set.
pub proof fn lemma_spawned_task_queued_once(ready: Seq<TaskId>, id: TaskId)
    requires
        !ready.contains(id),
    ensures
        ready.push(id).contains(id),
        spec_remove_id(ready.push(id), id) == ready,
{
    assert(ready.push(id)[ready.len() as int] == id);
    lemma_remove_pushed_id(ready, id);
}

/// Executor liveness, pending half: while a task's id is out of the ready
/// queue, the queue cannot hand it to the run loop — the front is a
/// different id, popping keeps it absent, and so does removing a completed
/// other task or enqueueing another wake. Only a wake of the task itself
/// puts it back.
pub proof fn lemma_pending_task_not_repolled(ready: Seq<TaskId>, id: TaskId, other: TaskId)
    requires
        !ready.contains(id),
        other != id,
    ensures
        ready.len() > 0 ==> ready.first() != id,
        ready.len() > 0 ==> !ready.drop_first().contains(id),
        !spec_remove_id(ready, other).contains(id),
        !ready.push(other).contains(id),
        ready.push(id).contains(id),
{
    if ready.len() > 0 {
        assert(ready.contains(ready.first()));
        if ready.drop_first().contains(id) {
            let i = choose|i: int|
                0 <= i < ready.drop_first().len() && ready.drop_first()[i] == id;
            assert(ready[i + 1] == id);
        }
    }
    lemma_remove_id_props(ready, other);
    if ready.push(other).contains(id) {
        let i = choose|i: int| 0 <= i < ready.push(other).len() && ready.push(other)[i] == id;
        assert(ready[i] == id);
    }
    assert(ready.push(id)[ready.len() as int] == id);
}

} // verus!
