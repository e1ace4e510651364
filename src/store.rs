use vstd::prelude::*;

use crate::patches::PatchMeta;

verus! {

/// The map from job id to record that `entries` stands for: a later entry
/// for an id overrides an earlier one.
pub open spec fn entries_map(entries: Seq<(String, PatchMeta)>) -> Map<Seq<char>, PatchMeta>
    decreases entries.len(),
{
    if entries.len() == 0 {
        Map::empty()
    } else {
        entries_map(entries.drop_last()).insert(entries.last().0@, entries.last().1)
    }
}

/// No id appears in two entries.
pub open spec fn keys_distinct(entries: Seq<(String, PatchMeta)>) -> bool {
    forall|i: int, j: int|
        0 <= i < j < entries.len() ==> #[trigger] entries[i].0@ != #[trigger] entries[j].0@
}

proof fn lemma_entries_map_index(entries: Seq<(String, PatchMeta)>, i: int)
    requires
        keys_distinct(entries),
        0 <= i < entries.len(),
    ensures
        entries_map(entries).contains_key(entries[i].0@),
        entries_map(entries)[entries[i].0@] == entries[i].1,
    decreases entries.len(),
{
    if i < entries.len() - 1 {
        lemma_entries_map_index(entries.drop_last(), i);
    }
}

proof fn lemma_entries_map_absent(entries: Seq<(String, PatchMeta)>, k: Seq<char>)
    requires
        forall|i: int| 0 <= i < entries.len() ==> #[trigger] entries[i].0@ != k,
    ensures
        !entries_map(entries).contains_key(k),
    decreases entries.len(),
{
    if entries.len() > 0 {
        lemma_entries_map_absent(entries.drop_last(), k);
    }
}

proof fn lemma_entries_map_update(entries: Seq<(String, PatchMeta)>, i: int, v: PatchMeta)
    requires
        keys_distinct(entries),
        0 <= i < entries.len(),
    ensures
        entries_map(entries.update(i, (entries[i].0, v))) == entries_map(entries).insert(
            entries[i].0@,
            v,
        ),
    decreases entries.len(),
{
    let updated = entries.update(i, (entries[i].0, v));
    if i == entries.len() - 1 {
        assert(updated.drop_last() =~= entries.drop_last());
        assert(entries_map(updated) =~= entries_map(entries).insert(entries[i].0@, v));
    } else {
        assert(updated.drop_last() =~= entries.drop_last().update(i, (entries[i].0, v)));
        lemma_entries_map_update(entries.drop_last(), i, v);
        assert(entries[i].0@ != entries.last().0@);
        assert(entries_map(updated) =~= entries_map(entries).insert(entries[i].0@, v));
    }
}

/// The job records, by id.
#[derive(Debug)]
pub struct PatchesMap {
    entries: Vec<(String, PatchMeta)>,
}

impl View for PatchesMap {
    type V = Map<Seq<char>, PatchMeta>;

    closed spec fn view(&self) -> Map<Seq<char>, PatchMeta> {
        entries_map(self.entries@)
    }
}

/// What a lookup of `id` in `m` finds.
pub open spec fn lookup(m: Map<Seq<char>, PatchMeta>, id: Seq<char>) -> Option<PatchMeta> {
    if m.contains_key(id) {
        Some(m[id])
    } else {
        None
    }
}

impl PatchesMap {
    #[verifier::type_invariant]
    spec fn inv(self) -> bool {
        keys_distinct(self.entries@)
    }

    pub fn new() -> (r: PatchesMap)
        ensures
            r@ == Map::<Seq<char>, PatchMeta>::empty(),
    {
        PatchesMap { entries: Vec::new() }
    }

    /// The index of the entry for `id`, if there is one.
    fn position(&self, id: &String) -> (r: Option<usize>)
        ensures
            match r {
                Some(i) => i < self.entries@.len() && self.entries@[i as int].0@ == id@,
                None => forall|i: int|
                    0 <= i < self.entries@.len() ==> #[trigger] self.entries@[i].0@ != id@,
            },
    {
        let mut i: usize = 0;
        while i < self.entries.len()
            invariant
                i <= self.entries@.len(),
                forall|k: int| 0 <= k < i ==> #[trigger] self.entries@[k].0@ != id@,
            decreases self.entries@.len() - i,
        {
            if self.entries[i].0 == *id {
                return Some(i);
            }
            i += 1;
        }
        None
    }

    /// Stores `record` under `id`, replacing whatever was stored there.
    pub fn insert(&mut self, id: String, record: PatchMeta)
        ensures
            final(self)@ == old(self)@.insert(id@, record),
    {
        proof {
            use_type_invariant(&*self);
        }
        let mut entries: Vec<(String, PatchMeta)> = Vec::new();
        std::mem::swap(&mut entries, &mut self.entries);
        let ghost before = entries@;
        let found = {
            let probe = PatchesMap { entries };
            let found = probe.position(&id);
            entries = probe.entries;
            found
        };
        match found {
            Some(i) => {
                proof {
                    lemma_entries_map_update(before, i as int, record);
                }
                let key = entries[i].0.clone();
                entries.set(i, (key, record));
                assert(entries@ =~= before.update(i as int, (before[i as int].0, record)));
            },
            None => {
                entries.push((id, record));
                assert(entries@.drop_last() =~= before);
            },
        }
        self.entries = entries;
    }

    /// A copy of the record stored under `id`, if any.
    pub fn get(&self, id: &str) -> (r: Option<PatchMeta>)
        ensures
            r == lookup(self@, id@),
    {
        proof {
            use_type_invariant(self);
        }
        let key = id.to_string();
        match self.position(&key) {
            Some(i) => {
                proof {
                    lemma_entries_map_index(self.entries@, i as int);
                }
                Some(self.entries[i].1.duplicate())
            },
            None => {
                proof {
                    lemma_entries_map_absent(self.entries@, id@);
                }
                None
            },
        }
    }

    /// A copy of every stored record with its id, each id once.
    pub fn list(&self) -> (r: Vec<(String, PatchMeta)>)
        ensures
            entries_map(r@) == self@,
            keys_distinct(r@),
    {
        proof {
            use_type_invariant(self);
        }
        let mut r: Vec<(String, PatchMeta)> = Vec::new();
        let mut i: usize = 0;
        while i < self.entries.len()
            invariant
                i <= self.entries@.len(),
                r@ == self.entries@.take(i as int),
            decreases self.entries@.len() - i,
        {
            let entry = (self.entries[i].0.clone(), self.entries[i].1.duplicate());
            r.push(entry);
            assert(self.entries@.take(i + 1) =~= self.entries@.take(i as int).push(self.entries@[i as int]));
            i += 1;
        }
        assert(self.entries@.take(i as int) =~= self.entries@);
        r
    }
}

/// The ids of the jobs that wait for the worker, oldest first.
#[derive(Debug)]
pub struct PatchQueue {
    ids: std::collections::VecDeque<String>,
}

impl View for PatchQueue {
    type V = Seq<Seq<char>>;

    closed spec fn view(&self) -> Seq<Seq<char>> {
        self.ids@.map_values(|id: String| id@)
    }
}

impl PatchQueue {
    pub fn new() -> (r: PatchQueue)
        ensures
            r@ == Seq::<Seq<char>>::empty(),
    {
        let r = PatchQueue { ids: std::collections::VecDeque::new() };
        assert(r@ =~= Seq::<Seq<char>>::empty());
        r
    }

    /// Appends `id` at the back.
    pub fn enqueue(&mut self, id: String)
        ensures
            final(self)@ == old(self)@.push(id@),
            run_queue(old(self)@, seq![QueueOp::Enqueue(id@)]) == (final(self)@, Seq::<
                Seq<char>,
            >::empty()),
    {
        self.ids.push_back(id);
        assert(self@ =~= old(self)@.push(id@));
        proof {
            reveal_with_fuel(run_queue, 2);
            assert(seq![QueueOp::Enqueue(id@)].drop_first() =~= Seq::<QueueOp>::empty());
        }
    }

    /// Removes and returns the id at the front; `None` when the queue is empty.
    pub fn dequeue(&mut self) -> (r: Option<String>)
        ensures
            old(self)@.len() == 0 ==> r is None && final(self)@ == old(self)@,
            old(self)@.len() > 0 ==> (r matches Some(id) && id@ == old(self)@[0]),
            old(self)@.len() > 0 ==> final(self)@ == old(self)@.drop_first(),
            run_queue(old(self)@, seq![QueueOp::Dequeue]) == (final(self)@, dequeued(r)),
    {
        let r = self.ids.pop_front();
        proof {
            reveal_with_fuel(run_queue, 2);
            assert(seq![QueueOp::Dequeue].drop_first() =~= Seq::<QueueOp>::empty());
            if old(self)@.len() > 0 {
                assert(self@ =~= old(self)@.drop_first());
                assert(dequeued(r) =~= seq![old(self)@[0]] + Seq::<Seq<char>>::empty());
            } else {
                assert(self@ =~= old(self)@);
            }
        }
        r
    }

    pub fn len(&self) -> (r: usize)
        ensures
            r == self@.len(),
    {
        self.ids.len()
    }
}

/// The ids that a `dequeue` returning `r` hands out.
pub open spec fn dequeued(r: Option<String>) -> Seq<Seq<char>> {
    match r {
        Some(id) => seq![id@],
        None => Seq::empty(),
    }
}

/// Takes the next job off the queue and looks up its record. An id whose
/// record is missing is dropped, and no job is returned for it.
pub fn take_next_patch(queue: &mut PatchQueue, patches: &PatchesMap) -> (r: Option<PatchMeta>)
    ensures
        old(queue)@.len() == 0 ==> r is None && final(queue)@ == old(queue)@,
        old(queue)@.len() > 0 ==> final(queue)@ == old(queue)@.drop_first() && r == lookup(
            patches@,
            old(queue)@[0],
        ),
        run_queue(old(queue)@, seq![QueueOp::Dequeue]).0 == final(queue)@,
        forall|k: int|
            0 <= k < run_queue(old(queue)@, seq![QueueOp::Dequeue]).1.len() ==> r == lookup(
                patches@,
                #[trigger] run_queue(old(queue)@, seq![QueueOp::Dequeue]).1[k],
            ),
{
    match queue.dequeue() {
        Some(id) => patches.get(id.as_str()),
        None => None,
    }
}

/// Reads of one id are not disturbed by writes of another: what a lookup
/// finds stays the same until the record under that very id is replaced.
/// Since `get` only reads, repeated `get`s with no write of that id between
/// them return equal records.
pub proof fn lemma_lookup_stable(
    m: Map<Seq<char>, PatchMeta>,
    id: Seq<char>,
    other: Seq<char>,
    record: PatchMeta,
)
    requires
        other != id,
    ensures
        lookup(m.insert(other, record), id) == lookup(m, id),
{
}

/// One operation on the queue of pending ids.
pub enum QueueOp {
    Enqueue(Seq<char>),
    Dequeue,
}

/// The ids that `ops` enqueue, in order.
pub open spec fn enqueued(ops: Seq<QueueOp>) -> Seq<Seq<char>>
    decreases ops.len(),
{
    if ops.len() == 0 {
        Seq::empty()
    } else {
        match ops[0] {
            QueueOp::Enqueue(id) => seq![id] + enqueued(ops.drop_first()),
            QueueOp::Dequeue => enqueued(ops.drop_first()),
        }
    }
}

/// Runs `ops` on a queue holding `q`, as `enqueue` and `dequeue` do: the
/// queue left at the end, and the ids that came out, in order.
pub open spec fn run_queue(q: Seq<Seq<char>>, ops: Seq<QueueOp>) -> (Seq<Seq<char>>, Seq<
    Seq<char>,
>)
    decreases ops.len(),
{
    if ops.len() == 0 {
        (q, Seq::empty())
    } else {
        match ops[0] {
            QueueOp::Enqueue(id) => run_queue(q.push(id), ops.drop_first()),
            QueueOp::Dequeue => if q.len() == 0 {
                run_queue(q, ops.drop_first())
            } else {
                let rest = run_queue(q.drop_first(), ops.drop_first());
                (rest.0, seq![q[0]] + rest.1)
            },
        }
    }
}

/// Running `ops1` and then `ops2` is running them one after the other: the
/// queue that `ops1` leaves is where `ops2` starts, and the ids come out in
/// turn. With the one-step contracts of `enqueue` and `dequeue`, this makes
/// `run_queue` what any series of those calls does.
pub proof fn lemma_run_queue_append(q: Seq<Seq<char>>, ops1: Seq<QueueOp>, ops2: Seq<QueueOp>)
    ensures
        run_queue(q, ops1 + ops2) == (
            run_queue(run_queue(q, ops1).0, ops2).0,
            run_queue(q, ops1).1 + run_queue(run_queue(q, ops1).0, ops2).1,
        ),
    decreases ops1.len(),
{
    if ops1.len() == 0 {
        assert(ops1 + ops2 =~= ops2);
        assert(Seq::<Seq<char>>::empty() + run_queue(q, ops2).1 =~= run_queue(q, ops2).1);
    } else {
        assert((ops1 + ops2).drop_first() =~= ops1.drop_first() + ops2);
        assert((ops1 + ops2)[0] == ops1[0]);
        match ops1[0] {
            QueueOp::Enqueue(id) => {
                lemma_run_queue_append(q.push(id), ops1.drop_first(), ops2);
            },
            QueueOp::Dequeue => {
                if q.len() == 0 {
                    lemma_run_queue_append(q, ops1.drop_first(), ops2);
                } else {
                    lemma_run_queue_append(q.drop_first(), ops1.drop_first(), ops2);
                    let a = run_queue(q.drop_first(), ops1.drop_first());
                    let b = run_queue(a.0, ops2);
                    assert(seq![q[0]] + (a.1 + b.1) =~= (seq![q[0]] + a.1) + b.1);
                }
            },
        }
    }
}

/// First in, first out: whatever the mix of operations, the ids that come
/// out, followed by those still waiting, are exactly the ids that were
/// waiting at the start followed by those enqueued, in enqueue order. So the
/// ids come out in the order they went in, and none is lost or reordered.
pub proof fn lemma_queue_fifo(q: Seq<Seq<char>>, ops: Seq<QueueOp>)
    ensures
        run_queue(q, ops).1 + run_queue(q, ops).0 == q + enqueued(ops),
        forall|k: int|
            0 <= k < run_queue(q, ops).1.len() ==> #[trigger] run_queue(q, ops).1[k] == (q
                + enqueued(ops))[k],
    decreases ops.len(),
{
    lemma_queue_fifo_prefix(q, ops);
    let out = run_queue(q, ops);
    assert forall|k: int| 0 <= k < out.1.len() implies #[trigger] out.1[k] == (q + enqueued(
        ops,
    ))[k] by {
        assert((out.1 + out.0)[k] == out.1[k]);
    }
}

proof fn lemma_queue_fifo_prefix(q: Seq<Seq<char>>, ops: Seq<QueueOp>)
    ensures
        run_queue(q, ops).1 + run_queue(q, ops).0 == q + enqueued(ops),
    decreases ops.len(),
{
    if ops.len() > 0 {
        match ops[0] {
            QueueOp::Enqueue(id) => {
                lemma_queue_fifo_prefix(q.push(id), ops.drop_first());
                assert(q.push(id) + enqueued(ops.drop_first()) =~= q + enqueued(ops));
            },
            QueueOp::Dequeue => {
                if q.len() == 0 {
                    lemma_queue_fifo_prefix(q, ops.drop_first());
                } else {
                    lemma_queue_fifo_prefix(q.drop_first(), ops.drop_first());
                    let rest = run_queue(q.drop_first(), ops.drop_first());
                    assert(seq![q[0]] + rest.1 + rest.0 =~= seq![q[0]] + (rest.1 + rest.0));
                    assert(seq![q[0]] + (q.drop_first() + enqueued(ops.drop_first())) =~= q
                        + enqueued(ops));
                }
            },
        }
    } else {
        assert(Seq::<Seq<char>>::empty() + q =~= q + Seq::<Seq<char>>::empty());
    }
}

} // verus!
