use vstd::prelude::*;

verus! {

/// The state of one strategy run, under its identifier.
pub struct RunRecord<V> {
    pub id: String,
    pub value: V,
}

/// The table of strategy runs of one kind, keyed by run identifier, each
/// identifier at most once. Entries are not pruned: a run's last state
/// stays after it ends.
pub struct RunTracker<V> {
    runs: Vec<RunRecord<V>>,
}

/// Whether the identifier `id` stands in `s`.
pub open spec fn has_id<V>(s: Seq<(Seq<char>, V)>, id: Seq<char>) -> bool {
    exists|i: int| 0 <= i < s.len() && (#[trigger] s[i]).0 == id
}

/// A counter after one more event; it stays at its maximum.
pub open spec fn incremented(v: u64) -> u64 {
    if v < u64::MAX {
        (v + 1) as u64
    } else {
        v
    }
}

impl<V> View for RunTracker<V> {
    type V = Seq<(Seq<char>, V)>;

    closed spec fn view(&self) -> Seq<(Seq<char>, V)> {
        self.runs@.map_values(|r: RunRecord<V>| (r.id@, r.value))
    }
}

impl<V: Copy> RunTracker<V> {
    /// Each identifier stands at most once.
    pub open spec fn wf(&self) -> bool {
        forall|i: int, j: int|
            0 <= i < j < self@.len() ==> (#[trigger] self@[i]).0 != (#[trigger] self@[j]).0
    }

    /// An empty table.
    pub fn new() -> (r: RunTracker<V>)
        ensures
            r.wf(),
            r@.len() == 0,
    {
        let r = RunTracker { runs: Vec::new() };
        assert(r@ =~= Seq::<(Seq<char>, V)>::empty());
        r
    }

    /// Number of runs recorded.
    pub fn len(&self) -> (r: usize)
        ensures
            r == self@.len(),
    {
        self.runs.len()
    }

    /// Whether no run is recorded.
    pub fn is_empty(&self) -> (r: bool)
        ensures
            r == (self@.len() == 0),
    {
        self.runs.len() == 0
    }

    /// The identifier of the `i`-th run.
    pub fn id_at(&self, i: usize) -> (r: &String)
        requires
            i < self@.len(),
        ensures
            r@ == self@[i as int].0,
    {
        &self.runs[i].id
    }

    /// The state of the `i`-th run.
    pub fn value_at(&self, i: usize) -> (r: V)
        requires
            i < self@.len(),
        ensures
            r == self@[i as int].1,
    {
        self.runs[i].value
    }

    /// The position of the run `id`, if it is recorded.
    pub fn position(&self, id: &String) -> (r: Option<usize>)
        ensures
            r is None ==> !has_id(self@, id@),
            r matches Some(i) ==> i < self@.len() && self@[i as int].0 == id@,
    {
        let mut i: usize = 0;
        while i < self.runs.len()
            invariant
                i <= self@.len(),
                forall|k: int| 0 <= k < i ==> (#[trigger] self@[k]).0 != id@,
            decreases self@.len() - i,
        {
            if self.runs[i].id == *id {
                return Some(i);
            }
            i = i + 1;
        }
        None
    }

    /// The state of the run `id`, if it is recorded.
    pub fn get(&self, id: &String) -> (r: Option<V>)
        ensures
            r is None ==> !has_id(self@, id@),
            r matches Some(v) ==> exists|i: int|
                0 <= i < self@.len() && self@[i] == (id@, v),
    {
        match self.position(id) {
            None => None,
            Some(i) => Some(self.runs[i].value),
        }
    }

    /// Sets the state of the run `id`: in place where it is recorded, else
    /// as a new entry at the end.
    pub fn set(&mut self, id: &String, value: V)
        requires
            old(self).wf(),
        ensures
            final(self).wf(),
            has_id(old(self)@, id@) ==> exists|i: int|
                0 <= i < old(self)@.len() && old(self)@[i].0 == id@ && final(self)@ == old(
                    self,
                )@.update(i, (id@, value)),
            !has_id(old(self)@, id@) ==> final(self)@ == old(self)@.push((id@, value)),
    {
        match self.position(id) {
            Some(i) => {
                let rec = RunRecord { id: id.clone(), value };
                self.runs.set(i, rec);
                assert(self@ =~= old(self)@.update(i as int, (id@, value)));
            },
            None => {
                self.runs.push(RunRecord { id: id.clone(), value });
                assert(self@ =~= old(self)@.push((id@, value)));
                assert forall|a: int, b: int| 0 <= a < b < self@.len() implies (#[trigger] self@[a]).0
                    != (#[trigger] self@[b]).0 by {
                    if b == self@.len() - 1 {
                        assert(old(self)@[a].0 == self@[a].0);
                    }
                }
            },
        }
    }

    /// Starts a run under `id` only where no run is recorded, the one
    /// single-flight rule of a tracker: on a non-empty table nothing
    /// changes and `false` comes back; on an empty one the table then
    /// holds just this run, and `true` comes back.
    pub fn start_run(&mut self, id: String, initial: V) -> (r: bool)
        requires
            old(self).wf(),
        ensures
            final(self).wf(),
            r == (old(self)@.len() == 0),
            !r ==> final(self)@ == old(self)@,
            r ==> final(self)@ == seq![(id@, initial)],
    {
        if self.runs.len() > 0 {
            return false;
        }
        self.runs.push(RunRecord { id, value: initial });
        assert(self@ =~= seq![(id@, initial)]);
        true
    }
}

impl RunTracker<u64> {
    /// Counts one more event of the run `id`, recording it with a count of
    /// one where it is not recorded yet.
    pub fn increment(&mut self, id: &String)
        requires
            old(self).wf(),
        ensures
            final(self).wf(),
            forall|i: int|
                0 <= i < old(self)@.len() && (#[trigger] old(self)@[i]).0 == id@ ==> final(self)@
                    == old(self)@.update(i, (id@, incremented(old(self)@[i].1))),
            !has_id(old(self)@, id@) ==> final(self)@ == old(self)@.push((id@, 1u64)),
    {
        match self.position(id) {
            Some(i) => {
                let v = self.value_at(i);
                let next: u64 = if v < u64::MAX {
                    v + 1
                } else {
                    v
                };
                self.set(id, next);
                assert forall|j: int|
                    0 <= j < old(self)@.len() && (#[trigger] old(self)@[j]).0 == id@ implies j
                    == i as int by {
                    if j != i as int {
                        if j < i {
                            assert(old(self)@[j].0 != old(self)@[i as int].0);
                        } else {
                            assert(old(self)@[i as int].0 != old(self)@[j].0);
                        }
                    }
                }
            },
            None => {
                self.set(id, 1);
            },
        }
    }
}

} // verus!
