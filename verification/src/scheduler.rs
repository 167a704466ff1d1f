use vstd::prelude::*;

verus! {

/// What the render coordinator should do next.
#[derive(Clone, Copy, Debug, PartialEq, Eq, Structural)]
pub enum Action {
    /// Start a worker thread for this chunk index.
    Launch(usize),
    /// Wait for the oldest outstanding worker, which renders this chunk
    /// index, and aggregate its tile.
    Join(usize),
    /// Every chunk has been launched and joined.
    Finished,
}

/// Decides the order of worker launches and joins for a render split into
/// `n_chunks` work chunks with at most `max_threads` workers in flight.
///
/// Chunks are launched in index order.  While a pool slot is free and chunks
/// remain, the next chunk is launched; once the pool is full, the oldest
/// outstanding worker is joined before the next launch (first-in, first-out
/// reclaim), so joins also happen in index order.  The coordinator performs
/// the actions; this type only decides and counts them.
pub struct Scheduler {
    n_chunks: usize,
    max_threads: usize,
    launched: usize,
    joined: usize,
}

impl Scheduler {
    /// How many work chunks the render has.
    pub closed spec fn n_chunks(self) -> int {
        self.n_chunks as int
    }

    /// The cap on workers in flight.
    pub closed spec fn max_threads(self) -> int {
        self.max_threads as int
    }

    /// How many chunks have been launched so far.
    pub closed spec fn launched(self) -> int {
        self.launched as int
    }

    /// How many chunks have been joined so far.
    pub closed spec fn joined(self) -> int {
        self.joined as int
    }

    /// The scheduler's invariant: a chunk is joined only after it is
    /// launched, no chunk is launched twice, and the workers in flight
    /// (launched and not yet joined) never exceed the cap.
    pub open spec fn wf(self) -> bool {
        &&& self.max_threads() >= 1
        &&& 0 <= self.joined() <= self.launched() <= self.n_chunks()
        &&& self.launched() - self.joined() <= self.max_threads()
    }

    /// The decision the scheduler takes in its current state.
    pub open spec fn spec_next_action(self) -> Action {
        if self.launched() < self.n_chunks() && self.launched() - self.joined()
            < self.max_threads() {
            Action::Launch(self.launched() as usize)
        } else if self.joined() < self.launched() {
            Action::Join(self.joined() as usize)
        } else {
            Action::Finished
        }
    }

    /// A fresh scheduler: nothing launched, nothing joined.
    pub fn new(n_chunks: usize, max_threads: usize) -> (s: Scheduler)
        requires
            max_threads >= 1,
        ensures
            s.wf(),
            s.n_chunks() == n_chunks,
            s.max_threads() == max_threads,
            s.launched() == 0,
            s.joined() == 0,
    {
        Scheduler { n_chunks, max_threads, launched: 0, joined: 0 }
    }

    /// The next coordination step: launch while a pool slot is free and
    /// chunks remain, otherwise join the oldest outstanding worker, and
    /// finish once every chunk is joined.
    pub fn next_action(&self) -> (a: Action)
        requires
            self.wf(),
        ensures
            a == self.spec_next_action(),
    {
        if self.launched < self.n_chunks && self.launched - self.joined < self.max_threads {
            Action::Launch(self.launched)
        } else if self.joined < self.launched {
            Action::Join(self.joined)
        } else {
            Action::Finished
        }
    }

    /// Records that the chunk named by the pending launch action has been
    /// handed to a worker.
    pub fn record_launch(&mut self)
        requires
            old(self).wf(),
            old(self).spec_next_action() matches Action::Launch(_),
        ensures
            final(self).wf(),
            final(self).n_chunks() == old(self).n_chunks(),
            final(self).max_threads() == old(self).max_threads(),
            final(self).launched() == old(self).launched() + 1,
            final(self).joined() == old(self).joined(),
    {
        self.launched = self.launched + 1;
    }

    /// Records that the oldest outstanding worker has been joined and its
    /// tile aggregated.
    pub fn record_join(&mut self)
        requires
            old(self).wf(),
            old(self).spec_next_action() matches Action::Join(_),
        ensures
            final(self).wf(),
            final(self).n_chunks() == old(self).n_chunks(),
            final(self).max_threads() == old(self).max_threads(),
            final(self).launched() == old(self).launched(),
            final(self).joined() == old(self).joined() + 1,
    {
        self.joined = self.joined + 1;
    }
}

/// The scheduling policy is sound and makes progress: a launch always names
/// the next unlaunched chunk and happens only below the thread cap, a join
/// always names the oldest chunk still in flight, and the scheduler reports
/// `Finished` exactly when every chunk has been launched and joined.
pub proof fn lemma_scheduler_progress(s: Scheduler)
    requires
        s.wf(),
    ensures
        s.spec_next_action() matches Action::Launch(k) ==> k == s.launched() && s.launched()
            < s.n_chunks() && s.launched() - s.joined() < s.max_threads(),
        s.spec_next_action() matches Action::Join(k) ==> k == s.joined() && s.joined()
            < s.launched(),
        s.spec_next_action() == Action::Finished
            <==> s.launched() == s.n_chunks() && s.joined() == s.n_chunks(),
{
}

} // verus!
