use vstd::prelude::*;

verus! {

/// The first pipeline of `unfinished` that is not supervised.
pub open spec fn first_unsupervised(unfinished: Seq<u128>, live: Set<u128>) -> Option<u128>
    decreases unfinished.len(),
{
    if unfinished.len() == 0 {
        None
    } else if !live.contains(unfinished[0]) {
        Some(unfinished[0])
    } else {
        first_unsupervised(unfinished.drop_first(), live)
    }
}

/// The pipelines that have a live supervisor in this process.
pub struct SupervisorRegistry {
    live: Vec<u128>,
}

impl View for SupervisorRegistry {
    type V = Set<u128>;

    closed spec fn view(&self) -> Set<u128> {
        Set::new(|p: u128| self.live@.contains(p))
    }
}

impl SupervisorRegistry {
    pub fn new() -> (r: SupervisorRegistry)
        ensures
            r@ == Set::<u128>::empty(),
    {
        let r = SupervisorRegistry { live: Vec::new() };
        proof {
            assert(r@ =~= Set::<u128>::empty());
        }
        r
    }

    pub fn contains(&self, pipeline: u128) -> (r: bool)
        ensures
            r == self@.contains(pipeline),
    {
        let mut i: usize = 0;
        while i < self.live.len()
            invariant
                0 <= i <= self.live.len(),
                forall|k: int| 0 <= k < i ==> self.live@[k] != pipeline,
            decreases self.live.len() - i,
        {
            if self.live[i] == pipeline {
                proof {
                    assert(self.live@.contains(pipeline));
                }
                return true;
            }
            i = i + 1;
        }
        false
    }

    /// Records that a supervisor for `pipeline` was spawned.
    pub fn insert(&mut self, pipeline: u128)
        ensures
            final(self)@ == old(self)@.insert(pipeline),
    {
        if !self.contains(pipeline) {
            let ghost before = self.live@;
            self.live.push(pipeline);
            proof {
                lemma_push_contains(before, pipeline);
                assert(self@ =~= old(self)@.insert(pipeline));
            }
        } else {
            proof {
                assert(old(self)@.insert(pipeline) =~= old(self)@);
            }
        }
    }

    /// Records that the supervisor for `pipeline` exited.
    pub fn remove(&mut self, pipeline: u128)
        ensures
            final(self)@ == old(self)@.remove(pipeline),
    {
        let ghost before = self.live@;
        let mut kept: Vec<u128> = Vec::new();
        let mut i: usize = 0;
        while i < self.live.len()
            invariant
                0 <= i <= self.live.len(),
                self.live@ == before,
                forall|y: u128| #[trigger] kept@.contains(y) <==> (before.take(i as int).contains(y) && y != pipeline),
            decreases self.live.len() - i,
        {
            let x = self.live[i];
            let ghost kept_before = kept@;
            proof {
                assert(before.take(i + 1) =~= before.take(i as int).push(x));
                lemma_push_contains(before.take(i as int), x);
            }
            if x != pipeline {
                kept.push(x);
                proof {
                    lemma_push_contains(kept_before, x);
                }
            }
            i = i + 1;
        }
        proof {
            assert(before.take(before.len() as int) =~= before);
        }
        self.live = kept;
        proof {
            assert(self@ =~= old(self)@.remove(pipeline));
        }
    }

    /// The pipeline that the recovery loop should reattach on this tick: the
    /// first unfinished one with no live supervisor, if any.
    pub fn recovery_candidate(&self, unfinished: &Vec<u128>) -> (r: Option<u128>)
        ensures
            r == first_unsupervised(unfinished@, self@),
    {
        let mut i: usize = 0;
        proof {
            assert(unfinished@.skip(0) =~= unfinished@);
        }
        while i < unfinished.len()
            invariant
                0 <= i <= unfinished.len(),
                first_unsupervised(unfinished@, self@) == first_unsupervised(unfinished@.skip(i as int), self@),
            decreases unfinished.len() - i,
        {
            proof {
                assert(unfinished@.skip(i as int).drop_first() =~= unfinished@.skip(i + 1));
            }
            if !self.contains(unfinished[i]) {
                return Some(unfinished[i]);
            }
            i = i + 1;
        }
        None
    }

    /// One tick of the recovery loop: picks at most one unfinished pipeline
    /// with no live supervisor and records it as supervised.
    pub fn recovery_tick(&mut self, unfinished: &Vec<u128>) -> (r: Option<u128>)
        ensures
            r == first_unsupervised(unfinished@, old(self)@),
            r matches Some(p) ==> final(self)@ == old(self)@.insert(p),
            r is None ==> final(self)@ == old(self)@,
    {
        let c = self.recovery_candidate(unfinished);
        match c {
            Some(p) => {
                self.insert(p);
            },
            None => {},
        }
        c
    }
}

proof fn lemma_push_contains(s: Seq<u128>, x: u128)
    ensures
        forall|y: u128| #[trigger] s.push(x).contains(y) <==> (s.contains(y) || y == x),
{
    assert forall|y: u128| #[trigger] s.push(x).contains(y) <==> (s.contains(y) || y == x) by {
        if s.push(x).contains(y) {
            let k = choose|k: int| 0 <= k < s.push(x).len() && s.push(x)[k] == y;
            if k < s.len() {
                assert(s[k] == y);
            }
        }
        if s.contains(y) {
            let k = choose|k: int| 0 <= k < s.len() && s[k] == y;
            assert(s.push(x)[k] == y);
        }
        if y == x {
            assert(s.push(x)[s.len() as int] == y);
        }
    }
}

/// What a recovery tick picks is unfinished and not supervised.
pub proof fn lemma_candidate_unsupervised(unfinished: Seq<u128>, live: Set<u128>)
    ensures
        first_unsupervised(unfinished, live) matches Some(p) ==> unfinished.contains(p) && !live.contains(p),
    decreases unfinished.len(),
{
    if unfinished.len() > 0 && live.contains(unfinished[0]) {
        lemma_candidate_unsupervised(unfinished.drop_first(), live);
        if let Some(p) = first_unsupervised(unfinished, live) {
            let k = choose|k: int| 0 <= k < unfinished.drop_first().len() && unfinished.drop_first()[k] == p;
            assert(unfinished[k + 1] == p);
        }
    } else if unfinished.len() > 0 {
        assert(unfinished[0] == unfinished[0]);
    }
}

/// Once a tick has reattached a pipeline, a later tick over the same
/// unfinished list does not pick it again.
pub proof fn lemma_recovery_not_repeated(unfinished: Seq<u128>, live: Set<u128>, p: u128)
    requires
        first_unsupervised(unfinished, live) == Some(p),
    ensures
        first_unsupervised(unfinished, live.insert(p)) != Some(p),
{
    lemma_candidate_unsupervised(unfinished, live.insert(p));
}

} // verus!
