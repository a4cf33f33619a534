//! The process registry: the set of process ids the engine believes to
//! be alive. It is a best-effort index for external termination
//! requests; the authoritative record of an execution's fate is the
//! execution store, written by the monitor.

use vstd::prelude::*;

verus! {

/// A registry of live process ids. The embedding program keeps the
/// process handles themselves and kills a process when [`Self::stop_process`]
/// reports that its id was registered.
pub struct ProcessManager {
    pids: Vec<u32>,
}

impl View for ProcessManager {
    type V = Seq<u32>;

    closed spec fn view(&self) -> Seq<u32> {
        self.pids@
    }
}

impl ProcessManager {
    /// No id is registered twice.
    pub closed spec fn wf(&self) -> bool {
        forall|k: int, l: int|
            0 <= k < l < self.pids@.len() ==> #[trigger] self.pids@[k] != #[trigger] self.pids@[l]
    }

    /// An empty registry.
    pub fn new() -> (r: Self)
        ensures
            r.wf(),
            r@ == Seq::<u32>::empty(),
    {
        ProcessManager { pids: Vec::new() }
    }

    /// Index of `pid` in the registry, when present.
    fn find(&self, pid: u32) -> (r: Option<usize>)
        ensures
            match r {
                Some(i) => i < self@.len() && self@[i as int] == pid,
                None => !self@.contains(pid),
            },
    {
        let n = self.pids.len();
        let mut i: usize = 0;
        while i < n
            invariant
                i <= n,
                n == self.pids@.len(),
                forall|j: int| 0 <= j < i ==> self.pids@[j] != pid,
            decreases n - i,
        {
            if self.pids[i] == pid {
                return Some(i);
            }
            i += 1;
        }
        None
    }

    /// Whether `pid` is registered.
    pub fn is_running(&self, pid: u32) -> (r: bool)
        ensures
            r == self@.contains(pid),
    {
        self.find(pid).is_some()
    }

    /// Records a just-spawned process. Registering an id twice leaves
    /// one entry.
    pub fn register_process(&mut self, pid: u32)
        requires
            old(self).wf(),
        ensures
            final(self).wf(),
            forall|q: u32|
                final(self)@.contains(q) <==> (old(self)@.contains(q) || q == pid),
    {
        if self.find(pid).is_none() {
            let ghost pre = self.pids@;
            self.pids.push(pid);
            proof {
                assert forall|q: u32|
                    final(self)@.contains(q) <==> (pre.contains(q) || q == pid) by {
                    if pre.contains(q) {
                        let k = choose|k: int| 0 <= k < pre.len() && pre[k] == q;
                        assert(self.pids@[k] == q);
                    }
                    if self.pids@.contains(q) {
                        let k = choose|k: int|
                            0 <= k < self.pids@.len() && self.pids@[k] == q;
                        if k < pre.len() {
                            assert(pre[k] == q);
                        }
                    }
                    assert(self.pids@[pre.len() as int] == pid);
                }
            }
        }
    }

    /// Removes `pid` from the registry, reporting whether it was there.
    /// Other ids are untouched.
    pub fn stop_process(&mut self, pid: u32) -> (was: bool)
        requires
            old(self).wf(),
        ensures
            final(self).wf(),
            was == old(self)@.contains(pid),
            !final(self)@.contains(pid),
            forall|q: u32|
                q != pid ==> (final(self)@.contains(q) <==> old(self)@.contains(q)),
    {
        match self.find(pid) {
            None => false,
            Some(i) => {
                let ghost pre = self.pids@;
                self.pids.remove(i);
                proof {
                    assert(pre.contains(pid));
                    assert forall|k: int|
                        0 <= k < pre.len() && k != i ==> #[trigger] pre[k] != pid by {
                        if 0 <= k < pre.len() && k != i && pre[k] == pid {
                            if k < i {
                                assert(pre[k] != pre[i as int]);
                            } else {
                                assert(pre[i as int] != pre[k]);
                            }
                        }
                    }
                    assert forall|j: int|
                        0 <= j < self.pids@.len() implies #[trigger] self.pids@[j] != pid by {
                        if j < i {
                            assert(self.pids@[j] == pre[j]);
                        } else {
                            assert(self.pids@[j] == pre[j + 1]);
                        }
                    }
                    assert forall|q: u32|
                        q != pid implies (final(self)@.contains(q) <==> pre.contains(q)) by {
                        if self.pids@.contains(q) {
                            let k = choose|k: int|
                                0 <= k < self.pids@.len() && self.pids@[k] == q;
                            if k < i {
                                assert(pre[k] == q);
                            } else {
                                assert(pre[k + 1] == q);
                            }
                        }
                        if pre.contains(q) {
                            let k = choose|k: int| 0 <= k < pre.len() && pre[k] == q;
                            if k < i {
                                assert(self.pids@[k] == q);
                            } else if k > i {
                                assert(self.pids@[k - 1] == q);
                            }
                        }
                    }
                    assert forall|k: int, l: int|
                        0 <= k < l < self.pids@.len() implies #[trigger] self.pids@[k]
                        != #[trigger] self.pids@[l] by {
                        let k0: int = if k < i { k } else { k + 1 };
                        let l0: int = if l < i { l } else { l + 1 };
                        assert(self.pids@[k] == pre[k0]);
                        assert(self.pids@[l] == pre[l0]);
                    }
                }
                true
            },
        }
    }
}

} // verus!
