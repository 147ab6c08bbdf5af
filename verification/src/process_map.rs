//! The process registry: the single source of truth for job liveness.
//!
//! Each entry maps a 128-bit job identifier to the operating-system pid and
//! the job's status.  An entry is created as `Running` when a child has been
//! spawned, and moves to `Stopped` exactly once, when the reaper observes the
//! exit; there is no transition out of `Stopped`, and the pid never changes.

use vstd::prelude::*;

verus! {

/// How a stopped child ended: a normal exit code, the terminating signal, or
/// neither (the error-surfacing case when the wait result carries no code and
/// no signal).
#[derive(Clone, Copy, Debug, PartialEq, Eq, Structural)]
pub enum Exit {
    Code(i32),
    Signal(i32),
    Unknown,
}

#[derive(Clone, Copy, Debug, PartialEq, Eq, Structural)]
pub enum ProcessStatus {
    Running,
    Stopped(Exit),
}

#[derive(Clone, Copy, Debug, PartialEq, Eq, Structural)]
pub struct ProcessEntry {
    pub id: u128,
    pub pid: u32,
    pub status: ProcessStatus,
}

/// The registry, a mapping from job identifier to `(pid, status)`.
///
/// Concurrency stays outside the library: the embedding program wraps one
/// `ProcessMap` in a readers-writer lock and calls these operations with the
/// lock held, never across any I/O or signalling.
#[derive(Debug)]
pub struct ProcessMap {
    entries: Vec<ProcessEntry>,
}

impl View for ProcessMap {
    type V = Map<u128, (u32, ProcessStatus)>;

    closed spec fn view(&self) -> Map<u128, (u32, ProcessStatus)> {
        Map::new(
            |id: u128| exists|k: int|
                0 <= k < self.entries@.len() && (#[trigger] self.entries@[k]).id == id,
            |id: u128| {
                let k = choose|k: int|
                    0 <= k < self.entries@.len() && (#[trigger] self.entries@[k]).id == id;
                (self.entries@[k].pid, self.entries@[k].status)
            },
        )
    }
}

impl ProcessMap {
    /// Well-formed: no identifier occurs twice.
    pub closed spec fn wf(&self) -> bool {
        forall|a: int, b: int|
            #![trigger self.entries@[a], self.entries@[b]]
            0 <= a < b < self.entries@.len() ==> self.entries@[a].id != self.entries@[b].id
    }

    pub fn new() -> (r: ProcessMap)
        ensures
            r.wf(),
            r@ == Map::<u128, (u32, ProcessStatus)>::empty(),
    {
        let r = ProcessMap { entries: Vec::new() };
        proof {
            assert(r@ =~= Map::<u128, (u32, ProcessStatus)>::empty());
        }
        r
    }

    /// Looks an identifier up; `None` exactly when the registry has no entry.
    pub fn get(&self, id: u128) -> (r: Option<(u32, ProcessStatus)>)
        requires
            self.wf(),
        ensures
            match r {
                Some(t) => self@.dom().contains(id) && self@[id] == t,
                None => !self@.dom().contains(id),
            },
    {
        let n = self.entries.len();
        let mut i: usize = 0;
        while i < n
            invariant
                self.wf(),
                n == self.entries@.len(),
                i <= n,
                forall|k: int| 0 <= k < i ==> (#[trigger] self.entries@[k]).id != id,
            decreases n - i,
        {
            let e = self.entries[i];
            if e.id == id {
                proof {
                    assert(self.entries@[i as int].id == id);
                    let k = choose|k: int|
                        0 <= k < self.entries@.len() && (#[trigger] self.entries@[k]).id == id;
                    assert(k == i as int);
                }
                return Some((e.pid, e.status));
            }
            i = i + 1;
        }
        proof {
            if self@.dom().contains(id) {
                let k = choose|k: int|
                    0 <= k < self.entries@.len() && (#[trigger] self.entries@[k]).id == id;
                assert(false);
            }
        }
        None
    }

    /// Creates the entry for a freshly spawned child, with status `Running`.
    pub fn insert(&mut self, id: u128, pid: u32)
        requires
            old(self).wf(),
            !old(self)@.dom().contains(id),
        ensures
            final(self).wf(),
            final(self)@ == old(self)@.insert(id, (pid, ProcessStatus::Running)),
    {
        let e = ProcessEntry { id, pid, status: ProcessStatus::Running };
        self.entries.push(e);
        proof {
            let s0 = old(self).entries@;
            let s1 = self.entries@;
            assert(s1 == s0.push(e));
            assert forall|a: int, b: int|
                #![trigger s1[a], s1[b]]
                0 <= a < b < s1.len() implies s1[a].id != s1[b].id by {
                if b < s0.len() {
                    assert(s0[a].id != s0[b].id);
                } else {
                    assert(s1[b] == e);
                    assert(s1[a] == s0[a]);
                    if s0[a].id == id {
                        assert(old(self)@.dom().contains(id));
                    }
                }
            }
            lemma_view_after_push(s0, *old(self), *self, e);
            assert(self@ =~= old(self)@.insert(id, (pid, ProcessStatus::Running)));
        }
    }

    /// Records the exit observed by the reaper: `Running` becomes
    /// `Stopped(exit)`; the pid and every other entry stay as they were.
    pub fn mark_stopped(&mut self, id: u128, exit: Exit)
        requires
            old(self).wf(),
            old(self)@.dom().contains(id),
            old(self)@[id].1 == ProcessStatus::Running,
        ensures
            final(self).wf(),
            final(self)@ == old(self)@.insert(id, (old(self)@[id].0, ProcessStatus::Stopped(exit))),
    {
        let n = self.entries.len();
        let mut i: usize = 0;
        while i < n
            invariant
                self == old(self),
                self.wf(),
                self@.dom().contains(id),
                self@[id].1 == ProcessStatus::Running,
                n == self.entries@.len(),
                i <= n,
                forall|k: int| 0 <= k < i ==> (#[trigger] self.entries@[k]).id != id,
            decreases n - i,
        {
            let e = self.entries[i];
            if e.id == id {
                let e2 = ProcessEntry { id: e.id, pid: e.pid, status: ProcessStatus::Stopped(exit) };
                self.entries[i] = e2;
                proof {
                    let s0 = old(self).entries@;
                    let s1 = self.entries@;
                    assert(s1 == s0.update(i as int, e2));
                    assert forall|a: int, b: int|
                        #![trigger s1[a], s1[b]]
                        0 <= a < b < s1.len() implies s1[a].id != s1[b].id by {
                        assert(s1[a].id == s0[a].id);
                        assert(s1[b].id == s0[b].id);
                        assert(s0[a].id != s0[b].id);
                    }
                    let k0 = choose|k: int| 0 <= k < s0.len() && (#[trigger] s0[k]).id == id;
                    assert(k0 == i as int);
                    assert(old(self)@[id] == (e.pid, e.status));
                    lemma_view_after_update(s0, *old(self), *self, i as int, e2);
                    assert(self@ =~= old(self)@.insert(
                        id,
                        (old(self)@[id].0, ProcessStatus::Stopped(exit)),
                    ));
                }
                return;
            }
            i = i + 1;
        }
        proof {
            let k = choose|k: int|
                0 <= k < self.entries@.len() && (#[trigger] self.entries@[k]).id == id;
            assert(false);
        }
    }
}

/// After a push of an entry with a fresh identifier, the registry's view is
/// the old view with the new identifier mapped to the new entry.
proof fn lemma_view_after_push(s0: Seq<ProcessEntry>, m0: ProcessMap, m1: ProcessMap, e: ProcessEntry)
    requires
        m0.wf(),
        !m0@.dom().contains(e.id),
        m0.entries@ == s0,
        m1.entries@ == s0.push(e),
        m1.wf(),
    ensures
        m1@ == m0@.insert(e.id, (e.pid, e.status)),
{
    let s1 = m1.entries@;
    assert forall|x: u128| m1@.dom().contains(x) <==> m0@.insert(
        e.id,
        (e.pid, e.status),
    ).dom().contains(x) by {
        if x == e.id {
            assert(s1[s0.len() as int] == e);
        } else {
            if m1@.dom().contains(x) {
                let k = choose|k: int| 0 <= k < s1.len() && (#[trigger] s1[k]).id == x;
                assert(k < s0.len());
                assert(s0[k] == s1[k]);
            }
            if m0@.dom().contains(x) {
                let k = choose|k: int| 0 <= k < s0.len() && (#[trigger] s0[k]).id == x;
                assert(s1[k] == s0[k]);
            }
        }
    }
    assert forall|x: u128| #[trigger] m1@.dom().contains(x) implies m1@[x] == m0@.insert(
        e.id,
        (e.pid, e.status),
    )[x] by {
        let k1 = choose|k: int| 0 <= k < s1.len() && (#[trigger] s1[k]).id == x;
        if x == e.id {
            assert(s1[s0.len() as int] == e);
            assert(k1 == s0.len() as int);
        } else {
            assert(k1 < s0.len());
            assert(s0[k1] == s1[k1]);
            let k0 = choose|k: int| 0 <= k < s0.len() && (#[trigger] s0[k]).id == x;
            assert(s1[k0] == s0[k0]);
            assert(k0 == k1);
        }
    }
    assert(m1@ =~= m0@.insert(e.id, (e.pid, e.status)));
}

/// After updating the entry at a known index in place, the registry's view is
/// the old view with that entry's identifier remapped to the new entry.
proof fn lemma_view_after_update(
    s0: Seq<ProcessEntry>,
    m0: ProcessMap,
    m1: ProcessMap,
    i: int,
    e: ProcessEntry,
)
    requires
        m0.wf(),
        m0.entries@ == s0,
        0 <= i < s0.len(),
        s0[i].id == e.id,
        m1.entries@ == s0.update(i, e),
        m1.wf(),
    ensures
        m1@ == m0@.insert(e.id, (e.pid, e.status)),
{
    let s1 = m1.entries@;
    assert forall|x: u128| m1@.dom().contains(x) <==> m0@.insert(
        e.id,
        (e.pid, e.status),
    ).dom().contains(x) by {
        if x == e.id {
            assert(s1[i] == e);
            assert(s0[i].id == x);
        } else {
            if m1@.dom().contains(x) {
                let k = choose|k: int| 0 <= k < s1.len() && (#[trigger] s1[k]).id == x;
                assert(k != i);
                assert(s0[k] == s1[k]);
            }
            if m0@.dom().contains(x) {
                let k = choose|k: int| 0 <= k < s0.len() && (#[trigger] s0[k]).id == x;
                assert(k != i);
                assert(s1[k] == s0[k]);
            }
        }
    }
    assert forall|x: u128| #[trigger] m1@.dom().contains(x) implies m1@[x] == m0@.insert(
        e.id,
        (e.pid, e.status),
    )[x] by {
        let k1 = choose|k: int| 0 <= k < s1.len() && (#[trigger] s1[k]).id == x;
        if x == e.id {
            assert(s1[i] == e);
            assert(k1 == i);
        } else {
            assert(k1 != i);
            assert(s0[k1] == s1[k1]);
            let k0 = choose|k: int| 0 <= k < s0.len() && (#[trigger] s0[k]).id == x;
            assert(k0 != i);
            assert(s1[k0] == s0[k0]);
            assert(k0 == k1);
        }
    }
    assert(m1@ =~= m0@.insert(e.id, (e.pid, e.status)));
}

/// One legal move of the registry: either a fresh identifier is inserted as
/// `Running`, or a `Running` entry is marked `Stopped` with its pid kept.
/// These are exactly the two mutating operations above.
pub open spec fn reg_step(
    m1: Map<u128, (u32, ProcessStatus)>,
    m2: Map<u128, (u32, ProcessStatus)>,
) -> bool {
    ||| exists|id: u128, pid: u32|
        !m1.dom().contains(id) && m2 == #[trigger] m1.insert(id, (pid, ProcessStatus::Running))
    ||| exists|id: u128, e: Exit|
        m1.dom().contains(id) && m1[id].1 == ProcessStatus::Running && m2 == #[trigger] m1.insert(
            id,
            (m1[id].0, ProcessStatus::Stopped(e)),
        )
}

/// A terminal status is stable: once an entry is `Stopped`, no registry
/// operation changes it, so every later reader observes the same exit.  In
/// particular no second `Stopped` value can ever be written over it.
pub proof fn lemma_stopped_is_stable(
    m1: Map<u128, (u32, ProcessStatus)>,
    m2: Map<u128, (u32, ProcessStatus)>,
    id: u128,
)
    requires
        reg_step(m1, m2),
        m1.dom().contains(id),
        m1[id].1 is Stopped,
    ensures
        m2.dom().contains(id),
        m2[id] == m1[id],
{
    if exists|id2: u128, pid: u32|
        !m1.dom().contains(id2) && m2 == #[trigger] m1.insert(id2, (pid, ProcessStatus::Running)) {
        let (id2, pid) = choose|id2: u128, pid: u32|
            !m1.dom().contains(id2) && m2 == #[trigger] m1.insert(
                id2,
                (pid, ProcessStatus::Running),
            );
        assert(id2 != id);
    } else {
        let (id2, e) = choose|id2: u128, e: Exit|
            m1.dom().contains(id2) && m1[id2].1 == ProcessStatus::Running && m2
                == #[trigger] m1.insert(id2, (m1[id2].0, ProcessStatus::Stopped(e)));
        assert(id2 != id);
    }
}

/// The pid of an entry never changes across registry operations.
pub proof fn lemma_pid_is_stable(
    m1: Map<u128, (u32, ProcessStatus)>,
    m2: Map<u128, (u32, ProcessStatus)>,
    id: u128,
)
    requires
        reg_step(m1, m2),
        m1.dom().contains(id),
    ensures
        m2.dom().contains(id),
        m2[id].0 == m1[id].0,
{
    if exists|id2: u128, pid: u32|
        !m1.dom().contains(id2) && m2 == #[trigger] m1.insert(id2, (pid, ProcessStatus::Running)) {
        let (id2, pid) = choose|id2: u128, pid: u32|
            !m1.dom().contains(id2) && m2 == #[trigger] m1.insert(
                id2,
                (pid, ProcessStatus::Running),
            );
        assert(id2 != id);
    } else {
        let (id2, e) = choose|id2: u128, e: Exit|
            m1.dom().contains(id2) && m1[id2].1 == ProcessStatus::Running && m2
                == #[trigger] m1.insert(id2, (m1[id2].0, ProcessStatus::Stopped(e)));
    }
}

} // verus!
