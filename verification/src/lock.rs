use vstd::prelude::*;

use crate::errors::LockError;
use crate::util::str_eq;

verus! {

/// One lock-state file: its name, the payload written into it at
/// acquisition, and whether some holder currently has the OS-level lock.
/// A file can outlive its holder (a stale file), so `held` is not implied
/// by the entry's existence.
#[derive(Clone, Debug)]
pub struct LockEntry {
    pub name: String,
    pub content: String,
    pub held: bool,
}

/// Image of a lock entry.
pub struct LockEntryModel {
    pub content: Seq<char>,
    pub held: bool,
}

impl View for LockEntry {
    type V = LockEntryModel;

    open spec fn view(&self) -> LockEntryModel {
        LockEntryModel { content: self.content@, held: self.held }
    }
}

/// The OS-resident lock state the engine can observe: per lock name at most
/// one lock-state file. The binary rebuilds this view from the lock
/// directory and the OS lock probe, then threads it through every lock
/// operation of one run.
#[derive(Clone, Debug)]
pub struct LockSpace {
    pub entries: Vec<LockEntry>,
}

/// Names of a lock-entry sequence are pairwise distinct.
pub open spec fn distinct_lock_names(es: Seq<LockEntry>) -> bool {
    forall|i: int, j: int| 0 <= i < j < es.len() ==> es[i].name@ != es[j].name@
}

/// The finite map a lock-entry sequence denotes: lock name to file state.
pub open spec fn lock_map_of(es: Seq<LockEntry>) -> Map<Seq<char>, LockEntryModel>
    decreases es.len(),
{
    if es.len() == 0 {
        Map::empty()
    } else {
        lock_map_of(es.drop_last()).insert(es.last().name@, es.last()@)
    }
}

pub proof fn lemma_lock_map_contains(es: Seq<LockEntry>, n: Seq<char>)
    ensures
        lock_map_of(es).contains_key(n) <==> exists|i: int|
            0 <= i < es.len() && es[i].name@ == n,
    decreases es.len(),
{
    if es.len() > 0 {
        let prefix = es.drop_last();
        lemma_lock_map_contains(prefix, n);
        if es.last().name@ == n {
            assert(es[es.len() - 1].name@ == n);
        } else {
            if exists|i: int| 0 <= i < es.len() && es[i].name@ == n {
                let i = choose|i: int| 0 <= i < es.len() && es[i].name@ == n;
                assert(i < es.len() - 1);
                assert(prefix[i].name@ == n);
            }
            if exists|i: int| 0 <= i < prefix.len() && prefix[i].name@ == n {
                let i = choose|i: int| 0 <= i < prefix.len() && prefix[i].name@ == n;
                assert(es[i].name@ == n);
            }
        }
    }
}

pub proof fn lemma_lock_map_get(es: Seq<LockEntry>, i: int)
    requires
        0 <= i < es.len(),
        distinct_lock_names(es),
    ensures
        lock_map_of(es).contains_key(es[i].name@),
        lock_map_of(es)[es[i].name@] == es[i]@,
    decreases es.len(),
{
    if i < es.len() - 1 {
        let prefix = es.drop_last();
        assert(distinct_lock_names(prefix));
        assert(prefix[i] == es[i]);
        lemma_lock_map_get(prefix, i);
        assert(es.last().name@ != es[i].name@);
    }
}

pub proof fn lemma_lock_map_push(es: Seq<LockEntry>, e: LockEntry)
    ensures
        lock_map_of(es.push(e)) == lock_map_of(es).insert(e.name@, e@),
{
    assert(es.push(e).drop_last() =~= es);
    assert(es.push(e).last() == e);
}

pub proof fn lemma_lock_map_remove(es: Seq<LockEntry>, i: int)
    requires
        0 <= i < es.len(),
        distinct_lock_names(es),
    ensures
        lock_map_of(es.remove(i)) == lock_map_of(es).remove(es[i].name@),
    decreases es.len(),
{
    let n = es[i].name@;
    if i == es.len() - 1 {
        assert(es.remove(i) =~= es.drop_last());
        lemma_lock_map_contains(es.drop_last(), n);
        assert(forall|j: int|
            0 <= j < es.drop_last().len() ==> es.drop_last()[j].name@ != n);
        assert(!lock_map_of(es.drop_last()).contains_key(n));
        assert(lock_map_of(es.drop_last()).insert(n, es.last()@).remove(n) =~= lock_map_of(
            es.drop_last(),
        ));
    } else {
        let prefix = es.drop_last();
        assert(distinct_lock_names(prefix));
        lemma_lock_map_remove(prefix, i);
        assert(es.remove(i).drop_last() =~= prefix.remove(i));
        assert(es.remove(i).last() == es.last());
        assert(es.last().name@ != n);
        assert(lock_map_of(prefix).remove(n).insert(es.last().name@, es.last()@)
            =~= lock_map_of(prefix).insert(es.last().name@, es.last()@).remove(n));
    }
}

pub proof fn lemma_distinct_lock_remove(es: Seq<LockEntry>, i: int)
    requires
        distinct_lock_names(es),
        0 <= i < es.len(),
    ensures
        distinct_lock_names(es.remove(i)),
{
    let r = es.remove(i);
    assert forall|p: int, q: int| 0 <= p < q < r.len() implies r[p].name@ != r[q].name@ by {
        if p < i {
            assert(r[p] == es[p]);
        } else {
            assert(r[p] == es[p + 1]);
        }
        if q < i {
            assert(r[q] == es[q]);
        } else {
            assert(r[q] == es[q + 1]);
        }
    }
}

pub proof fn lemma_distinct_lock_push(es: Seq<LockEntry>, e: LockEntry)
    requires
        distinct_lock_names(es),
        forall|j: int| 0 <= j < es.len() ==> es[j].name@ != e.name@,
    ensures
        distinct_lock_names(es.push(e)),
{
    let r = es.push(e);
    assert forall|p: int, q: int| 0 <= p < q < r.len() implies r[p].name@ != r[q].name@ by {
        assert(r[p] == es[p]);
        if q < es.len() {
            assert(r[q] == es[q]);
        } else {
            assert(r[q] == e);
        }
    }
}

impl LockSpace {
    /// At most one lock-state file per name.
    pub open spec fn wf(self) -> bool {
        distinct_lock_names(self.entries@)
    }

    /// Name-to-file-state map of this space.
    pub open spec fn map(self) -> Map<Seq<char>, LockEntryModel> {
        lock_map_of(self.entries@)
    }

    /// Some holder currently has the lock named `n`.
    pub open spec fn spec_held(self, n: Seq<char>) -> bool {
        self.map().contains_key(n) && self.map()[n].held
    }

    /// A space with no lock-state files at all.
    pub fn empty() -> (r: LockSpace)
        ensures
            r.wf(),
            r.map() == Map::<Seq<char>, LockEntryModel>::empty(),
    {
        LockSpace { entries: Vec::new() }
    }
}

pub(crate) fn find_lock_index(entries: &Vec<LockEntry>, name: &str) -> (r: Option<usize>)
    ensures
        match r {
            Some(i) => i < entries@.len() && entries@[i as int].name@ == name@,
            None => forall|i: int| 0 <= i < entries@.len() ==> entries@[i].name@ != name@,
        },
{
    let mut i: usize = 0;
    while i < entries.len()
        invariant
            i <= entries@.len(),
            forall|j: int| 0 <= j < i ==> entries@[j].name@ != name@,
        decreases entries@.len() - i,
    {
        if str_eq(entries[i].name.as_str(), name) {
            return Some(i);
        }
        i = i + 1;
    }
    None
}

/// The payload of the lock-state file named `name`, if such a file exists.
/// A concurrent reader uses this to learn which named entity triggered a
/// held lock.
pub fn read_lock_payload(space: &LockSpace, name: &str) -> (r: Option<String>)
    requires
        space.wf(),
    ensures
        r is Some <==> space.map().contains_key(name@),
        r matches Some(c) ==> c@ == space.map()[name@].content,
{
    let idx = find_lock_index(&space.entries, name);
    match idx {
        Some(i) => {
            proof {
                lemma_lock_map_get(space.entries@, i as int);
            }
            Some(space.entries[i].content.clone())
        },
        None => {
            proof {
                lemma_lock_map_contains(space.entries@, name@);
            }
            None
        },
    }
}

/// An advisory, named, file-backed lock handle with an optional payload.
/// The handle itself is process-local; the lock it may hold lives in the
/// [`LockSpace`].
#[derive(Debug)]
pub struct Lock {
    pub name: String,
    pub content: Option<String>,
    pub held: bool,
}

impl Lock {
    /// The payload this handle writes into the lock-state file: its content
    /// if one was supplied, the empty file otherwise.
    pub open spec fn spec_payload(self) -> Seq<char> {
        match self.content {
            Some(c) => c@,
            None => Seq::<char>::empty(),
        }
    }

    pub fn new(name: &str, content: Option<String>) -> (r: Lock)
        ensures
            r.name@ == name@,
            crate::config::opt_view(r.content) == crate::config::opt_view(content),
            !r.held,
    {
        Lock { name: name.to_owned(), content, held: false }
    }

    /// Whether the named lock is held: by this handle, or by any other
    /// holder visible in the space. A stale lock-state file without a
    /// holder does not count; the probe itself changes nothing.
    pub fn is_locked(&self, space: &LockSpace) -> (r: bool)
        requires
            space.wf(),
        ensures
            r == (self.held || space.spec_held(self.name@)),
    {
        if self.held {
            return true;
        }
        let idx = find_lock_index(&space.entries, self.name.as_str());
        match idx {
            Some(i) => {
                proof {
                    lemma_lock_map_get(space.entries@, i as int);
                }
                space.entries[i].held
            },
            None => {
                proof {
                    lemma_lock_map_contains(space.entries@, self.name@);
                }
                false
            },
        }
    }

    /// Acquire the named lock: fails with `FileIsLocked` while any holder
    /// exists, otherwise recreates the lock-state file with this handle's
    /// payload and takes the lock.
    pub fn lock(&mut self, space: &mut LockSpace) -> (r: Result<(), LockError>)
        requires
            old(space).wf(),
        ensures
            final(space).wf(),
            final(self).name == old(self).name,
            final(self).content == old(self).content,
            match r {
                Ok(()) => !old(self).held && !old(space).spec_held(old(self).name@)
                    && final(self).held && final(space).map() == old(space).map().insert(
                    old(self).name@,
                    LockEntryModel { content: old(self).spec_payload(), held: true },
                ),
                Err(e) => e == LockError::FileIsLocked
                    && (old(self).held || old(space).spec_held(old(self).name@))
                    && final(self).held == old(self).held
                    && final(space).map() == old(space).map(),
            },
    {
        if self.is_locked(space) {
            return Err(LockError::FileIsLocked);
        }
        // Recreate the lock-state file: drop a stale file if one is left.
        let idx = find_lock_index(&space.entries, self.name.as_str());
        if let Some(i) = idx {
            proof {
                lemma_lock_map_remove(space.entries@, i as int);
                lemma_lock_map_get(space.entries@, i as int);
            }
            let ghost pre = space.entries@;
            space.entries.remove(i);
            proof {
                lemma_distinct_lock_remove(pre, i as int);
                lemma_lock_map_contains(space.entries@, self.name@);
            }
        } else {
            proof {
                lemma_lock_map_contains(space.entries@, self.name@);
            }
        }
        let payload = match &self.content {
            Some(c) => c.clone(),
            None => String::new(),
        };
        let entry = LockEntry { name: self.name.clone(), content: payload, held: true };
        proof {
            lemma_lock_map_push(space.entries@, entry);
        }
        let ghost before_push = space.entries@;
        space.entries.push(entry);
        proof {
            assert(forall|j: int|
                0 <= j < before_push.len() ==> before_push[j].name@ != old(self).name@);
            lemma_distinct_lock_push(before_push, entry);
            if old(space).map().contains_key(old(self).name@) {
                // The stale entry was dropped; re-inserting the key restores the map.
                assert(old(space).map().remove(old(self).name@).insert(
                    old(self).name@,
                    LockEntryModel { content: old(self).spec_payload(), held: true },
                ) =~= old(space).map().insert(
                    old(self).name@,
                    LockEntryModel { content: old(self).spec_payload(), held: true },
                ));
            }
        }
        self.held = true;
        Ok(())
    }

    /// Give up the OS-level lock without touching the lock-state file or
    /// this handle's bookkeeping.
    pub fn unlock(&mut self, space: &mut LockSpace) -> (r: Result<(), LockError>)
        requires
            old(self).held,
            old(space).wf(),
            old(space).map().contains_key(old(self).name@),
        ensures
            final(space).wf(),
            *final(self) == *old(self),
            r is Ok,
            final(space).map() == old(space).map().insert(
                old(self).name@,
                LockEntryModel { content: old(space).map()[old(self).name@].content, held: false },
            ),
    {
        let idx = find_lock_index(&space.entries, self.name.as_str());
        match idx {
            Some(i) => {
                proof {
                    lemma_lock_map_get(space.entries@, i as int);
                    lemma_lock_map_remove(space.entries@, i as int);
                }
                let ghost pre = space.entries@;
                let mut entry = space.entries.remove(i);
                proof {
                    lemma_distinct_lock_remove(pre, i as int);
                    lemma_lock_map_contains(space.entries@, self.name@);
                }
                entry.held = false;
                proof {
                    lemma_lock_map_push(space.entries@, entry);
                }
                let ghost before_push = space.entries@;
                space.entries.push(entry);
                proof {
                    assert(forall|j: int|
                        0 <= j < before_push.len() ==> before_push[j].name@ != old(self).name@);
                    lemma_distinct_lock_push(before_push, entry);
                    assert(old(space).map().remove(old(self).name@).insert(
                        old(self).name@,
                        LockEntryModel {
                            content: old(space).map()[old(self).name@].content,
                            held: false,
                        },
                    ) =~= old(space).map().insert(
                        old(self).name@,
                        LockEntryModel {
                            content: old(space).map()[old(self).name@].content,
                            held: false,
                        },
                    ));
                }
                Ok(())
            },
            None => {
                proof {
                    lemma_lock_map_contains(space.entries@, self.name@);
                }
                // A held handle always has its lock-state file.
                assert(false);
                Err(LockError::UnknownError)
            },
        }
    }

    /// Release on scope exit: if this handle holds the lock, give it up and
    /// delete the lock-state file; otherwise do nothing. The binary calls
    /// this on every exit path of a holder.
    pub fn release(&mut self, space: &mut LockSpace)
        requires
            old(space).wf(),
        ensures
            final(space).wf(),
            !final(self).held,
            final(self).name == old(self).name,
            final(self).content == old(self).content,
            old(self).held ==> final(space).map() == old(space).map().remove(old(self).name@),
            !old(self).held ==> final(space).map() == old(space).map(),
    {
        if !self.held {
            return;
        }
        let idx = find_lock_index(&space.entries, self.name.as_str());
        if let Some(i) = idx {
            proof {
                lemma_lock_map_remove(space.entries@, i as int);
            }
            let ghost pre = space.entries@;
            space.entries.remove(i);
            proof {
                lemma_distinct_lock_remove(pre, i as int);
            }
        } else {
            proof {
                lemma_lock_map_contains(space.entries@, self.name@);
                assert(!old(space).map().contains_key(old(self).name@));
                assert(old(space).map().remove(old(self).name@) =~= old(space).map());
            }
        }
        self.held = false;
    }
}

/// Mutual exclusion and the broadcast payload, end to end: while one handle
/// holds a name, every other handle's acquisition fails with `FileIsLocked`;
/// once the holder releases, a fresh handle can acquire the name, and the
/// lock-state file then carries exactly that handle's payload.
pub proof fn lemma_lock_exclusion_round(
    s0: LockSpace,
    s1: LockSpace,
    h1_pre: Lock,
    h1: Lock,
    h2: Lock,
)
    requires
        s0.wf(),
        !h1_pre.held,
        !s0.spec_held(h1_pre.name@),
        s1.map() == s0.map().insert(
            h1_pre.name@,
            LockEntryModel { content: h1_pre.spec_payload(), held: true },
        ),
        h1 == (Lock { held: true, ..h1_pre }),
        !h2.held,
        h2.name@ == h1_pre.name@,
    ensures
        // While h1 holds the name, a second handle sees it held, so its
        // `lock` call fails with `FileIsLocked`.
        h2.held || s1.spec_held(h2.name@),
        // After h1's release the name is free again for a third handle.
        !s1.map().remove(h1.name@).contains_key(h2.name@) || !s1.map().remove(
            h1.name@,
        )[h2.name@].held,
        // Immediately after a successful third acquisition the lock-state
        // file holds exactly the payload passed to that call.
        forall|h3: Lock, s3: LockSpace|
            h3.name@ == h2.name@ && s3.map() == s1.map().remove(h1.name@).insert(
                h3.name@,
                LockEntryModel { content: h3.spec_payload(), held: true },
            ) ==> #[trigger] s3.map()[h3.name@].content == h3.spec_payload(),
{
    assert(s1.map()[h2.name@].held);
    assert(!s1.map().remove(h1.name@).contains_key(h2.name@));
}

} // verus!
