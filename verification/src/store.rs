use vstd::prelude::*;
use crate::states::{Address, LockBox};

verus! {

/// The map a sequence of stored entities denotes: each entity keyed by its
/// owner's bytes, later entries shadowing earlier ones (with distinct owners
/// nothing is shadowed).
pub open spec fn entries_map(s: Seq<LockBox>) -> Map<Seq<u8>, LockBox>
    decreases s.len(),
{
    if s.len() == 0 {
        Map::empty()
    } else {
        entries_map(s.drop_last()).insert(s.last().owner@, s.last())
    }
}

/// Durable keyed storage of one LockBox per owner identity: create on
/// Initialize, read and mutate on Deposit and Withdraw, delete only in the
/// close variant of emergency withdrawal.
///
/// Viewed as a map from owner bytes to the stored entity.
pub struct LockBoxStore {
    entries: Vec<LockBox>,
}

impl View for LockBoxStore {
    type V = Map<Seq<u8>, LockBox>;

    closed spec fn view(&self) -> Map<Seq<u8>, LockBox> {
        entries_map(self.entries@)
    }
}

/// Every stored entity is well formed and no two share an owner.
pub open spec fn entries_wf(s: Seq<LockBox>) -> bool {
    &&& forall|i: int| 0 <= i < s.len() ==> (#[trigger] s[i]).wf()
    &&& forall|i: int, j: int|
        0 <= i < j < s.len() ==> s[i].owner@ != s[j].owner@
}

/// With distinct owners, the denoted map holds exactly the stored entities:
/// a key is present iff some entry owns it, and each entry is the value at
/// its own key.
proof fn lemma_entries_map(s: Seq<LockBox>)
    requires
        entries_wf(s),
    ensures
        forall|k: Seq<u8>|
            entries_map(s).contains_key(k)
                <==> exists|i: int| 0 <= i < s.len() && (#[trigger] s[i]).owner@ == k,
        forall|i: int|
            0 <= i < s.len()
                ==> entries_map(s).contains_key((#[trigger] s[i]).owner@)
                    && entries_map(s)[s[i].owner@] == s[i],
    decreases s.len(),
{
    if s.len() > 0 {
        let n = s.len() as int;
        assert(entries_wf(s.drop_last()));
        lemma_entries_map(s.drop_last());
        assert forall|i: int|
            0 <= i < s.len()
                implies entries_map(s).contains_key((#[trigger] s[i]).owner@)
                    && entries_map(s)[s[i].owner@] == s[i] by {
            if i < n - 1 {
                assert(s.drop_last()[i] == s[i]);
                assert(s[i].owner@ != s[n - 1].owner@);
            }
        }
        assert forall|k: Seq<u8>|
            entries_map(s).contains_key(k)
                implies exists|i: int| 0 <= i < s.len() && (#[trigger] s[i]).owner@ == k by {
            if k == s[n - 1].owner@ {
                assert(s[n - 1].owner@ == k);
            } else {
                assert(entries_map(s.drop_last()).contains_key(k));
                let i = choose|i: int| 0 <= i < s.drop_last().len()
                    && (#[trigger] s.drop_last()[i]).owner@ == k;
                assert(s.drop_last()[i] == s[i]);
                assert(s[i].owner@ == k);
            }
        }
    }
}

/// Removing entry `i` removes exactly its key from the denoted map.
proof fn lemma_entries_map_remove(s: Seq<LockBox>, i: int)
    requires
        entries_wf(s),
        0 <= i < s.len(),
    ensures
        entries_map(s.remove(i)) =~= entries_map(s).remove(s[i].owner@),
    decreases s.len(),
{
    let n = s.len() as int;
    lemma_entries_map(s);
    assert(entries_wf(s.drop_last()));
    lemma_entries_map(s.drop_last());
    if i == n - 1 {
        assert(s.remove(i) =~= s.drop_last());
        assert(!entries_map(s.drop_last()).contains_key(s[i].owner@));
        assert(entries_map(s.drop_last()) =~= entries_map(s.drop_last()).insert(
            s[i].owner@,
            s[i],
        ).remove(s[i].owner@));
    } else {
        assert(s.remove(i).drop_last() =~= s.drop_last().remove(i));
        assert(s.remove(i).last() == s[n - 1]);
        lemma_entries_map_remove(s.drop_last(), i);
        assert(entries_map(s.remove(i)) == entries_map(s.drop_last().remove(i)).insert(
            s[n - 1].owner@,
            s[n - 1],
        ));
        assert(s.drop_last()[i] == s[i]);
        assert(s[i].owner@ != s[n - 1].owner@);
    }
}

impl LockBoxStore {
    /// Internal invariant of the store.
    pub closed spec fn wf(&self) -> bool {
        entries_wf(self.entries@)
    }

    /// An empty store.
    pub fn new() -> (r: LockBoxStore)
        ensures
            r.wf(),
            r@ == Map::<Seq<u8>, LockBox>::empty(),
    {
        LockBoxStore { entries: Vec::new() }
    }

    /// The index of the entity owned by `owner`, if one is stored.
    fn find(&self, owner: &Address) -> (r: Option<usize>)
        requires
            self.wf(),
        ensures
            (r matches Some(i) ==> i < self.entries@.len() && self.entries@[i as int].owner@
                == owner@),
            r is None ==> !self@.contains_key(owner@),
    {
        proof {
            lemma_entries_map(self.entries@);
        }
        let mut i: usize = 0;
        while i < self.entries.len()
            invariant
                self.wf(),
                i <= self.entries@.len(),
                forall|k: int| 0 <= k < i ==> (#[trigger] self.entries@[k]).owner@ != owner@,
            decreases self.entries@.len() - i,
        {
            if self.entries[i].owner.same_as(owner) {
                return Some(i);
            }
            i += 1;
        }
        proof {
            lemma_entries_map(self.entries@);
        }
        None
    }

    /// Loads the entity stored for `owner`, if any.
    pub fn load_entity(&self, owner: &Address) -> (r: Option<&LockBox>)
        requires
            self.wf(),
        ensures
            (r matches Some(lb) ==> self@.contains_key(owner@) && *lb == self@[owner@]
                && lb.wf()),
            r is None ==> !self@.contains_key(owner@),
    {
        proof {
            lemma_entries_map(self.entries@);
        }
        match self.find(owner) {
            Some(i) => Some(&self.entries[i]),
            None => None,
        }
    }

    /// Creates the entity in the store; refused without change if an entity
    /// for the same owner is already present, handing the entity back.
    pub fn create_entity(&mut self, lb: LockBox) -> (r: Result<(), LockBox>)
        requires
            old(self).wf(),
            lb.wf(),
        ensures
            final(self).wf(),
            (match r {
                Ok(()) => !old(self)@.contains_key(lb.owner@) && final(self)@ == old(
                    self,
                )@.insert(lb.owner@, lb),
                Err(back) => old(self)@.contains_key(lb.owner@) && final(self)@ == old(self)@
                    && back == lb,
            }),
    {
        proof {
            lemma_entries_map(self.entries@);
        }
        match self.find(&lb.owner) {
            Some(_) => Err(lb),
            None => {
                let ghost pre = self.entries@;
                self.entries.push(lb);
                proof {
                    assert(self.entries@.drop_last() =~= pre);
                    assert forall|i: int, j: int|
                        0 <= i < j < self.entries@.len()
                            implies self.entries@[i].owner@ != self.entries@[j].owner@ by {
                        if j < pre.len() {
                        } else {
                            lemma_entries_map(pre);
                            assert(pre[i] == self.entries@[i]);
                        }
                    }
                }
                Ok(())
            },
        }
    }

    /// Stores the entity, replacing any entity already stored for the same
    /// owner.
    pub fn save_entity(&mut self, lb: LockBox)
        requires
            old(self).wf(),
            lb.wf(),
        ensures
            final(self).wf(),
            final(self)@ == old(self)@.insert(lb.owner@, lb),
    {
        self.delete_entity(&lb.owner);
        let ghost mid = self@;
        match self.create_entity(lb) {
            Ok(()) => {
                proof {
                    assert(old(self)@.remove(lb.owner@).insert(lb.owner@, lb) =~= old(
                        self,
                    )@.insert(lb.owner@, lb));
                }
            },
            Err(_) => {
                // Unreachable: the owner's key was just deleted.
                proof {
                    assert(!mid.contains_key(lb.owner@));
                }
            },
        }
    }

    /// Deletes the entity stored for `owner`, if any; returns whether one
    /// was there.
    pub fn delete_entity(&mut self, owner: &Address) -> (r: bool)
        requires
            old(self).wf(),
        ensures
            final(self).wf(),
            final(self)@ == old(self)@.remove(owner@),
            r == old(self)@.contains_key(owner@),
    {
        proof {
            lemma_entries_map(self.entries@);
        }
        match self.find(owner) {
            Some(i) => {
                let ghost pre = self.entries@;
                self.entries.remove(i);
                proof {
                    lemma_entries_map_remove(pre, i as int);
                    assert(entries_map(self.entries@) =~= entries_map(pre).remove(owner@));
                    assert forall|a: int, b: int|
                        0 <= a < b < self.entries@.len()
                            implies self.entries@[a].owner@ != self.entries@[b].owner@ by {
                        assert(self.entries@[a] == if a < i as int { pre[a] } else {
                            pre[a + 1]
                        });
                        assert(self.entries@[b] == if b < i as int { pre[b] } else {
                            pre[b + 1]
                        });
                    }
                    assert(entries_wf(self.entries@));
                }
                true
            },
            None => {
                proof {
                    assert(self@ =~= self@.remove(owner@));
                }
                false
            },
        }
    }
}

} // verus!
