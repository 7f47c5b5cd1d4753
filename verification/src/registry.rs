//! The session registry: the in-memory map from guild to live session,
//! paired with the model of the persisted "active instances" set so that
//! every mutation names the persistence write that must accompany it.
use vstd::prelude::*;

verus! {

use std::collections::HashMap;

use crate::errors::NCBError;
use crate::instance::TTSInstance;

broadcast use vstd::std_specs::hash::group_hash_axioms;

/// The persistence write that must accompany a registry mutation.
#[derive(Debug, Clone, Copy, PartialEq, Eq, Structural)]
pub enum PersistAction {
    /// Store the guild's session record and add it to the active set.
    SaveInstance { guild_id: u64 },
    /// Delete the guild's session record and drop it from the active set.
    RemoveInstance { guild_id: u64 },
}

/// The registry: sessions by guild, and the ids the persisted active
/// set is expected to hold.
pub struct Registry {
    sessions: HashMap<u64, TTSInstance>,
    active_ids: Vec<u64>,
}

impl Registry {
    /// The guild-to-session map.
    pub closed spec fn spec_sessions(self) -> Map<u64, TTSInstance> {
        self.sessions@
    }

    /// The model of the persisted active set, in insertion order.
    pub closed spec fn spec_active(self) -> Seq<u64> {
        self.active_ids@
    }

    /// Well-formed: the active list holds no duplicates, and a guild is
    /// listed exactly when it has a session — the durability invariant.
    pub closed spec fn wf(self) -> bool {
        &&& (forall|i: int, j: int|
            0 <= i < j < self.active_ids@.len() ==> self.active_ids@[i] != self.active_ids@[j])
        &&& (forall|i: int|
            0 <= i < self.active_ids@.len() ==> self.sessions@.contains_key(
                #[trigger] self.active_ids@[i],
            ))
        &&& (forall|g: u64|
            #[trigger] self.sessions@.contains_key(g) ==> self.active_ids@.contains(g))
    }

    /// Law (durability): in a well-formed registry a guild has a live
    /// session exactly when the persisted active set records it.
    pub proof fn lemma_durable(self, g: u64)
        requires
            self.wf(),
        ensures
            self.spec_sessions().contains_key(g) <==> self.spec_active().contains(g),
    {
        if self.spec_active().contains(g) {
            let i = choose|i: int|
                0 <= i < self.spec_active().len() && self.spec_active()[i] == g;
            assert(self.sessions@.contains_key(self.active_ids@[i]));
        }
    }

    /// An empty registry.
    pub fn new() -> (r: Self)
        ensures
            r.wf(),
            (r.spec_sessions() == Map::<u64, TTSInstance>::empty()),
            r.spec_active().len() == 0,
    {
        Registry { sessions: HashMap::new(), active_ids: Vec::new() }
    }

    /// Whether text-to-speech is active in the guild; absence is the
    /// authoritative "not in session" signal.
    pub fn contains(&self, guild_id: u64) -> (r: bool)
        ensures
            r == self.spec_sessions().contains_key(guild_id),
    {
        self.sessions.contains_key(&guild_id)
    }

    /// How many guilds have an active session.
    pub fn len(&self) -> (r: usize)
        ensures
            r == self.spec_sessions().len(),
    {
        self.sessions.len()
    }

    /// The guild's session, if one is active.
    pub fn get(&self, guild_id: u64) -> (r: Option<&TTSInstance>)
        ensures
            match r {
                Option::Some(inst) => self.spec_sessions().contains_key(guild_id) && *inst
                    == self.spec_sessions()[guild_id],
                Option::None => !self.spec_sessions().contains_key(guild_id),
            },
    {
        self.sessions.get(&guild_id)
    }

    /// Installs a new session for the guild and says what to persist;
    /// a guild that already has one is refused unchanged.
    pub fn setup(&mut self, guild_id: u64, instance: TTSInstance) -> (r: Result<
        PersistAction,
        NCBError,
    >)
        requires
            old(self).wf(),
        ensures
            final(self).wf(),
            old(self).spec_sessions().contains_key(guild_id) ==> {
                &&& r is Err
                &&& final(self).spec_sessions() == old(self).spec_sessions()
                &&& final(self).spec_active() == old(self).spec_active()
            },
            !old(self).spec_sessions().contains_key(guild_id) ==> {
                &&& r == Result::<PersistAction, NCBError>::Ok(
                    PersistAction::SaveInstance { guild_id },
                )
                &&& final(self).spec_sessions() == old(self).spec_sessions().insert(
                    guild_id,
                    instance,
                )
                &&& final(self).spec_active() == old(self).spec_active().push(guild_id)
            },
    {
        if self.sessions.contains_key(&guild_id) {
            return Result::Err(NCBError::invalid_input("session already active"));
        }
        proof {
            self.lemma_durable(guild_id);
        }
        self.sessions.insert(guild_id, instance);
        self.active_ids.push(guild_id);
        proof {
            assert forall|i: int| 0 <= i < self.active_ids@.len() implies self.sessions@.contains_key(
                #[trigger] self.active_ids@[i],
            ) by {
                if i < self.active_ids@.len() - 1 {
                    assert(old(self).sessions@.contains_key(self.active_ids@[i]));
                }
            }
            assert forall|g: u64| #[trigger]
                self.sessions@.contains_key(g) implies self.active_ids@.contains(g) by {
                if g == guild_id {
                    assert(self.active_ids@[self.active_ids@.len() - 1] == g);
                } else {
                    assert(old(self).sessions@.contains_key(g));
                    let i = choose|i: int|
                        0 <= i < old(self).active_ids@.len() && old(self).active_ids@[i] == g;
                    assert(self.active_ids@[i] == g);
                }
            }
        }
        Result::Ok(PersistAction::SaveInstance { guild_id })
    }

    /// Tears the guild's session down and says what to persist; a guild
    /// without one yields no action.
    #[verifier::loop_isolation(false)]
    pub fn remove(&mut self, guild_id: u64) -> (r: Option<PersistAction>)
        requires
            old(self).wf(),
        ensures
            final(self).wf(),
            old(self).spec_sessions().contains_key(guild_id) ==> {
                &&& r == Option::Some(PersistAction::RemoveInstance { guild_id })
                &&& final(self).spec_sessions() == old(self).spec_sessions().remove(guild_id)
                &&& !final(self).spec_active().contains(guild_id)
                &&& (forall|g: u64|
                    g != guild_id ==> (final(self).spec_active().contains(g) <==> old(
                        self,
                    ).spec_active().contains(g)))
            },
            !old(self).spec_sessions().contains_key(guild_id) ==> {
                &&& r is None
                &&& final(self).spec_sessions() == old(self).spec_sessions()
                &&& final(self).spec_active() == old(self).spec_active()
            },
    {
        if !self.sessions.contains_key(&guild_id) {
            return Option::None;
        }
        self.sessions.remove(&guild_id);
        let mut i: usize = 0;
        let ghost active0 = self.active_ids@;
        while i < self.active_ids.len()
            invariant
                i <= self.active_ids@.len(),
                self.active_ids@ == active0,
                self.sessions@ == old(self).sessions@.remove(guild_id),
                forall|j: int| 0 <= j < i ==> (#[trigger] active0[j]) != guild_id,
            decreases self.active_ids@.len() - i,
        {
            if self.active_ids[i] == guild_id {
                self.active_ids.remove(i);
                proof {
                    lemma_active_after_remove(active0, self.active_ids@, i as int, guild_id);
                    restore_wf_after_remove(*old(self), *self, guild_id);
                }
                return Option::Some(PersistAction::RemoveInstance { guild_id });
            }
            i = i + 1;
        }
        proof {
            // The invariant says the guild is listed; the scan cannot miss it.
            old(self).lemma_durable(guild_id);
            let j = choose|j: int| 0 <= j < active0.len() && active0[j] == guild_id;
            assert(false);
        }
        Option::None
    }

    /// Replaces the stored session of a guild that already has one (the
    /// persisted record is unchanged in shape: same guild).
    pub fn replace(&mut self, guild_id: u64, instance: TTSInstance)
        requires
            old(self).wf(),
            old(self).spec_sessions().contains_key(guild_id),
        ensures
            final(self).wf(),
            final(self).spec_sessions() == old(self).spec_sessions().insert(guild_id, instance),
            final(self).spec_active() == old(self).spec_active(),
    {
        self.sessions.insert(guild_id, instance);
        proof {
            assert forall|i: int| 0 <= i < self.active_ids@.len() implies self.sessions@.contains_key(
                #[trigger] self.active_ids@[i],
            ) by {
                assert(old(self).sessions@.contains_key(self.active_ids@[i]));
            }
            assert forall|g: u64| #[trigger]
                self.sessions@.contains_key(g) implies self.active_ids@.contains(g) by {
                if g != guild_id {
                    assert(old(self).sessions@.contains_key(g));
                }
            }
        }
    }

    /// The guilds with an active session, in insertion order.
    #[verifier::loop_isolation(false)]
    pub fn guild_ids(&self) -> (r: Vec<u64>)
        ensures
            r@ == self.spec_active(),
    {
        let mut out: Vec<u64> = Vec::new();
        let mut i: usize = 0;
        while i < self.active_ids.len()
            invariant
                i <= self.active_ids@.len(),
                out@ == self.active_ids@.subrange(0, i as int),
            decreases self.active_ids@.len() - i,
        {
            out.push(self.active_ids[i]);
            i = i + 1;
            proof {
                assert(out@ =~= self.active_ids@.subrange(0, i as int));
            }
        }
        proof {
            assert(out@ =~= self.active_ids@);
        }
        out
    }
}

/// After removing index `i` (the first occurrence of `g`) from a
/// duplicate-free list, `g` is gone and every other id is kept.
proof fn lemma_active_after_remove(before: Seq<u64>, after: Seq<u64>, i: int, g: u64)
    requires
        0 <= i < before.len(),
        before[i] == g,
        after == before.remove(i),
        forall|p: int, q: int| 0 <= p < q < before.len() ==> before[p] != before[q],
    ensures
        !after.contains(g),
        forall|x: u64| x != g ==> (after.contains(x) <==> before.contains(x)),
        forall|p: int, q: int| 0 <= p < q < after.len() ==> after[p] != after[q],
        forall|j: int| 0 <= j < after.len() ==> before.contains(#[trigger] after[j]),
{
    assert forall|j: int| 0 <= j < after.len() implies before.contains(#[trigger] after[j]) by {
        if j < i {
            assert(after[j] == before[j]);
        } else {
            assert(after[j] == before[j + 1]);
        }
    }
    assert forall|j: int| 0 <= j < after.len() implies after[j] != g by {
        if j < i {
            assert(after[j] == before[j]);
        } else {
            assert(after[j] == before[j + 1]);
        }
    }
    if after.contains(g) {
        let j = choose|j: int| 0 <= j < after.len() && after[j] == g;
        assert(false);
    }
    assert forall|x: u64| x != g && before.contains(x) implies after.contains(x) by {
        let j = choose|j: int| 0 <= j < before.len() && before[j] == x;
        if j < i {
            assert(after[j] == x);
        } else {
            assert(j > i);
            assert(after[j - 1] == x);
        }
    }
    assert forall|p: int, q: int| 0 <= p < q < after.len() implies after[p] != after[q] by {
        let p0 = if p < i {
            p
        } else {
            p + 1
        };
        let q0 = if q < i {
            q
        } else {
            q + 1
        };
        assert(after[p] == before[p0]);
        assert(after[q] == before[q0]);
    }
}

/// Re-establishes well-formedness after a paired map-and-list removal.
proof fn restore_wf_after_remove(pre: Registry, post: Registry, g: u64)
    requires
        pre.wf(),
        post.spec_sessions() == pre.spec_sessions().remove(g),
        !post.spec_active().contains(g),
        forall|x: u64| x != g ==> (post.spec_active().contains(x) <==> pre.spec_active().contains(x)),
        forall|p: int, q: int|
            0 <= p < q < post.spec_active().len() ==> post.spec_active()[p] != post.spec_active()[q],
        forall|j: int|
            0 <= j < post.spec_active().len() ==> pre.spec_active().contains(
                #[trigger] post.spec_active()[j],
            ),
    ensures
        post.wf(),
{
    assert forall|i: int| 0 <= i < post.spec_active().len() implies post.spec_sessions().contains_key(
        #[trigger] post.spec_active()[i],
    ) by {
        let x = post.spec_active()[i];
        assert(pre.spec_active().contains(x));
        let j = choose|j: int| 0 <= j < pre.spec_active().len() && pre.spec_active()[j] == x;
        assert(pre.spec_sessions().contains_key(pre.spec_active()[j]));
        assert(x != g);
    }
    assert forall|x: u64| #[trigger]
        post.spec_sessions().contains_key(x) implies post.spec_active().contains(x) by {
        assert(pre.spec_sessions().contains_key(x));
        assert(x != g);
        assert(pre.spec_active().contains(x));
    }
}

} // verus!
