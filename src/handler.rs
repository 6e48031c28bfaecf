//! The external image resolver: the renderer locks an external image before
//! sampling it, unlocks it afterwards and releases it when done with it. Each
//! handle moves unlocked -> locked -> unlocked ... -> released, and a call
//! out of turn is refused with an error that leaves every state as it was.
use vstd::prelude::*;

verus! {

/// An opaque handle to an image whose backing resource lives outside the
/// renderer.
#[derive(Clone, Copy, Debug, PartialEq, Eq, Structural)]
pub struct ExternalImageId(pub u64);

#[derive(Clone, Copy, Debug, PartialEq, Eq, Structural)]
pub enum LeaseState {
    /// Available, and not being sampled: the state of every handle at first.
    Unlocked,
    /// Being sampled by the renderer.
    Locked,
    /// No longer valid for lock or unlock.
    Released,
}

#[derive(Clone, Copy, Debug, PartialEq, Eq, Structural)]
pub enum LeaseError {
    /// `lock` of a handle that is locked already.
    AlreadyLocked,
    /// `unlock` of a handle that is not locked.
    NotLocked,
    /// `release` of a handle that is still locked.
    StillLocked,
    /// Any call on a released handle.
    Released,
}

/// Where a locked image is sampled from.
#[derive(Clone, Copy, Debug, PartialEq, Eq, Structural)]
pub enum ExternalImageSource {
    /// A texture of the native graphics API, by its name.
    NativeTexture(u32),
}

/// A locked image: the source covers texture coordinates (0, 0) to (1, 1).
#[derive(Clone, Copy, Debug, PartialEq, Eq, Structural)]
pub struct ExternalImage {
    pub source: ExternalImageSource,
}

/// A call the renderer makes on a handle.
#[derive(Clone, Copy, Debug, PartialEq, Eq, Structural)]
pub enum LeaseOp {
    Lock,
    Unlock,
    Release,
}

/// The state a call takes a handle to, or `None` where the call is refused.
pub open spec fn lease_step(st: LeaseState, op: LeaseOp) -> Option<LeaseState> {
    match (op, st) {
        (LeaseOp::Lock, LeaseState::Unlocked) => Some(LeaseState::Locked),
        (LeaseOp::Unlock, LeaseState::Locked) => Some(LeaseState::Unlocked),
        (LeaseOp::Release, LeaseState::Unlocked) => Some(LeaseState::Released),
        _ => None,
    }
}

/// The state after the calls `ops` in turn from `st`, or `None` where one of
/// them is refused.
pub open spec fn replay(st: LeaseState, ops: Seq<LeaseOp>) -> Option<LeaseState>
    decreases ops.len(),
{
    if ops.len() == 0 {
        Some(st)
    } else {
        match lease_step(st, ops[0]) {
            Some(next) => replay(next, ops.drop_first()),
            None => None,
        }
    }
}

/// In a history of calls on one handle that is accepted from the start,
/// every unlock directly follows a lock, and a release comes last, either
/// first of all or right after an unlock: no unlock before its lock, no
/// release before the last unlock.
pub proof fn lemma_accepted_history_is_paired(ops: Seq<LeaseOp>)
    requires
        replay(LeaseState::Unlocked, ops) is Some,
    ensures
        ops.len() > 0 ==> ops[0] != LeaseOp::Unlock,
        forall|i: int|
            #![trigger ops[i - 1], ops[i]]
            0 < i < ops.len() && ops[i] == LeaseOp::Unlock ==> ops[i - 1] == LeaseOp::Lock,
        forall|i: int| 0 <= i < ops.len() - 1 ==> #[trigger] ops[i] != LeaseOp::Release,
        forall|i: int|
            #![trigger ops[i - 1], ops[i]]
            0 < i < ops.len() && ops[i] == LeaseOp::Release ==> ops[i - 1] == LeaseOp::Unlock,
    decreases ops.len(),
{
    if ops.len() > 0 {
        if ops[0] == LeaseOp::Release {
            if ops.len() > 1 {
                assert(replay(LeaseState::Released, ops.drop_first()) is None);
            }
        } else {
            assert(ops[0] == LeaseOp::Lock);
            let after_lock = ops.drop_first();
            if after_lock.len() > 0 {
                assert(replay(LeaseState::Locked, after_lock) is Some);
                assert(lease_step(LeaseState::Locked, after_lock[0]) is Some);
                assert(ops[1] == LeaseOp::Unlock);
                let rest = after_lock.drop_first();
                assert(rest =~= ops.subrange(2, ops.len() as int));
                assert(replay(LeaseState::Unlocked, rest) is Some);
                lemma_accepted_history_is_paired(rest);
                assert forall|i: int|
                    #![trigger ops[i - 1], ops[i]]
                    0 < i < ops.len() && ops[i] == LeaseOp::Unlock implies ops[i - 1]
                        == LeaseOp::Lock by {
                    if i >= 3 {
                        let j = i - 2;
                        assert(rest[j] == ops[i]);
                        assert(rest[j - 1] == ops[i - 1]);
                    } else if i == 2 {
                        assert(rest[0] == ops[2]);
                    }
                }
                assert forall|i: int| 0 <= i < ops.len() - 1 implies #[trigger] ops[i]
                    != LeaseOp::Release by {
                    if i >= 2 {
                        assert(rest[i - 2] == ops[i]);
                    }
                }
                assert forall|i: int|
                    #![trigger ops[i - 1], ops[i]]
                    0 < i < ops.len() && ops[i] == LeaseOp::Release implies ops[i - 1]
                        == LeaseOp::Unlock by {
                    if i >= 3 {
                        let j = i - 2;
                        assert(rest[j] == ops[i]);
                        assert(rest[j - 1] == ops[i - 1]);
                    }
                }
            }
        }
    }
}

/// The state of handle `id` after the updates in `log`: the last one for
/// `id` wins, and a handle never mentioned is unlocked.
pub open spec fn state_in(log: Seq<(u64, LeaseState)>, id: u64) -> LeaseState
    decreases log.len(),
{
    if log.len() == 0 {
        LeaseState::Unlocked
    } else if log.last().0 == id {
        log.last().1
    } else {
        state_in(log.drop_last(), id)
    }
}

proof fn lemma_update_last(log: Seq<(u64, LeaseState)>, i: int, id: u64, st: LeaseState)
    requires
        0 <= i < log.len(),
        log[i].0 == id,
        forall|j: int| i < j < log.len() ==> log[j].0 != id,
    ensures
        forall|other: u64|
            state_in(#[trigger] log.update(i, (id, st)), other) == if other == id {
                st
            } else {
                state_in(log, other)
            },
    decreases log.len(),
{
    let upd = log.update(i, (id, st));
    if i == log.len() - 1 {
        assert(upd.drop_last() =~= log.drop_last());
    } else {
        assert(upd.drop_last() =~= log.drop_last().update(i, (id, st)));
        lemma_update_last(log.drop_last(), i, id, st);
        assert forall|other: u64|
            state_in(upd, other) == if other == id {
                st
            } else {
                state_in(log, other)
            } by {
            assert(upd.last() == log.last());
            assert(log[log.len() - 1].0 != id);
            assert(state_in(log.drop_last().update(i, (id, st)), other) == if other == id {
                st
            } else {
                state_in(log.drop_last(), other)
            });
        }
    }
}

/// Brokers access to external images for the renderer.
pub struct Handler {
    /// State updates, one entry per handle ever used.
    pub leases: Vec<(u64, LeaseState)>,
}

impl Handler {
    pub open spec fn lease_state(&self, id: ExternalImageId) -> LeaseState {
        state_in(self.leases@, id.0)
    }

    pub fn new() -> (r: Handler)
        ensures
            forall|id: ExternalImageId| r.lease_state(id) == LeaseState::Unlocked,
    {
        Handler { leases: Vec::new() }
    }

    /// The state of `id`.
    pub fn state(&self, id: ExternalImageId) -> (r: LeaseState)
        ensures
            r == self.lease_state(id),
    {
        match self.find(id.0) {
            Some(i) => self.leases[i].1,
            None => LeaseState::Unlocked,
        }
    }

    /// The position of the last entry for `id`.
    fn find(&self, id: u64) -> (r: Option<usize>)
        ensures
            match r {
                Some(i) => {
                    &&& i < self.leases@.len()
                    &&& self.leases@[i as int].0 == id
                    &&& forall|j: int| i < j < self.leases@.len() ==> self.leases@[j].0 != id
                    &&& state_in(self.leases@, id) == self.leases@[i as int].1
                },
                None => state_in(self.leases@, id) == LeaseState::Unlocked,
            },
    {
        let mut i: usize = self.leases.len();
        assert(self.leases@.subrange(0, i as int) =~= self.leases@);
        while i > 0
            invariant
                i <= self.leases@.len(),
                state_in(self.leases@, id) == state_in(self.leases@.subrange(0, i as int), id),
                forall|j: int| i <= j < self.leases@.len() ==> self.leases@[j].0 != id,
            decreases i,
        {
            let ghost prefix = self.leases@.subrange(0, i as int);
            assert(prefix.drop_last() =~= self.leases@.subrange(0, i - 1));
            assert(prefix.last() == self.leases@[i - 1]);
            if self.leases[i - 1].0 == id {
                return Some(i - 1);
            }
            i = i - 1;
        }
        assert(self.leases@.subrange(0, 0) =~= Seq::<(u64, LeaseState)>::empty());
        None
    }

    /// Puts `id` in state `st`, leaving every other handle as it was.
    fn set_state(&mut self, id: u64, st: LeaseState)
        ensures
            forall|other: ExternalImageId|
                #[trigger] final(self).lease_state(other) == if other.0 == id {
                    st
                } else {
                    old(self).lease_state(other)
                },
    {
        match self.find(id) {
            Some(i) => {
                proof {
                    lemma_update_last(self.leases@, i as int, id, st);
                }
                self.leases.set(i, (id, st));
            },
            None => {
                self.leases.push((id, st));
                assert forall|other: ExternalImageId|
                    #[trigger] self.lease_state(other) == if other.0 == id {
                        st
                    } else {
                        old(self).lease_state(other)
                    } by {
                    assert(self.leases@.drop_last() =~= old(self).leases@);
                }
            },
        }
    }

    /// Called before the renderer samples `key`: succeeds exactly when `key`
    /// is unlocked, and locks it.
    pub fn lock(&mut self, key: ExternalImageId) -> (r: Result<ExternalImage, LeaseError>)
        ensures
            r is Ok <==> lease_step(old(self).lease_state(key), LeaseOp::Lock) is Some,
            r is Ok <==> old(self).lease_state(key) == LeaseState::Unlocked,
            old(self).lease_state(key) == LeaseState::Unlocked ==> r == Ok::<
                ExternalImage,
                LeaseError,
            >(ExternalImage { source: ExternalImageSource::NativeTexture(0) }),
            old(self).lease_state(key) == LeaseState::Locked ==> r == Err::<
                ExternalImage,
                LeaseError,
            >(LeaseError::AlreadyLocked),
            old(self).lease_state(key) == LeaseState::Released ==> r == Err::<
                ExternalImage,
                LeaseError,
            >(LeaseError::Released),
            forall|other: ExternalImageId|
                #[trigger] final(self).lease_state(other) == if other == key && r is Ok {
                    lease_step(old(self).lease_state(key), LeaseOp::Lock).unwrap()
                } else {
                    old(self).lease_state(other)
                },
    {
        match self.state(key) {
            LeaseState::Unlocked => {
                self.set_state(key.0, LeaseState::Locked);
                Ok(ExternalImage { source: ExternalImageSource::NativeTexture(0) })
            },
            LeaseState::Locked => Err(LeaseError::AlreadyLocked),
            LeaseState::Released => Err(LeaseError::Released),
        }
    }

    /// Called when sampling of `key` is done: succeeds exactly when `key` is
    /// locked, and unlocks it without releasing it.
    pub fn unlock(&mut self, key: ExternalImageId) -> (r: Result<(), LeaseError>)
        ensures
            r is Ok <==> lease_step(old(self).lease_state(key), LeaseOp::Unlock) is Some,
            r is Ok <==> old(self).lease_state(key) == LeaseState::Locked,
            old(self).lease_state(key) == LeaseState::Unlocked ==> r == Err::<(), LeaseError>(
                LeaseError::NotLocked,
            ),
            old(self).lease_state(key) == LeaseState::Released ==> r == Err::<(), LeaseError>(
                LeaseError::Released,
            ),
            forall|other: ExternalImageId|
                #[trigger] final(self).lease_state(other) == if other == key && r is Ok {
                    lease_step(old(self).lease_state(key), LeaseOp::Unlock).unwrap()
                } else {
                    old(self).lease_state(other)
                },
    {
        match self.state(key) {
            LeaseState::Locked => {
                self.set_state(key.0, LeaseState::Unlocked);
                Ok(())
            },
            LeaseState::Unlocked => Err(LeaseError::NotLocked),
            LeaseState::Released => Err(LeaseError::Released),
        }
    }

    /// Called when the renderer is done with `key` for good: succeeds exactly
    /// when `key` is unlocked, and releases it.
    pub fn release(&mut self, key: ExternalImageId) -> (r: Result<(), LeaseError>)
        ensures
            r is Ok <==> lease_step(old(self).lease_state(key), LeaseOp::Release) is Some,
            r is Ok <==> old(self).lease_state(key) == LeaseState::Unlocked,
            old(self).lease_state(key) == LeaseState::Locked ==> r == Err::<(), LeaseError>(
                LeaseError::StillLocked,
            ),
            old(self).lease_state(key) == LeaseState::Released ==> r == Err::<(), LeaseError>(
                LeaseError::Released,
            ),
            forall|other: ExternalImageId|
                #[trigger] final(self).lease_state(other) == if other == key && r is Ok {
                    lease_step(old(self).lease_state(key), LeaseOp::Release).unwrap()
                } else {
                    old(self).lease_state(other)
                },
    {
        match self.state(key) {
            LeaseState::Unlocked => {
                self.set_state(key.0, LeaseState::Released);
                Ok(())
            },
            LeaseState::Locked => Err(LeaseError::StillLocked),
            LeaseState::Released => Err(LeaseError::Released),
        }
    }
}

} // verus!
