//! The cross-thread wake-up primitive. An async handle is a cloneable
//! capability over one control block whose payload is the callback to
//! run on the host thread. `send` only arms the block's wake flag —
//! it never runs the callback itself — and arming an already-armed
//! block changes nothing, which is exactly the coalescing the foreign
//! wake mechanism promises: however many requests arrive before the
//! loop drains, the callback runs once. Draining clears the flag, so
//! a request arriving afterwards schedules exactly one more run.

use vstd::prelude::*;

use crate::error::Error;
use crate::handle::{Handle, HandleSlot, HostLoop};

verus! {

/// A thread-safe, cloneable capability to wake the host loop and have
/// its payload run there.
#[derive(Clone, Copy, Debug, PartialEq, Eq, Structural)]
pub struct AsyncHandle {
    pub handle: Handle,
}

/// The image of arming a wake on slot `id`: its pending flag is set —
/// whether or not it already was — and nothing else moves.
pub open spec fn send_spec<P>(slots: Seq<HandleSlot<P>>, id: int) -> Seq<HandleSlot<P>> {
    slots.update(
        id,
        HandleSlot { active: slots[id].active, data: slots[id].data, pending: true },
    )
}

/// The image of the loop draining the wake armed on slot `id`: the
/// flag is cleared before the payload runs, so a request arriving
/// during the run arms it anew.
pub open spec fn drain_spec<P>(slots: Seq<HandleSlot<P>>, id: int) -> Seq<HandleSlot<P>> {
    slots.update(
        id,
        HandleSlot { active: slots[id].active, data: slots[id].data, pending: false },
    )
}

impl AsyncHandle {
    /// Registers a new callback on the host loop, to be run on the
    /// host thread whenever a wake armed through the returned handle
    /// is drained. The foreign initializer has already run and
    /// returned `init_status`; a negative status fails the
    /// construction with [`Error::InitFailed`] and registers nothing.
    pub fn new<P>(lp: &mut HostLoop<P>, init_status: i32, callback: P) -> (r: Result<
        AsyncHandle,
        Error,
    >)
        ensures
            init_status < 0 ==> (r matches Err(e) && e == Error::InitFailed(init_status)
                && final(lp).slots@ == old(lp).slots@),
            init_status >= 0 ==> (r matches Ok(h) && h.handle.id == old(lp).slots@.len()
                && final(lp).slots@ == old(lp).slots@.push(
                HandleSlot { active: true, data: Some(callback), pending: false },
            )),
    {
        match Handle::new(lp, init_status) {
            Err(e) => Err(e),
            Ok(handle) => {
                handle.set_data(lp, callback);
                proof {
                    assert(lp.slots@ =~= old(lp).slots@.push(
                        HandleSlot { active: true, data: Some(callback), pending: false },
                    ));
                }
                Ok(AsyncHandle { handle })
            },
        }
    }

    /// Asks the loop to wake and run this handle's payload on the host
    /// thread. Safe to request from any thread; it never blocks and
    /// never runs the payload itself. Requests arriving while one is
    /// already armed coalesce: the armed flag is simply set again.
    /// The foreign wake primitive rejects the request only when the
    /// block is no longer tracked, surfaced as
    /// [`Error::CouldntTriggerAsyncHandle`].
    pub fn send<P>(&self, lp: &mut HostLoop<P>) -> (r: Result<(), Error>)
        ensures
            old(lp).valid(self.handle.id as int) ==> (r matches Ok(u) && u == ()
                && final(lp).slots@ == send_spec(old(lp).slots@, self.handle.id as int)),
            !old(lp).valid(self.handle.id as int) ==> (r matches Err(e) && e
                == Error::CouldntTriggerAsyncHandle && final(lp).slots@ == old(lp).slots@),
    {
        if self.handle.id >= lp.slots.len() {
            return Err(Error::CouldntTriggerAsyncHandle);
        }
        if !lp.slots[self.handle.id].active {
            return Err(Error::CouldntTriggerAsyncHandle);
        }
        let slot = lp.slots.remove(self.handle.id);
        lp.slots.insert(
            self.handle.id,
            HandleSlot { active: slot.active, data: slot.data, pending: true },
        );
        proof {
            assert(lp.slots@ =~= send_spec(old(lp).slots@, self.handle.id as int));
        }
        Ok(())
    }
}

impl<P> HostLoop<P> {
    /// One scheduling point of the host thread: picks the first armed,
    /// still-tracked block, clears its flag, and names it — the
    /// caller then runs that block's payload through the trampoline.
    /// `None` means no wake is armed and nothing runs.
    pub fn drain_one(&mut self) -> (r: Option<usize>)
        ensures
            match r {
                Some(id) => old(self).valid(id as int) && old(self).slots@[id as int].pending
                    && final(self).slots@ == drain_spec(old(self).slots@, id as int),
                None => final(self).slots@ == old(self).slots@ && forall|i: int|
                    old(self).valid(i) ==> !old(self).slots@[i].pending,
            },
    {
        let mut i: usize = 0;
        let n = self.slots.len();
        while i < n
            invariant
                n == self.slots@.len(),
                i <= n,
                *self == *old(self),
                forall|j: int| 0 <= j < i && self.valid(j) ==> !self.slots@[j].pending,
            decreases n - i,
        {
            if self.slots[i].active && self.slots[i].pending {
                let slot = self.slots.remove(i);
                self.slots.insert(
                    i,
                    HandleSlot { active: slot.active, data: slot.data, pending: false },
                );
                proof {
                    assert(self.slots@ =~= drain_spec(old(self).slots@, i as int));
                }
                return Some(i);
            }
            i += 1;
        }
        None
    }
}

/// Wake coalescing: arming an already-armed block is the arming
/// itself — any burst of requests before the loop drains leaves the
/// loop in the state one request leaves it in, so the payload runs
/// once for the whole burst.
pub proof fn lemma_wake_coalescing<P>(slots: Seq<HandleSlot<P>>, id: int)
    requires
        0 <= id < slots.len(),
    ensures
        send_spec(send_spec(slots, id), id) == send_spec(slots, id),
{
    assert(send_spec(send_spec(slots, id), id) =~= send_spec(slots, id));
}

/// Handle payload singularity: arming and draining wakes never touch
/// any attached payload, so however many times the trampoline runs for
/// a handle, it reads back the one payload that was attached —
/// through every slot, not only the one being armed or drained.
pub proof fn lemma_payload_singularity<P>(slots: Seq<HandleSlot<P>>, id: int, j: int)
    requires
        0 <= id < slots.len(),
        0 <= j < slots.len(),
    ensures
        send_spec(slots, id)[j].data == slots[j].data,
        drain_spec(slots, id)[j].data == slots[j].data,
{
}

/// A request arriving after the loop drained the previous wake arms
/// the block again: exactly one more run is scheduled, not zero and
/// not a backlog.
pub proof fn lemma_wake_after_drain<P>(slots: Seq<HandleSlot<P>>, id: int)
    requires
        0 <= id < slots.len(),
    ensures
        !drain_spec(slots, id)[id].pending,
        send_spec(drain_spec(slots, id), id)[id].pending,
        send_spec(drain_spec(slots, id), id) == send_spec(slots, id),
{
    assert(send_spec(drain_spec(slots, id), id) =~= send_spec(slots, id));
}

} // verus!
