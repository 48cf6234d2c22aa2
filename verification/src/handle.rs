//! Opaque event handles and the host loop's view of them. The foreign
//! loop owns each handle's control block once it is registered; local
//! code holds a small capability naming the block and asks the loop
//! for operations on it. A handle carries one out-of-band payload,
//! stored in the block's reserved data slot and read back by the
//! callback trampoline.
//!
//! The foreign initializer itself runs outside this library; its
//! integer status is handed in, and everything the library decides
//! from it — registration, payload attachment, the error on a negative
//! status — is specified here.

use vstd::prelude::*;

use crate::error::Error;

verus! {

/// The loop's record of one registered control block: whether it is
/// still tracked, the attached payload if any, and whether a wake
/// request is armed and not yet drained.
pub struct HandleSlot<P> {
    pub active: bool,
    pub data: Option<P>,
    pub pending: bool,
}

/// The single-threaded host loop's bookkeeping for every control
/// block registered with it. The loop owns the blocks; local handles
/// only name them.
pub struct HostLoop<P> {
    pub slots: Vec<HandleSlot<P>>,
}

/// A local, cloneable capability naming one control block registered
/// with the host loop. Dropping a capability frees nothing: the loop
/// remains the authority on the block's lifetime.
#[derive(Clone, Copy, Debug, PartialEq, Eq, Structural)]
pub struct Handle {
    pub id: usize,
}

impl<P> HostLoop<P> {
    /// A loop with nothing registered yet.
    pub fn new() -> (r: HostLoop<P>)
        ensures
            r.slots@.len() == 0,
    {
        HostLoop { slots: Vec::new() }
    }

    /// Whether `id` names a control block the loop still tracks.
    pub open spec fn valid(&self, id: int) -> bool {
        0 <= id < self.slots@.len() && self.slots@[id].active
    }

    pub fn len(&self) -> (r: usize)
        ensures
            r == self.slots@.len(),
    {
        self.slots.len()
    }
}

impl Handle {
    /// Registers a new control block with the loop. The foreign
    /// initializer has already run; `init_status` is what it returned.
    /// A negative status means the block was not registered and is
    /// surfaced as [`Error::InitFailed`]; otherwise the loop tracks a
    /// fresh block with no payload and no armed wake.
    pub fn new<P>(lp: &mut HostLoop<P>, init_status: i32) -> (r: Result<Handle, Error>)
        ensures
            init_status < 0 ==> (r matches Err(e) && e == Error::InitFailed(init_status)
                && final(lp).slots@ == old(lp).slots@),
            init_status >= 0 ==> (r matches Ok(h) && h.id == old(lp).slots@.len()
                && final(lp).slots@ == old(lp).slots@.push(
                HandleSlot { active: true, data: None, pending: false },
            )),
    {
        if init_status < 0 {
            Err(Error::InitFailed(init_status))
        } else {
            let id = lp.slots.len();
            lp.slots.push(HandleSlot { active: true, data: None, pending: false });
            Ok(Handle { id })
        }
    }

    /// Reconstructs a capability from the raw identity a trampoline
    /// was handed. The block stays owned by the loop.
    pub fn from_raw(id: usize) -> (r: Handle)
        ensures
            r.id == id,
    {
        Handle { id }
    }

    /// Attaches `data` as the handle's payload, overwriting — and
    /// thereby leaking — any payload already attached. Callers attach
    /// at most once per handle; that is a documented precondition of
    /// the foreign data slot, not something the slot checks.
    pub fn set_data<P>(&self, lp: &mut HostLoop<P>, data: P)
        requires
            self.id < old(lp).slots@.len(),
        ensures
            final(lp).slots@ == old(lp).slots@.update(
                self.id as int,
                HandleSlot {
                    active: old(lp).slots@[self.id as int].active,
                    data: Some(data),
                    pending: old(lp).slots@[self.id as int].pending,
                },
            ),
    {
        let active = lp.slots[self.id].active;
        let pending = lp.slots[self.id].pending;
        lp.slots[self.id] = HandleSlot { active, data: Some(data), pending };
    }

    /// Reads the payload address back, as the trampoline does. `None`
    /// is the null sentinel: no payload was ever attached, or the
    /// block was closed.
    pub fn get_data<'a, P>(&self, lp: &'a HostLoop<P>) -> (r: Option<&'a P>)
        requires
            self.id < lp.slots@.len(),
        ensures
            match r {
                Some(p) => lp.slots@[self.id as int].data == Some(*p),
                None => lp.slots@[self.id as int].data is None,
            },
    {
        match &lp.slots[self.id].data {
            Some(p) => Some(p),
            None => None,
        }
    }

    /// Tells the loop to stop tracking the block and drop its payload.
    /// An already-armed wake is disarmed with it; a wake request that
    /// raced ahead of the close may still have fired, but no further
    /// one will.
    pub fn close<P>(&self, lp: &mut HostLoop<P>)
        requires
            self.id < old(lp).slots@.len(),
        ensures
            final(lp).slots@ == old(lp).slots@.update(
                self.id as int,
                HandleSlot { active: false, data: None, pending: false },
            ),
    {
        lp.slots[self.id] = HandleSlot { active: false, data: None, pending: false };
    }
}

} // verus!
