//! The closure registration bridge into the embedded interpreter's
//! reference-counted table. A registered closure is addressable by an
//! integer reference that interpreter code can treat as a first-class
//! callable; a one-shot entry is removed the moment it is taken for
//! its single invocation, whatever that invocation then does, and a
//! repeatable entry stays until explicitly unregistered.

use vstd::prelude::*;

verus! {

/// One table entry: the stored payload and whether it is good for a
/// single invocation only.
pub struct RegistryEntry<T> {
    pub payload: T,
    pub one_shot: bool,
}

/// The interpreter's reference table, addressed by the integer
/// references it hands out. A `None` slot is a reference that was
/// never handed out or has been removed; invoking it fails loudly
/// instead of reaching any closure.
pub struct ClosureRegistry<T> {
    pub entries: Vec<Option<RegistryEntry<T>>>,
}

/// What taking a reference for invocation yields.
pub enum Invocation<T> {
    /// The reference does not resolve: it was never registered, was
    /// unregistered, or was a one-shot already used once.
    Stale,
    /// A one-shot entry: its payload is handed out for the single
    /// call, and the table entry is already gone — whether the call
    /// then succeeds or errors.
    OneShot(T),
    /// A repeatable entry: it stays in the table; the payload is read
    /// through [`ClosureRegistry::payload`].
    Repeatable,
}

/// The image of taking `r` for invocation: a resolvable one-shot entry
/// disappears, anything else leaves the table as it was.
pub open spec fn invoke_spec<T>(
    entries: Seq<Option<RegistryEntry<T>>>,
    r: int,
) -> Seq<Option<RegistryEntry<T>>> {
    if 0 <= r < entries.len() && (entries[r] matches Some(e) && e.one_shot) {
        entries.update(r, None)
    } else {
        entries
    }
}

impl<T> ClosureRegistry<T> {
    /// An empty table: no reference resolves.
    pub fn new() -> (r: ClosureRegistry<T>)
        ensures
            r.entries@.len() == 0,
    {
        ClosureRegistry { entries: Vec::new() }
    }

    /// Whether `r` currently resolves to a registered closure.
    pub open spec fn resolves(&self, r: int) -> bool {
        0 <= r < self.entries@.len() && self.entries@[r] is Some
    }

    /// Stores a repeatable closure and hands out the integer reference
    /// interpreter code will use to invoke it.
    pub fn register(&mut self, payload: T) -> (r: i32)
        requires
            old(self).entries@.len() < 0x7fff_ffff,
        ensures
            r == old(self).entries@.len(),
            final(self).entries@ == old(self).entries@.push(
                Some(RegistryEntry { payload, one_shot: false }),
            ),
            final(self).resolves(r as int),
    {
        let r = self.entries.len();
        self.entries.push(Some(RegistryEntry { payload, one_shot: false }));
        r as i32
    }

    /// Stores a one-shot closure: the reference is valid for exactly
    /// one invocation, after which the entry is removed regardless of
    /// the invocation's outcome.
    pub fn register_one_shot(&mut self, payload: T) -> (r: i32)
        requires
            old(self).entries@.len() < 0x7fff_ffff,
        ensures
            r == old(self).entries@.len(),
            final(self).entries@ == old(self).entries@.push(
                Some(RegistryEntry { payload, one_shot: true }),
            ),
            final(self).resolves(r as int),
    {
        let r = self.entries.len();
        self.entries.push(Some(RegistryEntry { payload, one_shot: true }));
        r as i32
    }

    /// Removes the entry behind `r`, handing its payload back, or
    /// `None` if the reference no longer resolves. Removing a stale
    /// reference is harmless, as it is in the interpreter's own table.
    pub fn unregister(&mut self, r: i32) -> (removed: Option<T>)
        ensures
            old(self).resolves(r as int) ==> (removed matches Some(p) && old(
                self,
            ).entries@[r as int] matches Some(e) && e.payload == p && final(self).entries@ == old(
                self,
            ).entries@.update(r as int, None)),
            !old(self).resolves(r as int) ==> removed is None && final(self).entries@ == old(
                self,
            ).entries@,
    {
        if r < 0 {
            return None;
        }
        let idx = r as usize;
        if idx >= self.entries.len() {
            return None;
        }
        let taken = self.entries.remove(idx);
        self.entries.insert(idx, None);
        proof {
            assert(self.entries@ =~= old(self).entries@.update(r as int, None));
        }
        match taken {
            Some(entry) => Some(entry.payload),
            None => {
                proof {
                    assert(self.entries@ =~= old(self).entries@);
                }
                None
            },
        }
    }

    /// Whether `r` currently resolves, as interpreter code would see
    /// it.
    pub fn resolve(&self, r: i32) -> (res: bool)
        ensures
            res == self.resolves(r as int),
    {
        if r < 0 {
            return false;
        }
        let idx = r as usize;
        if idx >= self.entries.len() {
            return false;
        }
        match &self.entries[idx] {
            Some(_) => true,
            None => false,
        }
    }

    /// Takes `r` for invocation, as a foreign call site does. A stale
    /// reference fails loudly with [`Invocation::Stale`] and touches
    /// nothing. A one-shot entry is removed here — before its single
    /// call runs, so the cleanup happens even if the call then errors
    /// — and its payload is handed out. A repeatable entry stays put.
    pub fn invoke(&mut self, r: i32) -> (outcome: Invocation<T>)
        ensures
            final(self).entries@ == invoke_spec(old(self).entries@, r as int),
            !old(self).resolves(r as int) ==> outcome is Stale,
            old(self).resolves(r as int) ==> (old(self).entries@[r as int] matches Some(e)
                && outcome == if e.one_shot {
                    Invocation::OneShot(e.payload)
                } else {
                    Invocation::<T>::Repeatable
                }),
    {
        if r < 0 {
            return Invocation::Stale;
        }
        let idx = r as usize;
        if idx >= self.entries.len() {
            return Invocation::Stale;
        }
        let is_one_shot = match &self.entries[idx] {
            Some(entry) => entry.one_shot,
            None => {
                return Invocation::Stale;
            },
        };
        if is_one_shot {
            let taken = self.entries.remove(idx);
            self.entries.insert(idx, None);
            proof {
                assert(self.entries@ =~= old(self).entries@.update(r as int, None));
            }
            match taken {
                Some(entry) => Invocation::OneShot(entry.payload),
                None => Invocation::Stale,
            }
        } else {
            Invocation::Repeatable
        }
    }

    /// Reads the payload behind a repeatable reference for the call.
    pub fn payload(&self, r: i32) -> (res: Option<&T>)
        ensures
            self.resolves(r as int) ==> (res matches Some(p) && self.entries@[r as int] matches Some(
                e,
            ) && e.payload == *p),
            !self.resolves(r as int) ==> res is None,
    {
        if r < 0 {
            return None;
        }
        let idx = r as usize;
        if idx >= self.entries.len() {
            return None;
        }
        match &self.entries[idx] {
            Some(entry) => Some(&entry.payload),
            None => None,
        }
    }

    /// Hands a closure to the host's "run this soon on the main loop"
    /// entry point: the closure is stored one-shot and the returned
    /// reference is what the host's scheduler is called with. When the
    /// loop later takes the reference through [`Self::invoke`], the
    /// entry is removed with that single take.
    pub fn schedule(&mut self, payload: T) -> (r: i32)
        requires
            old(self).entries@.len() < 0x7fff_ffff,
        ensures
            r == old(self).entries@.len(),
            final(self).entries@ == old(self).entries@.push(
                Some(RegistryEntry { payload, one_shot: true }),
            ),
            final(self).resolves(r as int),
    {
        self.register_one_shot(payload)
    }
}

/// One-shot registry cleanup: once a one-shot reference has been taken
/// for its single invocation, the reference no longer resolves, and a
/// second take finds nothing and changes nothing — regardless of what
/// the first invocation itself did.
pub proof fn lemma_one_shot_cleanup<T>(entries: Seq<Option<RegistryEntry<T>>>, r: int)
    requires
        0 <= r < entries.len(),
        entries[r] matches Some(e) && e.one_shot,
    ensures
        invoke_spec(entries, r)[r] is None,
        invoke_spec(invoke_spec(entries, r), r) == invoke_spec(entries, r),
{
}

} // verus!
