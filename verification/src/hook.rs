//! Draw hooks and the callback table.
//!
//! The kernel can only store a (function word, data word) pair, so a native
//! hook value must be erased behind a stable, kernel-visible word and
//! recovered when the kernel calls back. Instead of reinterpreting a raw
//! address, the hook is pinned in an owned table slot and the data word is
//! the slot's key: the trampoline looks the key up and re-enters the same
//! hook value, so a dangling registration is impossible by construction.

use crate::proto::DRAW_TRAMPOLINE_ID;
use vstd::prelude::*;

verus! {

/// A draw hook: the native callback a window registers for its run loop.
/// Its behaviour is a state machine: one invocation moves the state by
/// `step` and answers `out`.
pub trait DrawHook: Sized {
    /// The hook's state after one invocation.
    spec fn step(self) -> Self;

    /// The word one invocation answers from this state.
    spec fn out(self) -> u64;

    /// One invocation, re-entered from the kernel's run loop.
    fn call(&mut self) -> (r: u64)
        ensures
            *final(self) == old(self).step(),
            r == old(self).out(),
    ;
}

/// The hook state after `n` invocations.
pub open spec fn hook_iter<F: DrawHook>(f: F, n: nat) -> F
    decreases n,
{
    if n == 0 {
        f
    } else {
        hook_iter(f, (n - 1) as nat).step()
    }
}

/// A run of invocations re-enters the same hook value once per invocation:
/// the state after `n + 1` invocations is one `step` past the state after
/// the first invocation, iterated `n` more times. Statefulness threads
/// through every re-entry.
pub proof fn lemma_hook_iter_shift<F: DrawHook>(f: F, n: nat)
    ensures
        hook_iter(f, n + 1) == hook_iter(f.step(), n),
    decreases n,
{
    if n > 0 {
        lemma_hook_iter_shift(f, (n - 1) as nat);
        assert(hook_iter(f, n + 1) == hook_iter(f, n).step());
        assert(hook_iter(f.step(), n) == hook_iter(f.step(), (n - 1) as nat).step());
    } else {
        assert(hook_iter(f, 1) == hook_iter(f, 0).step());
    }
}

/// A library-provided draw hook that counts its invocations (wrapping at
/// the 64-bit bound) and answers the running count.
#[derive(Clone, Copy, Debug, PartialEq, Eq, Structural)]
pub struct CounterHook {
    pub count: u64,
}

impl DrawHook for CounterHook {
    open spec fn step(self) -> Self {
        CounterHook { count: if self.count == u64::MAX { 0 } else { (self.count + 1) as u64 } }
    }

    open spec fn out(self) -> u64 {
        if self.count == u64::MAX {
            0
        } else {
            (self.count + 1) as u64
        }
    }

    fn call(&mut self) -> (r: u64) {
        if self.count == u64::MAX {
            self.count = 0;
        } else {
            self.count = self.count + 1;
        }
        self.count
    }
}

/// Owned hook table: the safe trampoline registry. A registered hook is
/// pinned in a slot for the whole registration lifetime; the kernel-visible
/// opaque data word is the slot's key, never an address.
pub struct CallbackTable<F> {
    slots: Vec<Option<F>>,
}

impl<F: DrawHook> CallbackTable<F> {
    /// The table's slots, as a sequence of optional hooks.
    pub closed spec fn entries(self) -> Seq<Option<F>> {
        self.slots@
    }

    /// Whether `key` names a live registration.
    pub open spec fn live(self, key: u64) -> bool {
        key < self.entries().len() && self.entries()[key as int] is Some
    }

    /// The hook that `key` names.
    pub open spec fn hook_at(self, key: u64) -> F
        recommends
            self.live(key),
    {
        self.entries()[key as int]->Some_0
    }

    /// An empty table.
    pub fn new() -> (t: Self)
        ensures
            t.entries() == Seq::<Option<F>>::empty(),
    {
        CallbackTable { slots: Vec::new() }
    }

    /// Pins `hook` into a fresh slot and answers its key, the opaque data
    /// word handed to the kernel at registration.
    pub fn register(&mut self, hook: F) -> (key: u64)
        requires
            old(self).entries().len() < 0xFFFF_FFFF,
        ensures
            final(self).entries() == old(self).entries().push(Some(hook)),
            key == old(self).entries().len(),
            final(self).live(key),
            final(self).hook_at(key) == hook,
    {
        let key = self.slots.len() as u64;
        self.slots.push(Some(hook));
        key
    }

    /// Unpins and answers the hook that `key` names, once the kernel can no
    /// longer invoke the registration.
    pub fn take(&mut self, key: u64) -> (h: F)
        requires
            old(self).live(key),
        ensures
            final(self).entries() == old(self).entries().update(key as int, None),
            h == old(self).hook_at(key),
    {
        let n = self.slots.len();
        proof {
            assert(key < n as u64);
        }
        let i = key as usize;
        let slot = self.slots.remove(i);
        self.slots.insert(i, None);
        proof {
            assert(self.slots@ =~= old(self).slots@.update(key as int, None));
        }
        match slot {
            Some(h) => h,
            None => vstd::pervasive::unreached(),
        }
    }

    /// Re-pins a hook into the empty slot that `key` names.
    fn put(&mut self, key: u64, h: F)
        requires
            key < old(self).entries().len(),
            old(self).entries()[key as int] is None,
        ensures
            final(self).entries() == old(self).entries().update(key as int, Some(h)),
    {
        let n = self.slots.len();
        proof {
            assert(key < n as u64);
        }
        let i = key as usize;
        self.slots[i] = Some(h);
    }
}

/// The draw trampoline: the fixed-signature entry the kernel's run loop
/// calls with a window handle and the opaque data word it stored. It
/// recovers the hook that the word names and re-enters it exactly once. A
/// word that names no live registration is a protocol violation, left out
/// by precondition.
pub fn draw_trampoline<F: DrawHook>(table: &mut CallbackTable<F>, _win: u64, data: u64) -> (r:
    u64)
    requires
        old(table).live(data),
    ensures
        final(table).entries() == old(table).entries().update(
            data as int,
            Some(old(table).hook_at(data).step()),
        ),
        r == old(table).hook_at(data).out(),
{
    let mut h = table.take(data);
    let r = h.call();
    table.put(data, h);
    proof {
        assert(table.entries() =~= old(table).entries().update(
            data as int,
            Some(old(table).hook_at(data).step()),
        ));
    }
    r
}

/// The kernel-visible function word naming the draw trampoline for a hook
/// type: one trampoline per type, identified by one fixed word.
pub fn get_draw_trampoline<F: DrawHook>(_hook: &F) -> (r: u64)
    ensures
        r == DRAW_TRAMPOLINE_ID,
{
    DRAW_TRAMPOLINE_ID
}

} // verus!
