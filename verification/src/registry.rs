//! The function-pointer registry, as a write-once capability slot.
//!
//! The host installs the kernel services exactly once, before any device
//! operation; every later operation reads the slot. An operation attempted
//! before installation fails fast with a distinguished error instead of
//! proceeding with no services. Single-threaded startup is a documented
//! precondition of the protocol; the slot is read-only after installation.

use crate::kernel::{Kernel, LoopEvent};
use crate::proto::{arity_of, arity_ok, c_string_bytes, encode_c_string, name_ok, KOS_CTX,
    NO_DEVICE};
use crate::Device;
use crate::KosError;
use vstd::prelude::*;

verus! {

/// Process-wide slot for the injected kernel services: empty until the
/// one-time handshake, then holding the kernel capability.
pub struct Registry<K> {
    slot: Option<K>,
}

impl<K: Kernel> Registry<K> {
    /// Whether the kernel services have been installed.
    pub closed spec fn installed(self) -> bool {
        self.slot is Some
    }

    /// The installed kernel value.
    pub closed spec fn kernel(self) -> K
        recommends
            self.installed(),
    {
        self.slot->Some_0
    }

    /// The installed kernel's model.
    pub open spec fn model(self) -> K::V
        recommends
            self.installed(),
    {
        self.kernel()@
    }

    /// An empty registry: no operation may be dispatched yet.
    pub fn new() -> (r: Registry<K>)
        ensures
            !r.installed(),
    {
        Registry { slot: None }
    }

    /// The one-time handshake: installs the kernel services. The host calls
    /// this exactly once, before any device operation; the slot is
    /// write-once.
    pub fn install(&mut self, k: K)
        requires
            !old(self).installed(),
        ensures
            final(self).installed(),
            final(self).kernel() == k,
    {
        self.slot = Some(k);
    }

    /// Whether the handshake has happened.
    pub fn is_installed(&self) -> (r: bool)
        ensures
            r == self.installed(),
    {
        match &self.slot {
            Some(_) => true,
            None => false,
        }
    }

    /// Query a device ID by name: encodes the name as a null-terminated
    /// byte sequence and invokes the query service under the reserved
    /// context word. Answers the raw kernel word, sentinel included.
    pub fn query_device(&self, name: &str) -> (r: Result<Device, KosError>)
        ensures
            match r {
                Ok(h) => self.installed() && name_ok(name@) && h == K::query_m(
                    self.model(),
                    KOS_CTX,
                    c_string_bytes(name@),
                ),
                Err(KosError::Uninitialized) => !self.installed(),
                Err(KosError::BadName) => self.installed() && !name_ok(name@),
                Err(_) => false,
            },
    {
        match &self.slot {
            None => Err(KosError::Uninitialized),
            Some(k) => match encode_c_string(name) {
                Err(e) => Err(e),
                Ok(bytes) => Ok(k.query(KOS_CTX, &bytes)),
            },
        }
    }

    /// Resolve a device by name: a query whose sentinel answer is surfaced
    /// as a typed failure. A resolved handle is never the sentinel.
    pub fn resolve(&self, name: &str) -> (r: Result<Device, KosError>)
        ensures
            match r {
                Ok(h) => self.installed() && name_ok(name@) && h == K::query_m(
                    self.model(),
                    KOS_CTX,
                    c_string_bytes(name@),
                ) && h != NO_DEVICE,
                Err(KosError::Uninitialized) => !self.installed(),
                Err(KosError::BadName) => self.installed() && !name_ok(name@),
                Err(KosError::NoSuchDevice) => self.installed() && name_ok(name@)
                    && K::query_m(self.model(), KOS_CTX, c_string_bytes(name@)) == NO_DEVICE,
                Err(_) => false,
            },
    {
        match self.query_device(name) {
            Err(e) => Err(e),
            Ok(h) => if h == NO_DEVICE {
                Err(KosError::NoSuchDevice)
            } else {
                Ok(h)
            },
        }
    }

    /// Send a command to a device: pure marshaling. The payload crosses the
    /// boundary unjudged; the answer is the raw kernel word, which the
    /// caller reinterprets according to the command's documented result
    /// type.
    pub fn raw_send_device(&mut self, device: Device, cmd: u16, data: &Vec<u64>) -> (r: Result<
        u64,
        KosError,
    >)
        ensures
            match r {
                Ok(v) => old(self).installed() && final(self).installed() && v == K::send_r(
                    old(self).model(),
                    KOS_CTX,
                    device,
                    cmd as u64,
                    data@,
                ) && final(self).model() == K::send_m(
                    old(self).model(),
                    KOS_CTX,
                    device,
                    cmd as u64,
                    data@,
                ),
                Err(KosError::Uninitialized) => !old(self).installed() && *final(self) == *old(self),
                Err(_) => false,
            },
    {
        match &mut self.slot {
            None => Err(KosError::Uninitialized),
            Some(k) => Ok(k.send(KOS_CTX, device, cmd as u64, data)),
        }
    }

    /// Checked dispatch: refuses a payload whose length does not match the
    /// vocabulary's fixed arity for the command, then marshals as
    /// `raw_send_device` does.
    pub fn send_device(&mut self, device: Device, cmd: u16, data: &Vec<u64>) -> (r: Result<
        u64,
        KosError,
    >)
        ensures
            match r {
                Ok(v) => arity_ok(cmd as u64, data@.len()) && old(self).installed() && final(self).installed() && v == K::send_r(
                    old(self).model(),
                    KOS_CTX,
                    device,
                    cmd as u64,
                    data@,
                ) && final(self).model() == K::send_m(
                    old(self).model(),
                    KOS_CTX,
                    device,
                    cmd as u64,
                    data@,
                ),
                Err(KosError::BadArity) => !arity_ok(cmd as u64, data@.len()) && *final(self)
                    == *old(self),
                Err(KosError::Uninitialized) => arity_ok(cmd as u64, data@.len()) && !old(self).installed() && *final(self) == *old(self),
                Err(_) => false,
            },
    {
        match arity_of(cmd as u64) {
            Some(n) => {
                if data.len() != n {
                    return Err(KosError::BadArity);
                }
            },
            None => {},
        }
        self.raw_send_device(device, cmd, data)
    }

    /// One iteration of a window's run loop, forwarded to the kernel.
    pub fn loop_step(&mut self, dev: Device, win: u64, last: u64) -> (r: Result<
        LoopEvent,
        KosError,
    >)
        ensures
            match r {
                Ok(e) => {
                    &&& old(self).installed()
                    &&& final(self).installed()
                    &&& K::frames_m(old(self).model(), dev, win) > 0 ==> {
                        &&& e == (LoopEvent::InvokeDraw {
                            win,
                            data: K::draw_data_m(old(self).model(), dev, win),
                        })
                        &&& K::frames_m(final(self).model(), dev, win) == K::frames_m(
                            old(self).model(),
                            dev,
                            win,
                        ) - 1
                        &&& K::draw_data_m(final(self).model(), dev, win) == K::draw_data_m(
                            old(self).model(),
                            dev,
                            win,
                        )
                    }
                    &&& K::frames_m(old(self).model(), dev, win) == 0 ==> {
                        &&& e == LoopEvent::Done
                        &&& final(self).model() == old(self).model()
                    }
                },
                Err(KosError::Uninitialized) => !old(self).installed() && *final(self) == *old(self),
                Err(_) => false,
            },
    {
        match &mut self.slot {
            None => Err(KosError::Uninitialized),
            Some(k) => Ok(k.loop_step(dev, win, last)),
        }
    }

    /// Mutable access to the installed kernel, for a host that must reach
    /// kernel-side state (a test double's input staging, say) between
    /// device operations.
    pub fn kernel_mut(&mut self) -> (r: &mut K)
        requires
            old(self).installed(),
        ensures
            *r == old(self).kernel(),
            final(self).installed(),
            final(self).kernel() == *final(r),
    {
        match &mut self.slot {
            Some(k) => k,
            None => vstd::pervasive::unreached(),
        }
    }
}

} // verus!
