//! The mouse facade: a typed view of the `aquabsd.alps.mouse` device.
//!
//! Vocabulary: create an instance, update its state snapshot, poll a button
//! (boolean-valued answer) and poll an axis (an answer whose low 32 bits
//! are a float bit pattern, handed on as bits).

use crate::kernel::Kernel;
use crate::proto::{c_string_bytes, name_ok, CMD_MOUSE_CREATE, CMD_MOUSE_POLL_AXIS,
    CMD_MOUSE_POLL_BUTTON, CMD_MOUSE_UPDATE, KOS_CTX, KOS_ERR, NO_DEVICE};
use crate::registry::Registry;
use crate::Device;
use crate::KosError;
use vstd::prelude::*;

verus! {

/// A pollable mouse button.
#[derive(Clone, Copy, Debug, PartialEq, Eq, Structural)]
pub enum MouseButton {
    Left,
    Right,
    Middle,
}

impl MouseButton {
    /// The protocol word for this button.
    pub open spec fn to_word(self) -> u64 {
        match self {
            MouseButton::Left => 0,
            MouseButton::Right => 1,
            MouseButton::Middle => 2,
        }
    }

    /// The protocol word for this button, executable.
    pub fn to_c(&self) -> (r: u64)
        ensures
            r == self.to_word(),
    {
        match self {
            MouseButton::Left => 0,
            MouseButton::Right => 1,
            MouseButton::Middle => 2,
        }
    }
}

/// A pollable mouse axis.
#[derive(Clone, Copy, Debug, PartialEq, Eq, Structural)]
pub enum MouseAxis {
    X,
    Y,
    Z,
}

impl MouseAxis {
    /// The protocol word for this axis.
    pub open spec fn to_word(self) -> u64 {
        match self {
            MouseAxis::X => 0,
            MouseAxis::Y => 1,
            MouseAxis::Z => 2,
        }
    }

    /// The protocol word for this axis, executable.
    pub fn to_c(&self) -> (r: u64)
        ensures
            r == self.to_word(),
    {
        match self {
            MouseAxis::X => 0,
            MouseAxis::Y => 1,
            MouseAxis::Z => 2,
        }
    }
}

/// The device name the resolver hands to the kernel for mice.
pub open spec fn mouse_device_name() -> Seq<char> {
    "aquabsd.alps.mouse"@
}

/// The mouse device's name is nonzero ASCII throughout: it always crosses
/// the boundary cleanly as a C string.
pub proof fn lemma_mouse_name_ok()
    ensures
        name_ok(mouse_device_name()),
{
    reveal_strlit("aquabsd.alps.mouse");
    assert(vstd::utf8::is_ascii_chars(mouse_device_name()));
    assert(forall|i: int|
        0 <= i < mouse_device_name().len() ==> mouse_device_name()[i] != '\0');
    crate::proto::lemma_ascii_name_ok(mouse_device_name());
}

/// A mouse instance: the mouse device's handle and the instance's own
/// handle, both kernel-issued.
pub struct Mouse {
    pub dev: Device,
    pub mouse: u64,
}

impl Mouse {
    /// Resolves the mouse device and creates one mouse instance on it.
    pub fn default<K: Kernel>(reg: &mut Registry<K>) -> (r: Result<Mouse, KosError>)
        ensures
            ({
                let m0 = old(reg).model();
                let dev = K::query_m(m0, KOS_CTX, c_string_bytes(mouse_device_name()));
                let v = K::send_r(m0, KOS_CTX, dev, CMD_MOUSE_CREATE, Seq::<u64>::empty());
                match r {
                    Ok(m) => {
                        &&& old(reg).installed()
                        &&& name_ok(mouse_device_name())
                        &&& dev != NO_DEVICE
                        &&& v != KOS_ERR
                        &&& m == (Mouse { dev, mouse: v })
                        &&& final(reg).installed()
                        &&& final(reg).model() == K::send_m(
                            m0,
                            KOS_CTX,
                            dev,
                            CMD_MOUSE_CREATE,
                            Seq::<u64>::empty(),
                        )
                    },
                    Err(KosError::Uninitialized) => !old(reg).installed() && *final(reg) == *old(reg),
                    Err(KosError::BadName) => old(reg).installed() && !name_ok(
                        mouse_device_name(),
                    ) && *final(reg) == *old(reg),
                    Err(KosError::NoSuchDevice) => old(reg).installed() && name_ok(
                        mouse_device_name(),
                    ) && dev == NO_DEVICE && *final(reg) == *old(reg),
                    Err(KosError::Rejected) => old(reg).installed() && name_ok(
                        mouse_device_name(),
                    ) && dev != NO_DEVICE && v == KOS_ERR && final(reg).installed() && final(reg).model() == K::send_m(
                        m0,
                        KOS_CTX,
                        dev,
                        CMD_MOUSE_CREATE,
                        Seq::<u64>::empty(),
                    ),
                    Err(_) => false,
                }
            }),
    {
        let dev = match reg.resolve("aquabsd.alps.mouse") {
            Ok(d) => d,
            Err(e) => {
                return Err(e);
            },
        };
        let payload: Vec<u64> = Vec::new();
        let v = match reg.raw_send_device(dev, CMD_MOUSE_CREATE as u16, &payload) {
            Ok(v) => v,
            Err(_) => vstd::pervasive::unreached(),
        };
        if v == KOS_ERR {
            return Err(KosError::Rejected);
        }
        Ok(Mouse { dev, mouse: v })
    }

    /// Asks the kernel to refresh this instance's state snapshot.
    pub fn update<K: Kernel>(&mut self, reg: &mut Registry<K>) -> (r: Result<(), KosError>)
        ensures
            *final(self) == *old(self),
            ({
                let m0 = old(reg).model();
                let payload = seq![old(self).mouse];
                let v = K::send_r(m0, KOS_CTX, old(self).dev, CMD_MOUSE_UPDATE, payload);
                match r {
                    Ok(()) => {
                        &&& old(reg).installed()
                        &&& v != KOS_ERR
                        &&& final(reg).installed()
                        &&& final(reg).model() == K::send_m(
                            m0,
                            KOS_CTX,
                            old(self).dev,
                            CMD_MOUSE_UPDATE,
                            payload,
                        )
                    },
                    Err(KosError::Uninitialized) => !old(reg).installed() && *final(reg) == *old(reg),
                    Err(KosError::Rejected) => old(reg).installed() && v == KOS_ERR && final(reg).installed() && final(reg).model() == K::send_m(
                        m0,
                        KOS_CTX,
                        old(self).dev,
                        CMD_MOUSE_UPDATE,
                        payload,
                    ),
                    Err(_) => false,
                }
            }),
    {
        let mut payload: Vec<u64> = Vec::new();
        payload.push(self.mouse);
        proof {
            assert(payload@ =~= seq![self.mouse]);
        }
        let v = match reg.raw_send_device(self.dev, CMD_MOUSE_UPDATE as u16, &payload) {
            Ok(v) => v,
            Err(e) => {
                return Err(e);
            },
        };
        if v == KOS_ERR {
            return Err(KosError::Rejected);
        }
        Ok(())
    }

    /// Polls one button: a boolean-valued command, nonzero meaning pressed.
    pub fn poll_button<K: Kernel>(&mut self, reg: &mut Registry<K>, button: MouseButton) -> (r:
        Result<bool, KosError>)
        ensures
            *final(self) == *old(self),
            ({
                let m0 = old(reg).model();
                let payload = seq![old(self).mouse, button.to_word()];
                let v = K::send_r(m0, KOS_CTX, old(self).dev, CMD_MOUSE_POLL_BUTTON, payload);
                match r {
                    Ok(b) => {
                        &&& old(reg).installed()
                        &&& v != KOS_ERR
                        &&& b == (v != 0)
                        &&& final(reg).installed()
                        &&& final(reg).model() == K::send_m(
                            m0,
                            KOS_CTX,
                            old(self).dev,
                            CMD_MOUSE_POLL_BUTTON,
                            payload,
                        )
                    },
                    Err(KosError::Uninitialized) => !old(reg).installed() && *final(reg) == *old(reg),
                    Err(KosError::Rejected) => old(reg).installed() && v == KOS_ERR && final(reg).installed() && final(reg).model() == K::send_m(
                        m0,
                        KOS_CTX,
                        old(self).dev,
                        CMD_MOUSE_POLL_BUTTON,
                        payload,
                    ),
                    Err(_) => false,
                }
            }),
    {
        let mut payload: Vec<u64> = Vec::new();
        payload.push(self.mouse);
        payload.push(button.to_c());
        proof {
            assert(payload@ =~= seq![self.mouse, button.to_word()]);
        }
        let v = match reg.raw_send_device(self.dev, CMD_MOUSE_POLL_BUTTON as u16, &payload) {
            Ok(v) => v,
            Err(e) => {
                return Err(e);
            },
        };
        if v == KOS_ERR {
            return Err(KosError::Rejected);
        }
        Ok(v != 0)
    }

    /// Polls one axis: the kernel answers a 32-bit float bit pattern in a
    /// 64-bit word; the low 32 bits are handed on as bits, for the host to
    /// reinterpret.
    pub fn poll_axis<K: Kernel>(&mut self, reg: &mut Registry<K>, axis: MouseAxis) -> (r: Result<
        u32,
        KosError,
    >)
        ensures
            *final(self) == *old(self),
            ({
                let m0 = old(reg).model();
                let payload = seq![old(self).mouse, axis.to_word()];
                let v = K::send_r(m0, KOS_CTX, old(self).dev, CMD_MOUSE_POLL_AXIS, payload);
                match r {
                    Ok(bits) => {
                        &&& old(reg).installed()
                        &&& v != KOS_ERR
                        &&& bits == v as u32
                        &&& final(reg).installed()
                        &&& final(reg).model() == K::send_m(
                            m0,
                            KOS_CTX,
                            old(self).dev,
                            CMD_MOUSE_POLL_AXIS,
                            payload,
                        )
                    },
                    Err(KosError::Uninitialized) => !old(reg).installed() && *final(reg) == *old(reg),
                    Err(KosError::Rejected) => old(reg).installed() && v == KOS_ERR && final(reg).installed() && final(reg).model() == K::send_m(
                        m0,
                        KOS_CTX,
                        old(self).dev,
                        CMD_MOUSE_POLL_AXIS,
                        payload,
                    ),
                    Err(_) => false,
                }
            }),
    {
        let mut payload: Vec<u64> = Vec::new();
        payload.push(self.mouse);
        payload.push(axis.to_c());
        proof {
            assert(payload@ =~= seq![self.mouse, axis.to_word()]);
        }
        let v = match reg.raw_send_device(self.dev, CMD_MOUSE_POLL_AXIS as u16, &payload) {
            Ok(v) => v,
            Err(e) => {
                return Err(e);
            },
        };
        if v == KOS_ERR {
            return Err(KosError::Rejected);
        }
        Ok(#[verifier::truncate] (v as u32))
    }
}

} // verus!
