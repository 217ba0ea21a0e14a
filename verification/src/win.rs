//! The window facade: a typed view of the `aquabsd.alps.win` device.
//!
//! Lifecycle: `new` creates the window instance; `caption` and `draw_loop`
//! operate on a created window; `delete` tears it down, after which the
//! handle must not be used. The draw loop registers a (trampoline word,
//! data word) pair with the kernel, then surrenders control: each loop step
//! re-enters the pinned hook exactly once, until the kernel ends the loop.

use crate::hook::{draw_trampoline, get_draw_trampoline, hook_iter, CallbackTable, DrawHook};
use crate::kernel::{Kernel, LoopEvent};
use crate::proto::{c_string_bytes, name_ok, CB_DRAW, CMD_WIN_CAPTION, CMD_WIN_CREATE,
    CMD_WIN_DELETE, CMD_WIN_LOOP, CMD_WIN_REGISTER_CB, DRAW_TRAMPOLINE_ID, KOS_CTX, KOS_ERR,
    NO_DEVICE};
use crate::registry::Registry;
use crate::Device;
use crate::KosError;
use vstd::prelude::*;

verus! {

/// The device name the resolver hands to the kernel for windows.
pub open spec fn win_device_name() -> Seq<char> {
    "aquabsd.alps.win"@
}

/// The window device's name is nonzero ASCII throughout: it always crosses
/// the boundary cleanly as a C string.
pub proof fn lemma_win_name_ok()
    ensures
        name_ok(win_device_name()),
{
    reveal_strlit("aquabsd.alps.win");
    assert(vstd::utf8::is_ascii_chars(win_device_name()));
    assert(forall|i: int| 0 <= i < win_device_name().len() ==> win_device_name()[i] != '\0');
    crate::proto::lemma_ascii_name_ok(win_device_name());
}

/// A window instance: the window device's handle, the instance's own
/// handle, and the captions handed to the kernel, pinned for the window's
/// lifetime (the caption payload word is an index into that table, never an
/// address).
pub struct Win {
    pub dev: Device,
    pub win: u64,
    pub captions: Vec<Vec<u8>>,
}

impl Win {
    /// Resolves the window device and creates a window instance with the
    /// given resolution.
    pub fn new<K: Kernel>(reg: &mut Registry<K>, x_res: u32, y_res: u32) -> (r: Result<
        Win,
        KosError,
    >)
        ensures
            ({
                let m0 = old(reg).model();
                let dev = K::query_m(m0, KOS_CTX, c_string_bytes(win_device_name()));
                let payload = seq![x_res as u64, y_res as u64];
                let v = K::send_r(m0, KOS_CTX, dev, CMD_WIN_CREATE, payload);
                let m1 = K::send_m(m0, KOS_CTX, dev, CMD_WIN_CREATE, payload);
                match r {
                    Ok(w) => {
                        &&& old(reg).installed()
                        &&& name_ok(win_device_name())
                        &&& dev != NO_DEVICE
                        &&& v != KOS_ERR
                        &&& w.dev == dev
                        &&& w.win == v
                        &&& w.captions@.len() == 0
                        &&& final(reg).installed()
                        &&& final(reg).model() == m1
                    },
                    Err(KosError::Uninitialized) => !old(reg).installed() && *final(reg) == *old(reg),
                    Err(KosError::BadName) => old(reg).installed() && !name_ok(win_device_name())
                        && *final(reg) == *old(reg),
                    Err(KosError::NoSuchDevice) => old(reg).installed() && name_ok(
                        win_device_name(),
                    ) && dev == NO_DEVICE && *final(reg) == *old(reg),
                    Err(KosError::Rejected) => old(reg).installed() && name_ok(win_device_name())
                        && dev != NO_DEVICE && v == KOS_ERR && final(reg).installed() && final(reg).model() == m1,
                    Err(_) => false,
                }
            }),
    {
        let dev = match reg.resolve("aquabsd.alps.win") {
            Ok(d) => d,
            Err(e) => {
                return Err(e);
            },
        };
        let mut payload: Vec<u64> = Vec::new();
        payload.push(x_res as u64);
        payload.push(y_res as u64);
        proof {
            assert(payload@ =~= seq![x_res as u64, y_res as u64]);
        }
        let v = match reg.raw_send_device(dev, CMD_WIN_CREATE as u16, &payload) {
            Ok(v) => v,
            Err(_) => vstd::pervasive::unreached(),
        };
        if v == KOS_ERR {
            return Err(KosError::Rejected);
        }
        Ok(Win { dev, win: v, captions: Vec::new() })
    }

    /// Sets the window's caption. The caption bytes are pinned in the
    /// window's own table for the kernel's benefit; the payload word names
    /// the pinned entry.
    pub fn caption<K: Kernel>(&mut self, reg: &mut Registry<K>, name: &str) -> (r: Result<
        (),
        KosError,
    >)
        ensures
            final(self).dev == old(self).dev,
            final(self).win == old(self).win,
            ({
                let m0 = old(reg).model();
                let key = old(self).captions@.len() as u64;
                let payload = seq![old(self).win, key];
                let v = K::send_r(m0, KOS_CTX, old(self).dev, CMD_WIN_CAPTION, payload);
                let m1 = K::send_m(m0, KOS_CTX, old(self).dev, CMD_WIN_CAPTION, payload);
                match r {
                    Ok(()) => {
                        &&& old(reg).installed()
                        &&& name_ok(name@)
                        &&& v != KOS_ERR
                        &&& final(self).captions.deep_view() == old(self).captions.deep_view()
                            .push(c_string_bytes(name@))
                        &&& final(reg).installed()
                        &&& final(reg).model() == m1
                    },
                    Err(KosError::Uninitialized) => !old(reg).installed() && *final(reg) == *old(reg) && *final(self) == *old(self),
                    Err(KosError::BadName) => old(reg).installed() && !name_ok(name@) && *final(reg) == *old(reg) && *final(self) == *old(self),
                    Err(KosError::Rejected) => old(reg).installed() && name_ok(name@) && v
                        == KOS_ERR && final(self).captions.deep_view() == old(self).captions.deep_view().push(c_string_bytes(name@)) && final(reg).installed()
                        && final(reg).model() == m1,
                    Err(_) => false,
                }
            }),
    {
        if !reg.is_installed() {
            return Err(KosError::Uninitialized);
        }
        let bytes = match crate::proto::encode_c_string(name) {
            Ok(b) => b,
            Err(e) => {
                return Err(e);
            },
        };
        let key = self.captions.len() as u64;
        let ghost caps0 = self.captions.deep_view();
        self.captions.push(bytes);
        proof {
            assert(self.captions.deep_view() =~~= caps0.push(c_string_bytes(name@)));
        }
        let mut payload: Vec<u64> = Vec::new();
        payload.push(self.win);
        payload.push(key);
        proof {
            assert(payload@ =~= seq![self.win, key]);
        }
        let v = match reg.raw_send_device(self.dev, CMD_WIN_CAPTION as u16, &payload) {
            Ok(v) => v,
            Err(_) => vstd::pervasive::unreached(),
        };
        if v == KOS_ERR {
            return Err(KosError::Rejected);
        }
        Ok(())
    }

    /// Registers `hook` as the window's draw callback and runs the kernel's
    /// loop to completion: the hook is pinned in a fresh table, the kernel
    /// stores the (trampoline word, key) pair, and every loop step
    /// re-enters the pinned hook exactly once. Answers the hook after the
    /// last invocation.
    pub fn draw_loop<K: Kernel, F: DrawHook>(&self, reg: &mut Registry<K>, hook: F) -> (r: Result<
        F,
        KosError,
    >)
        ensures
            ({
                let m0 = old(reg).model();
                let rp = seq![self.win, CB_DRAW, DRAW_TRAMPOLINE_ID, 0u64];
                let v1 = K::send_r(m0, KOS_CTX, self.dev, CMD_WIN_REGISTER_CB, rp);
                let m1 = K::send_m(m0, KOS_CTX, self.dev, CMD_WIN_REGISTER_CB, rp);
                let lp = seq![self.win];
                let v2 = K::send_r(m1, KOS_CTX, self.dev, CMD_WIN_LOOP, lp);
                let m2 = K::send_m(m1, KOS_CTX, self.dev, CMD_WIN_LOOP, lp);
                match r {
                    Ok(h) => {
                        &&& old(reg).installed()
                        &&& v1 != KOS_ERR
                        &&& v2 != KOS_ERR
                        &&& h == hook_iter(hook, K::frames_m(m2, self.dev, self.win))
                        &&& final(reg).installed()
                        &&& K::frames_m(final(reg).model(), self.dev, self.win) == 0
                    },
                    Err(KosError::Uninitialized) => !old(reg).installed() && *final(reg) == *old(reg),
                    Err(KosError::Rejected) => old(reg).installed() && final(reg).installed() && (
                    (v1 == KOS_ERR && final(reg).model() == m1) || (v1 != KOS_ERR && v2 == KOS_ERR
                        && final(reg).model() == m2)),
                    Err(_) => false,
                }
            }),
    {
        let ghost hook0 = hook;
        let fnp = get_draw_trampoline(&hook);
        let mut table = CallbackTable::new();
        let key = table.register(hook);
        let mut rp: Vec<u64> = Vec::new();
        rp.push(self.win);
        rp.push(CB_DRAW);
        rp.push(fnp);
        rp.push(key);
        proof {
            assert(rp@ =~= seq![self.win, CB_DRAW, DRAW_TRAMPOLINE_ID, 0u64]);
        }
        let v1 = match reg.raw_send_device(self.dev, CMD_WIN_REGISTER_CB as u16, &rp) {
            Ok(v) => v,
            Err(e) => {
                return Err(e);
            },
        };
        if v1 == KOS_ERR {
            return Err(KosError::Rejected);
        }
        proof {
            K::registration_stores_data(old(reg).model(), KOS_CTX, self.dev, rp@);
        }
        let ghost m1 = reg.model();
        let mut lp: Vec<u64> = Vec::new();
        lp.push(self.win);
        proof {
            assert(lp@ =~= seq![self.win]);
        }
        let v2 = match reg.raw_send_device(self.dev, CMD_WIN_LOOP as u16, &lp) {
            Ok(v) => v,
            Err(_) => vstd::pervasive::unreached(),
        };
        if v2 == KOS_ERR {
            return Err(KosError::Rejected);
        }
        proof {
            K::loop_start_keeps_data(m1, KOS_CTX, self.dev, lp@);
        }
        let ghost n = K::frames_m(reg.model(), self.dev, self.win);
        let mut last: u64 = 0;
        loop
            invariant
                reg.installed(),
                K::draw_data_m(reg.model(), self.dev, self.win) == key,
                K::frames_m(reg.model(), self.dev, self.win) <= n,
                table.live(key),
                table.hook_at(key) == hook_iter(
                    hook0,
                    (n - K::frames_m(reg.model(), self.dev, self.win)) as nat,
                ),
            ensures
                reg.installed(),
                K::frames_m(reg.model(), self.dev, self.win) == 0,
                table.live(key),
                table.hook_at(key) == hook_iter(hook0, n),
            decreases K::frames_m(reg.model(), self.dev, self.win),
        {
            let e = match reg.loop_step(self.dev, self.win, last) {
                Ok(e) => e,
                Err(_) => vstd::pervasive::unreached(),
            };
            match e {
                LoopEvent::InvokeDraw { win: w, data } => {
                    last = draw_trampoline(&mut table, w, data);
                },
                LoopEvent::Done => {
                    break ;
                },
            }
        }
        let h = table.take(key);
        Ok(h)
    }

    /// Tears the window down: issues the delete command. The handle must
    /// not be used after this; a later command with it is a protocol
    /// violation that a kernel may reject.
    pub fn delete<K: Kernel>(self, reg: &mut Registry<K>) -> (r: Result<(), KosError>)
        ensures
            ({
                let m0 = old(reg).model();
                let payload = seq![self.win];
                let v = K::send_r(m0, KOS_CTX, self.dev, CMD_WIN_DELETE, payload);
                let m1 = K::send_m(m0, KOS_CTX, self.dev, CMD_WIN_DELETE, payload);
                match r {
                    Ok(()) => old(reg).installed() && v != KOS_ERR && final(reg).installed()
                        && final(reg).model() == m1,
                    Err(KosError::Uninitialized) => !old(reg).installed() && *final(reg) == *old(reg),
                    Err(KosError::Rejected) => old(reg).installed() && v == KOS_ERR && final(reg).installed() && final(reg).model() == m1,
                    Err(_) => false,
                }
            }),
    {
        let mut payload: Vec<u64> = Vec::new();
        payload.push(self.win);
        proof {
            assert(payload@ =~= seq![self.win]);
        }
        let v = match reg.raw_send_device(self.dev, CMD_WIN_DELETE as u16, &payload) {
            Ok(v) => v,
            Err(e) => {
                return Err(e);
            },
        };
        if v == KOS_ERR {
            return Err(KosError::Rejected);
        }
        Ok(())
    }
}

} // verus!
