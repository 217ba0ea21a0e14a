//! A simulated kernel: a verified implementation of the kernel services
//! over plain state.
//!
//! It implements the device-command vocabulary on in-memory window and
//! mouse tables, rejecting unknown handles, deleted instances, commands
//! outside a device's vocabulary and payloads of the wrong arity with the
//! rejection sentinel. Mouse input is staged from the kernel side and
//! becomes visible to polls after an update command, and a window's run
//! loop drives a configured number of draw invocations.

use crate::kernel::{Kernel, LoopEvent};
use crate::mouse::mouse_device_name;
use crate::proto::{c_string_bytes, cmd_arity, encode_c_string, CB_DRAW, CMD_MOUSE_CREATE,
    CMD_MOUSE_POLL_AXIS, CMD_MOUSE_POLL_BUTTON, CMD_MOUSE_UPDATE, CMD_WIN_CAPTION,
    CMD_WIN_CREATE, CMD_WIN_DELETE, CMD_WIN_LOOP, CMD_WIN_REGISTER_CB, KOS_CTX, KOS_ERR,
    NO_DEVICE};
use crate::win::win_device_name;
use vstd::prelude::*;

verus! {

/// The simulated kernel's handle for the window device.
pub const DEV_WIN: u64 = 1;

/// The simulated kernel's handle for the mouse device.
pub const DEV_MOUSE: u64 = 2;

/// Instance cap of the simulated tables; creation past it is rejected.
pub const SIM_CAP: usize = 0xFFFF_FFFF;

/// One snapshot of mouse state: three buttons and three axes, the axes as
/// 32-bit float bit patterns.
#[derive(Clone, Copy, Debug, PartialEq, Eq, Structural)]
pub struct MouseSnap {
    pub left: bool,
    pub right: bool,
    pub middle: bool,
    pub x: u32,
    pub y: u32,
    pub z: u32,
}

/// The all-zero mouse snapshot.
pub open spec fn snap_zero() -> MouseSnap {
    MouseSnap { left: false, right: false, middle: false, x: 0, y: 0, z: 0 }
}

/// A mouse instance: the snapshot polls read, and the staged input that the
/// next update command makes current.
#[derive(Clone, Copy, Debug, PartialEq, Eq, Structural)]
pub struct SimMouse {
    pub alive: bool,
    pub cur: MouseSnap,
    pub staged: MouseSnap,
}

/// A registered draw callback pair: the trampoline word and the opaque
/// data word.
#[derive(Clone, Copy, Debug, PartialEq, Eq, Structural)]
pub struct HookPair {
    pub fn_word: u64,
    pub data: u64,
}

/// A window instance: resolution, the caption word last stored, and the
/// registered draw callback pair (trampoline word, data word).
#[derive(Clone, Copy, Debug, PartialEq, Eq, Structural)]
pub struct SimWin {
    pub alive: bool,
    pub x_res: u64,
    pub y_res: u64,
    pub caption: Option<u64>,
    pub hook: Option<HookPair>,
}

/// The simulated kernel's state, as a mathematical model: instance `i + 1`
/// is the handle of the table entry at `i`.
#[verifier::ext_equal]
pub struct SimModel {
    pub windows: Seq<SimWin>,
    pub mice: Seq<SimMouse>,
    pub frames_per_loop: u64,
    pub frames_left: u64,
}

impl SimModel {
    /// Whether `w` is a window handle this kernel ever issued.
    pub open spec fn win_ok(self, w: u64) -> bool {
        1 <= w && w <= self.windows.len()
    }

    /// The window instance behind handle `w`.
    pub open spec fn win_at(self, w: u64) -> SimWin {
        self.windows[w as int - 1]
    }

    /// Whether `w` names a window that is still alive.
    pub open spec fn win_live(self, w: u64) -> bool {
        self.win_ok(w) && self.win_at(w).alive
    }

    /// Whether `m` is a mouse handle this kernel ever issued.
    pub open spec fn mouse_ok(self, m: u64) -> bool {
        1 <= m && m <= self.mice.len()
    }

    /// The mouse instance behind handle `m`.
    pub open spec fn mouse_at(self, m: u64) -> SimMouse {
        self.mice[m as int - 1]
    }

    /// Whether `m` names a mouse that is still alive.
    pub open spec fn mouse_live(self, m: u64) -> bool {
        self.mouse_ok(m) && self.mouse_at(m).alive
    }

    /// What a device query answers: the two known names, or the sentinel.
    pub open spec fn q(self, ctx: u64, name: Seq<u8>) -> u64 {
        if ctx != KOS_CTX {
            NO_DEVICE
        } else if name == c_string_bytes(win_device_name()) {
            DEV_WIN
        } else if name == c_string_bytes(mouse_device_name()) {
            DEV_MOUSE
        } else {
            NO_DEVICE
        }
    }

    /// One command against the window device: the answered word and the
    /// state left behind.
    pub open spec fn step_win(self, cmd: u64, p: Seq<u64>) -> (u64, SimModel) {
        if cmd == CMD_WIN_CREATE && p.len() == 2 {
            if self.windows.len() < SIM_CAP {
                (
                    (self.windows.len() + 1) as u64,
                    SimModel {
                        windows: self.windows.push(
                            SimWin {
                                alive: true,
                                x_res: p[0],
                                y_res: p[1],
                                caption: None,
                                hook: None,
                            },
                        ),
                        ..self
                    },
                )
            } else {
                (KOS_ERR, self)
            }
        } else if cmd == CMD_WIN_DELETE && p.len() == 1 {
            if self.win_live(p[0]) {
                (
                    0,
                    SimModel {
                        windows: self.windows.update(
                            p[0] as int - 1,
                            SimWin { alive: false, ..self.win_at(p[0]) },
                        ),
                        ..self
                    },
                )
            } else {
                (KOS_ERR, self)
            }
        } else if cmd == CMD_WIN_CAPTION && p.len() == 2 {
            if self.win_live(p[0]) {
                (
                    0,
                    SimModel {
                        windows: self.windows.update(
                            p[0] as int - 1,
                            SimWin { caption: Some(p[1]), ..self.win_at(p[0]) },
                        ),
                        ..self
                    },
                )
            } else {
                (KOS_ERR, self)
            }
        } else if cmd == CMD_WIN_REGISTER_CB && p.len() == 4 {
            if self.win_live(p[0]) && p[1] == CB_DRAW {
                (
                    0,
                    SimModel {
                        windows: self.windows.update(
                            p[0] as int - 1,
                            SimWin { hook: Some(HookPair { fn_word: p[2], data: p[3] }), ..self.win_at(p[0]) },
                        ),
                        ..self
                    },
                )
            } else {
                (KOS_ERR, self)
            }
        } else if cmd == CMD_WIN_LOOP && p.len() == 1 {
            if self.win_live(p[0]) {
                (
                    0,
                    SimModel {
                        frames_left: if self.win_at(p[0]).hook is Some {
                            self.frames_per_loop
                        } else {
                            0
                        },
                        ..self
                    },
                )
            } else {
                (KOS_ERR, self)
            }
        } else {
            (KOS_ERR, self)
        }
    }

    /// One command against the mouse device.
    pub open spec fn step_mouse(self, cmd: u64, p: Seq<u64>) -> (u64, SimModel) {
        if cmd == CMD_MOUSE_CREATE && p.len() == 0 {
            if self.mice.len() < SIM_CAP {
                (
                    (self.mice.len() + 1) as u64,
                    SimModel {
                        mice: self.mice.push(
                            SimMouse { alive: true, cur: snap_zero(), staged: snap_zero() },
                        ),
                        ..self
                    },
                )
            } else {
                (KOS_ERR, self)
            }
        } else if cmd == CMD_MOUSE_UPDATE && p.len() == 1 {
            if self.mouse_live(p[0]) {
                (
                    0,
                    SimModel {
                        mice: self.mice.update(
                            p[0] as int - 1,
                            SimMouse { cur: self.mouse_at(p[0]).staged, ..self.mouse_at(p[0]) },
                        ),
                        ..self
                    },
                )
            } else {
                (KOS_ERR, self)
            }
        } else if cmd == CMD_MOUSE_POLL_BUTTON && p.len() == 2 {
            if self.mouse_live(p[0]) && p[1] <= 2 {
                (
                    if button_of(self.mouse_at(p[0]).cur, p[1]) {
                        1
                    } else {
                        0
                    },
                    self,
                )
            } else {
                (KOS_ERR, self)
            }
        } else if cmd == CMD_MOUSE_POLL_AXIS && p.len() == 2 {
            if self.mouse_live(p[0]) && p[1] <= 2 {
                (axis_of(self.mouse_at(p[0]).cur, p[1]) as u64, self)
            } else {
                (KOS_ERR, self)
            }
        } else {
            (KOS_ERR, self)
        }
    }

    /// One command: the answered word and the state left behind. Context
    /// words other than the reserved zero, and handles of no device, are
    /// rejected.
    pub open spec fn step(self, ctx: u64, handle: u64, cmd: u64, p: Seq<u64>) -> (u64, SimModel) {
        if ctx != KOS_CTX {
            (KOS_ERR, self)
        } else if handle == DEV_WIN {
            self.step_win(cmd, p)
        } else if handle == DEV_MOUSE {
            self.step_mouse(cmd, p)
        } else {
            (KOS_ERR, self)
        }
    }
}

/// The button that a protocol word names, in a snapshot.
pub open spec fn button_of(s: MouseSnap, b: u64) -> bool {
    if b == 0 {
        s.left
    } else if b == 1 {
        s.right
    } else {
        s.middle
    }
}

/// The axis bits that a protocol word names, in a snapshot.
pub open spec fn axis_of(s: MouseSnap, a: u64) -> u32 {
    if a == 0 {
        s.x
    } else if a == 1 {
        s.y
    } else {
        s.z
    }
}

/// The simulated kernel.
pub struct SimKernel {
    pub windows: Vec<SimWin>,
    pub mice: Vec<SimMouse>,
    pub frames_per_loop: u64,
    pub frames_left: u64,
}

impl View for SimKernel {
    type V = SimModel;

    open spec fn view(&self) -> SimModel {
        SimModel {
            windows: self.windows@,
            mice: self.mice@,
            frames_per_loop: self.frames_per_loop,
            frames_left: self.frames_left,
        }
    }
}

impl SimKernel {
    /// A fresh simulated kernel whose run loops drive `frames_per_loop`
    /// draw invocations each.
    pub fn new(frames_per_loop: u64) -> (k: SimKernel)
        ensures
            k@ == (SimModel {
                windows: Seq::<SimWin>::empty(),
                mice: Seq::<SimMouse>::empty(),
                frames_per_loop,
                frames_left: 0,
            }),
    {
        let k = SimKernel { windows: Vec::new(), mice: Vec::new(), frames_per_loop, frames_left: 0 };
        proof {
            assert(k@ =~= SimModel {
                windows: Seq::<SimWin>::empty(),
                mice: Seq::<SimMouse>::empty(),
                frames_per_loop,
                frames_left: 0,
            });
        }
        k
    }

    /// Stages button state on a mouse instance, visible to polls after the
    /// next update command. Answers whether the instance and button exist.
    pub fn stage_button(&mut self, mouse: u64, button: u64, down: bool) -> (r: bool)
        ensures
            r == (old(self)@.mouse_live(mouse) && button <= 2),
            r ==> final(self)@ == (SimModel {
                mice: old(self)@.mice.update(
                    mouse as int - 1,
                    SimMouse {
                        staged: stage_button_snap(old(self)@.mouse_at(mouse).staged, button, down),
                        ..old(self)@.mouse_at(mouse)
                    },
                ),
                ..old(self)@
            }),
            !r ==> *final(self) == *old(self),
    {
        if !(mouse >= 1 && mouse <= self.mice.len() as u64 && button <= 2) {
            return false;
        }
        let i = (mouse - 1) as usize;
        let mut mv = self.mice[i];
        if !mv.alive {
            return false;
        }
        if button == 0 {
            mv.staged.left = down;
        } else if button == 1 {
            mv.staged.right = down;
        } else {
            mv.staged.middle = down;
        }
        self.mice[i] = mv;
        proof {
            assert(self@ =~= SimModel {
                mice: old(self)@.mice.update(
                    mouse as int - 1,
                    SimMouse {
                        staged: stage_button_snap(old(self)@.mouse_at(mouse).staged, button, down),
                        ..old(self)@.mouse_at(mouse)
                    },
                ),
                ..old(self)@
            });
        }
        true
    }

    /// Stages axis bits on a mouse instance, visible to polls after the
    /// next update command. Answers whether the instance and axis exist.
    pub fn stage_axis(&mut self, mouse: u64, axis: u64, bits: u32) -> (r: bool)
        ensures
            r == (old(self)@.mouse_live(mouse) && axis <= 2),
            r ==> final(self)@ == (SimModel {
                mice: old(self)@.mice.update(
                    mouse as int - 1,
                    SimMouse {
                        staged: stage_axis_snap(old(self)@.mouse_at(mouse).staged, axis, bits),
                        ..old(self)@.mouse_at(mouse)
                    },
                ),
                ..old(self)@
            }),
            !r ==> *final(self) == *old(self),
    {
        if !(mouse >= 1 && mouse <= self.mice.len() as u64 && axis <= 2) {
            return false;
        }
        let i = (mouse - 1) as usize;
        let mut mv = self.mice[i];
        if !mv.alive {
            return false;
        }
        if axis == 0 {
            mv.staged.x = bits;
        } else if axis == 1 {
            mv.staged.y = bits;
        } else {
            mv.staged.z = bits;
        }
        self.mice[i] = mv;
        proof {
            assert(self@ =~= SimModel {
                mice: old(self)@.mice.update(
                    mouse as int - 1,
                    SimMouse {
                        staged: stage_axis_snap(old(self)@.mouse_at(mouse).staged, axis, bits),
                        ..old(self)@.mouse_at(mouse)
                    },
                ),
                ..old(self)@
            });
        }
        true
    }

    /// The window-device half of `send`.
    fn send_win(&mut self, cmd: u64, payload: &Vec<u64>) -> (r: u64)
        ensures
            r == old(self)@.step_win(cmd, payload@).0,
            final(self)@ == old(self)@.step_win(cmd, payload@).1,
    {
        let ghost m0 = self@;
        if cmd == CMD_WIN_CREATE && payload.len() == 2 {
            if self.windows.len() < SIM_CAP {
                let h = (self.windows.len() + 1) as u64;
                self.windows.push(
                    SimWin {
                        alive: true,
                        x_res: payload[0],
                        y_res: payload[1],
                        caption: None,
                        hook: None,
                    },
                );
                proof {
                    assert(self@ =~= m0.step_win(cmd, payload@).1);
                }
                h
            } else {
                KOS_ERR
            }
        } else if cmd == CMD_WIN_DELETE && payload.len() == 1 {
            let w = payload[0];
            if w >= 1 && w <= self.windows.len() as u64 {
                let i = (w - 1) as usize;
                let mut wv = self.windows[i];
                if wv.alive {
                    wv.alive = false;
                    self.windows[i] = wv;
                    proof {
                        assert(self@ =~= m0.step_win(cmd, payload@).1);
                    }
                    0
                } else {
                    KOS_ERR
                }
            } else {
                KOS_ERR
            }
        } else if cmd == CMD_WIN_CAPTION && payload.len() == 2 {
            let w = payload[0];
            if w >= 1 && w <= self.windows.len() as u64 {
                let i = (w - 1) as usize;
                let mut wv = self.windows[i];
                if wv.alive {
                    wv.caption = Some(payload[1]);
                    self.windows[i] = wv;
                    proof {
                        assert(self@ =~= m0.step_win(cmd, payload@).1);
                    }
                    0
                } else {
                    KOS_ERR
                }
            } else {
                KOS_ERR
            }
        } else if cmd == CMD_WIN_REGISTER_CB && payload.len() == 4 {
            let w = payload[0];
            if w >= 1 && w <= self.windows.len() as u64 && payload[1] == CB_DRAW {
                let i = (w - 1) as usize;
                let mut wv = self.windows[i];
                if wv.alive {
                    wv.hook = Some(HookPair { fn_word: payload[2], data: payload[3] });
                    self.windows[i] = wv;
                    proof {
                        assert(self@ =~= m0.step_win(cmd, payload@).1);
                    }
                    0
                } else {
                    KOS_ERR
                }
            } else {
                KOS_ERR
            }
        } else if cmd == CMD_WIN_LOOP && payload.len() == 1 {
            let w = payload[0];
            if w >= 1 && w <= self.windows.len() as u64 {
                let i = (w - 1) as usize;
                let wv = self.windows[i];
                if wv.alive {
                    self.frames_left = match wv.hook {
                        Some(_) => self.frames_per_loop,
                        None => 0,
                    };
                    proof {
                        assert(self@ =~= m0.step_win(cmd, payload@).1);
                    }
                    0
                } else {
                    KOS_ERR
                }
            } else {
                KOS_ERR
            }
        } else {
            KOS_ERR
        }
    }

    /// The mouse-device half of `send`.
    fn send_mouse(&mut self, cmd: u64, payload: &Vec<u64>) -> (r: u64)
        ensures
            r == old(self)@.step_mouse(cmd, payload@).0,
            final(self)@ == old(self)@.step_mouse(cmd, payload@).1,
    {
        let ghost m0 = self@;
        if cmd == CMD_MOUSE_CREATE && payload.len() == 0 {
            if self.mice.len() < SIM_CAP {
                let h = (self.mice.len() + 1) as u64;
                self.mice.push(
                    SimMouse {
                        alive: true,
                        cur: MouseSnap {
                            left: false,
                            right: false,
                            middle: false,
                            x: 0,
                            y: 0,
                            z: 0,
                        },
                        staged: MouseSnap {
                            left: false,
                            right: false,
                            middle: false,
                            x: 0,
                            y: 0,
                            z: 0,
                        },
                    },
                );
                proof {
                    assert(self@ =~= m0.step_mouse(cmd, payload@).1);
                }
                h
            } else {
                KOS_ERR
            }
        } else if cmd == CMD_MOUSE_UPDATE && payload.len() == 1 {
            let m = payload[0];
            if m >= 1 && m <= self.mice.len() as u64 {
                let i = (m - 1) as usize;
                let mut mv = self.mice[i];
                if mv.alive {
                    mv.cur = mv.staged;
                    self.mice[i] = mv;
                    proof {
                        assert(self@ =~= m0.step_mouse(cmd, payload@).1);
                    }
                    0
                } else {
                    KOS_ERR
                }
            } else {
                KOS_ERR
            }
        } else if cmd == CMD_MOUSE_POLL_BUTTON && payload.len() == 2 {
            let m = payload[0];
            let b = payload[1];
            if m >= 1 && m <= self.mice.len() as u64 && b <= 2 {
                let i = (m - 1) as usize;
                let mv = self.mice[i];
                if mv.alive {
                    let down = if b == 0 {
                        mv.cur.left
                    } else if b == 1 {
                        mv.cur.right
                    } else {
                        mv.cur.middle
                    };
                    if down {
                        1
                    } else {
                        0
                    }
                } else {
                    KOS_ERR
                }
            } else {
                KOS_ERR
            }
        } else if cmd == CMD_MOUSE_POLL_AXIS && payload.len() == 2 {
            let m = payload[0];
            let a = payload[1];
            if m >= 1 && m <= self.mice.len() as u64 && a <= 2 {
                let i = (m - 1) as usize;
                let mv = self.mice[i];
                if mv.alive {
                    let bits = if a == 0 {
                        mv.cur.x
                    } else if a == 1 {
                        mv.cur.y
                    } else {
                        mv.cur.z
                    };
                    bits as u64
                } else {
                    KOS_ERR
                }
            } else {
                KOS_ERR
            }
        } else {
            KOS_ERR
        }
    }
}

/// A staged snapshot with one button set.
pub open spec fn stage_button_snap(s: MouseSnap, button: u64, down: bool) -> MouseSnap {
    if button == 0 {
        MouseSnap { left: down, ..s }
    } else if button == 1 {
        MouseSnap { right: down, ..s }
    } else {
        MouseSnap { middle: down, ..s }
    }
}

/// A staged snapshot with one axis set.
pub open spec fn stage_axis_snap(s: MouseSnap, axis: u64, bits: u32) -> MouseSnap {
    if axis == 0 {
        MouseSnap { x: bits, ..s }
    } else if axis == 1 {
        MouseSnap { y: bits, ..s }
    } else {
        MouseSnap { z: bits, ..s }
    }
}

impl Kernel for SimKernel {
    open spec fn query_m(m: SimModel, ctx: u64, name: Seq<u8>) -> u64 {
        m.q(ctx, name)
    }

    open spec fn send_r(m: SimModel, ctx: u64, handle: u64, cmd: u64, payload: Seq<u64>) -> u64 {
        m.step(ctx, handle, cmd, payload).0
    }

    open spec fn send_m(m: SimModel, ctx: u64, handle: u64, cmd: u64, payload: Seq<u64>)
        -> SimModel {
        m.step(ctx, handle, cmd, payload).1
    }

    open spec fn frames_m(m: SimModel, dev: u64, win: u64) -> nat {
        if dev == DEV_WIN && m.win_live(win) && m.win_at(win).hook is Some {
            m.frames_left as nat
        } else {
            0
        }
    }

    open spec fn draw_data_m(m: SimModel, dev: u64, win: u64) -> u64 {
        if dev == DEV_WIN && m.win_live(win) && m.win_at(win).hook is Some {
            (m.win_at(win).hook->Some_0).data
        } else {
            0
        }
    }

    proof fn registration_stores_data(m: SimModel, ctx: u64, dev: u64, payload: Seq<u64>) {
    }

    proof fn loop_start_keeps_data(m: SimModel, ctx: u64, dev: u64, payload: Seq<u64>) {
    }

    fn query(&self, ctx: u64, name: &Vec<u8>) -> (r: u64) {
        if ctx != KOS_CTX {
            return NO_DEVICE;
        }
        let wname = match encode_c_string("aquabsd.alps.win") {
            Ok(v) => v,
            Err(_) => {
                proof {
                    crate::win::lemma_win_name_ok();
                }
                vstd::pervasive::unreached()
            },
        };
        if bytes_eq(name, &wname) {
            return DEV_WIN;
        }
        let mname = match encode_c_string("aquabsd.alps.mouse") {
            Ok(v) => v,
            Err(_) => {
                proof {
                    crate::mouse::lemma_mouse_name_ok();
                }
                vstd::pervasive::unreached()
            },
        };
        if bytes_eq(name, &mname) {
            return DEV_MOUSE;
        }
        NO_DEVICE
    }

    fn send(&mut self, ctx: u64, handle: u64, cmd: u64, payload: &Vec<u64>) -> (r: u64) {
        if ctx != KOS_CTX {
            return KOS_ERR;
        }
        if handle == DEV_WIN {
            self.send_win(cmd, payload)
        } else if handle == DEV_MOUSE {
            self.send_mouse(cmd, payload)
        } else {
            KOS_ERR
        }
    }

    fn loop_step(&mut self, dev: u64, win: u64, last: u64) -> (e: LoopEvent) {
        if dev == DEV_WIN && win >= 1 && win <= self.windows.len() as u64 {
            let i = (win - 1) as usize;
            let wv = self.windows[i];
            match wv.hook {
                Some(pair) => {
                    if wv.alive && self.frames_left > 0 {
                        self.frames_left = self.frames_left - 1;
                        return LoopEvent::InvokeDraw { win, data: pair.data };
                    }
                },
                None => {},
            }
        }
        LoopEvent::Done
    }
}

/// Byte-for-byte comparison of two byte vectors.
fn bytes_eq(a: &Vec<u8>, b: &Vec<u8>) -> (r: bool)
    ensures
        r == (a@ == b@),
{
    if a.len() != b.len() {
        return false;
    }
    let n = a.len();
    let mut i: usize = 0;
    while i < n
        invariant
            i <= n,
            n == a@.len(),
            n == b@.len(),
            forall|j: int| 0 <= j < i ==> a@[j] == b@[j],
        decreases n - i,
    {
        if a[i] != b[i] {
            return false;
        }
        i += 1;
    }
    proof {
        assert(a@ =~= b@);
    }
    true
}

/// Law: a boolean-valued poll answers only 0 or 1. For every live mouse of
/// the simulated kernel, polling a button in the vocabulary answers one of
/// the two boolean words, never anything else.
pub proof fn lemma_poll_button_boolean(m: SimModel, mouse: u64, button: u64)
    requires
        m.mouse_live(mouse),
        button <= 2,
    ensures
        ({
            let r = SimKernel::send_r(
                m,
                KOS_CTX,
                DEV_MOUSE,
                CMD_MOUSE_POLL_BUTTON,
                seq![mouse, button],
            );
            r == 0 || r == 1
        }),
{
}

/// Law: an axis poll answers a 32-bit float bit pattern carried in the low
/// half of the word; the high half is always zero.
pub proof fn lemma_poll_axis_range(m: SimModel, mouse: u64, axis: u64)
    requires
        m.mouse_live(mouse),
        axis <= 2,
    ensures
        SimKernel::send_r(m, KOS_CTX, DEV_MOUSE, CMD_MOUSE_POLL_AXIS, seq![mouse, axis])
            <= 0xFFFF_FFFF,
{
}

/// Law: a query for a name outside the simulated kernel's namespace always
/// answers the sentinel, never a value usable as a device handle.
pub proof fn lemma_unknown_name_sentinel(m: SimModel, ctx: u64, name: Seq<u8>)
    requires
        name != c_string_bytes(win_device_name()),
        name != c_string_bytes(mouse_device_name()),
    ensures
        SimKernel::query_m(m, ctx, name) == NO_DEVICE,
{
}

/// Law: once a window is deleted, every vocabulary command that names its
/// handle is rejected with the sentinel, whatever the payload.
pub proof fn lemma_deleted_window_rejected(m: SimModel, ctx: u64, cmd: u64, payload: Seq<u64>)
    requires
        payload.len() > 0,
        m.win_ok(payload[0]),
        !m.win_at(payload[0]).alive,
        cmd == CMD_WIN_DELETE || cmd == CMD_WIN_CAPTION || cmd == CMD_WIN_REGISTER_CB || cmd
            == CMD_WIN_LOOP,
    ensures
        SimKernel::send_r(m, ctx, DEV_WIN, cmd, payload) == KOS_ERR,
{
}

/// Law: an accepted window creation answers a fresh handle that the
/// kernel recognizes as live afterwards, never a sentinel.
pub proof fn lemma_win_create_live_handle(m: SimModel, payload: Seq<u64>)
    requires
        payload.len() == 2,
        m.windows.len() < SIM_CAP,
    ensures
        ({
            let r = SimKernel::send_r(m, KOS_CTX, DEV_WIN, CMD_WIN_CREATE, payload);
            let m1 = SimKernel::send_m(m, KOS_CTX, DEV_WIN, CMD_WIN_CREATE, payload);
            &&& r != KOS_ERR
            &&& r != NO_DEVICE
            &&& m1.win_live(r)
            &&& !m.win_ok(r)
        }),
{
}

/// Law: an accepted mouse creation answers a fresh handle that the kernel
/// recognizes as live afterwards, never a sentinel.
pub proof fn lemma_mouse_create_live_handle(m: SimModel)
    requires
        m.mice.len() < SIM_CAP,
    ensures
        ({
            let r = SimKernel::send_r(m, KOS_CTX, DEV_MOUSE, CMD_MOUSE_CREATE, Seq::empty());
            let m1 = SimKernel::send_m(m, KOS_CTX, DEV_MOUSE, CMD_MOUSE_CREATE, Seq::empty());
            &&& r != KOS_ERR
            &&& r != NO_DEVICE
            &&& m1.mouse_live(r)
            &&& !m.mouse_ok(r)
        }),
{
}

/// Law: a payload whose length differs from the vocabulary's fixed arity
/// for the command is rejected with the sentinel, on any device handle.
pub proof fn lemma_arity_mismatch_rejected(
    m: SimModel,
    ctx: u64,
    handle: u64,
    cmd: u64,
    payload: Seq<u64>,
)
    requires
        cmd_arity(cmd) is Some,
        payload.len() != cmd_arity(cmd)->Some_0,
    ensures
        SimKernel::send_r(m, ctx, handle, cmd, payload) == KOS_ERR,
{
}

} // verus!
