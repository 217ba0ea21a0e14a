//! The kernel services, as a typed capability.
//!
//! The host injects two services at startup: a device query and a device
//! send. Here they are an interface that a kernel value implements, with a
//! spec-level model of its observable behaviour: what a query answers, what
//! a command answers and how it moves the kernel's state, and how the run
//! loop of a window re-enters the process through the registered callback
//! pair. A window's run loop is modeled as a finite number of remaining
//! draw invocations, surrendered one step at a time; re-entry is
//! synchronous and single-threaded by precondition.

use crate::proto::{CMD_WIN_LOOP, CMD_WIN_REGISTER_CB, KOS_ERR};
use vstd::prelude::*;

verus! {

/// One step of a kernel run loop, surrendered to the client: either the
/// kernel invokes the registered draw callback pair, or the loop is over.
#[derive(Clone, Copy, Debug, PartialEq, Eq, Structural)]
pub enum LoopEvent {
    /// The kernel re-enters the process through the registered trampoline:
    /// `win` is the window whose loop is running, `data` the opaque word
    /// stored at registration.
    InvokeDraw { win: u64, data: u64 },
    /// The run loop has returned; control stays with the caller.
    Done,
}

/// The two kernel services, with a spec-level model over the kernel's view.
///
/// `query` answers a device query for a null-terminated name; `send`
/// answers one command and moves the kernel's state; `loop_step` is one
/// iteration of a window's run loop. The model functions pin each of them:
/// a verified client knows exactly which words cross the boundary and what
/// state the kernel is left in, for any implementation of this interface.
pub trait Kernel: Sized + View {
    /// The handle a device query answers for a null-terminated name under
    /// a context word.
    spec fn query_m(m: Self::V, ctx: u64, name: Seq<u8>) -> u64;

    /// The result word a device command answers.
    spec fn send_r(m: Self::V, ctx: u64, handle: u64, cmd: u64, payload: Seq<u64>) -> u64;

    /// The kernel state a device command leaves behind.
    spec fn send_m(m: Self::V, ctx: u64, handle: u64, cmd: u64, payload: Seq<u64>) -> Self::V;

    /// How many more times the running loop of `win` (an instance of the
    /// window device `dev`) will invoke the registered draw callback.
    spec fn frames_m(m: Self::V, dev: u64, win: u64) -> nat;

    /// The opaque data word of the draw callback registered on `win`.
    spec fn draw_data_m(m: Self::V, dev: u64, win: u64) -> u64;

    /// Protocol law: an accepted callback registration stores the payload's
    /// data word (payload: window, kind, trampoline word, data word).
    proof fn registration_stores_data(m: Self::V, ctx: u64, dev: u64, payload: Seq<u64>)
        requires
            payload.len() == 4,
            Self::send_r(m, ctx, dev, CMD_WIN_REGISTER_CB, payload) != KOS_ERR,
        ensures
            Self::draw_data_m(
                Self::send_m(m, ctx, dev, CMD_WIN_REGISTER_CB, payload),
                dev,
                payload[0],
            ) == payload[3];

    /// Protocol law: starting a window's run loop leaves the registered
    /// draw data word alone.
    proof fn loop_start_keeps_data(m: Self::V, ctx: u64, dev: u64, payload: Seq<u64>)
        requires
            payload.len() == 1,
        ensures
            Self::draw_data_m(
                Self::send_m(m, ctx, dev, CMD_WIN_LOOP, payload),
                dev,
                payload[0],
            ) == Self::draw_data_m(m, dev, payload[0]);

    /// The device query primitive: `(context, name) -> device handle`.
    fn query(&self, ctx: u64, name: &Vec<u8>) -> (r: u64)
        ensures
            r == Self::query_m(self@, ctx, name@);

    /// The device send primitive:
    /// `(context, handle, command, payload) -> result word`.
    fn send(&mut self, ctx: u64, handle: u64, cmd: u64, payload: &Vec<u64>) -> (r: u64)
        ensures
            r == Self::send_r(old(self)@, ctx, handle, cmd, payload@),
            final(self)@ == Self::send_m(old(self)@, ctx, handle, cmd, payload@);

    /// One iteration of the run loop of `win`: the kernel either invokes
    /// the registered draw pair once or ends the loop. `last` hands the
    /// previous invocation's result back to the kernel.
    fn loop_step(&mut self, dev: u64, win: u64, last: u64) -> (e: LoopEvent)
        ensures
            Self::frames_m(old(self)@, dev, win) > 0 ==> {
                &&& e == (LoopEvent::InvokeDraw {
                    win,
                    data: Self::draw_data_m(old(self)@, dev, win),
                })
                &&& Self::frames_m(final(self)@, dev, win) == Self::frames_m(
                    old(self)@,
                    dev,
                    win,
                ) - 1
                &&& Self::draw_data_m(final(self)@, dev, win) == Self::draw_data_m(
                    old(self)@,
                    dev,
                    win,
                )
            },
            Self::frames_m(old(self)@, dev, win) == 0 ==> {
                &&& e == LoopEvent::Done
                &&& final(self)@ == old(self)@
            },
    ;
}

} // verus!
