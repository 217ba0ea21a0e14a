use aqua::hook::CounterHook;
use aqua::proto::{
    CMD_WIN_CAPTION, CMD_WIN_DELETE, CMD_WIN_LOOP, CMD_WIN_REGISTER_CB, DRAW_TRAMPOLINE_ID,
    KOS_ERR,
};
use aqua::registry::Registry;
use aqua::sim::{HookPair, SimKernel};
use aqua::win::Win;
use aqua::KosError;

#[test]
fn window_create_caption_delete() {
    let mut reg: Registry<SimKernel> = Registry::new();
    reg.install(SimKernel::new(0));
    let mut w = Win::new(&mut reg, 800, 600).unwrap();
    assert_eq!(w.dev, 1);
    assert_eq!(w.win, 1);
    assert_eq!(w.caption(&mut reg, "hello"), Ok(()));
    {
        let k = reg.kernel_mut();
        assert_eq!(k.windows.len(), 1);
        assert!(k.windows[0].alive);
        assert_eq!(k.windows[0].x_res, 800);
        assert_eq!(k.windows[0].y_res, 600);
        // The caption word is the index of the pinned caption entry.
        assert_eq!(k.windows[0].caption, Some(0));
    }
    assert_eq!(w.captions.len(), 1);
    assert_eq!(w.captions[0], vec![104u8, 101, 108, 108, 111, 0]);
    assert_eq!(w.delete(&mut reg), Ok(()));
    assert!(!reg.kernel_mut().windows[0].alive);
}

#[test]
fn deleted_handle_is_rejected() {
    let mut reg: Registry<SimKernel> = Registry::new();
    reg.install(SimKernel::new(0));
    let w = Win::new(&mut reg, 640, 480).unwrap();
    let h = w.win;
    assert_eq!(w.delete(&mut reg), Ok(()));
    // Every further vocabulary command naming the deleted handle is
    // rejected by the kernel.
    assert_eq!(reg.raw_send_device(1, CMD_WIN_CAPTION as u16, &vec![h, 0]), Ok(KOS_ERR));
    assert_eq!(
        reg.raw_send_device(1, CMD_WIN_REGISTER_CB as u16, &vec![h, 0, DRAW_TRAMPOLINE_ID, 0]),
        Ok(KOS_ERR)
    );
    assert_eq!(reg.raw_send_device(1, CMD_WIN_LOOP as u16, &vec![h]), Ok(KOS_ERR));
    assert_eq!(reg.raw_send_device(1, CMD_WIN_DELETE as u16, &vec![h]), Ok(KOS_ERR));
    // A later window gets a fresh handle.
    let w2 = Win::new(&mut reg, 1, 1).unwrap();
    assert_eq!(w2.win, 2);
}

#[test]
fn draw_loop_counts_five_invocations() {
    let mut reg: Registry<SimKernel> = Registry::new();
    reg.install(SimKernel::new(5));
    let w = Win::new(&mut reg, 800, 600).unwrap();
    let h = w.draw_loop(&mut reg, CounterHook { count: 0 }).unwrap();
    // The kernel invoked the trampoline five times; the same hook value was
    // re-entered each time.
    assert_eq!(h.count, 5);
    // The pair the kernel stored names the draw trampoline and the table
    // key, and the window the loop ran on is the one create answered.
    let k = reg.kernel_mut();
    assert_eq!(w.win, 1);
    assert_eq!(k.windows[0].hook, Some(HookPair { fn_word: DRAW_TRAMPOLINE_ID, data: 0 }));
    assert_eq!(k.frames_left, 0);
}

#[test]
fn draw_loop_threads_state_across_runs() {
    let mut reg: Registry<SimKernel> = Registry::new();
    reg.install(SimKernel::new(3));
    let w = Win::new(&mut reg, 320, 200).unwrap();
    let h = w.draw_loop(&mut reg, CounterHook { count: 0 }).unwrap();
    assert_eq!(h.count, 3);
    // Handing the hook back in continues from its observed state.
    let h2 = w.draw_loop(&mut reg, h).unwrap();
    assert_eq!(h2.count, 6);
}

#[test]
fn draw_loop_on_deleted_window_is_rejected() {
    let mut reg: Registry<SimKernel> = Registry::new();
    reg.install(SimKernel::new(5));
    let w = Win::new(&mut reg, 800, 600).unwrap();
    let dead = Win { dev: w.dev, win: w.win, captions: Vec::new() };
    assert_eq!(w.delete(&mut reg), Ok(()));
    match dead.draw_loop(&mut reg, CounterHook { count: 0 }) {
        Err(KosError::Rejected) => {},
        other => panic!("expected rejection, got {:?}", other.map(|h| h.count)),
    }
}

#[test]
fn register_cb_refuses_unknown_kind() {
    let mut reg: Registry<SimKernel> = Registry::new();
    reg.install(SimKernel::new(0));
    let w = Win::new(&mut reg, 100, 100).unwrap();
    assert_eq!(
        reg.raw_send_device(1, CMD_WIN_REGISTER_CB as u16, &vec![w.win, 9, DRAW_TRAMPOLINE_ID, 0]),
        Ok(KOS_ERR)
    );
}
