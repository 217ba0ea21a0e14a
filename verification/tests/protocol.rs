use aqua::proto::{
    arity_of, encode_c_string, CMD_MOUSE_CREATE, CMD_MOUSE_POLL_AXIS, CMD_MOUSE_POLL_BUTTON,
    CMD_MOUSE_UPDATE, CMD_WIN_CAPTION, CMD_WIN_CREATE, CMD_WIN_DELETE, CMD_WIN_LOOP,
    CMD_WIN_REGISTER_CB, KOS_ERR,
};
use aqua::registry::Registry;
use aqua::sim::SimKernel;
use aqua::KosError;

#[test]
fn encode_appends_one_nul() {
    let v = encode_c_string("abc").unwrap();
    assert_eq!(v, vec![97u8, 98, 99, 0]);
    let empty = encode_c_string("").unwrap();
    assert_eq!(empty, vec![0u8]);
}

#[test]
fn encode_refuses_interior_nul() {
    assert_eq!(encode_c_string("a\0b"), Err(KosError::BadName));
}

#[test]
fn arity_table_matches_vocabulary() {
    assert_eq!(arity_of(CMD_WIN_CREATE), Some(2));
    assert_eq!(arity_of(CMD_WIN_DELETE), Some(1));
    assert_eq!(arity_of(CMD_WIN_CAPTION), Some(2));
    assert_eq!(arity_of(CMD_WIN_REGISTER_CB), Some(4));
    assert_eq!(arity_of(CMD_WIN_LOOP), Some(1));
    assert_eq!(arity_of(CMD_MOUSE_CREATE), Some(0));
    assert_eq!(arity_of(CMD_MOUSE_UPDATE), Some(1));
    assert_eq!(arity_of(CMD_MOUSE_POLL_BUTTON), Some(2));
    assert_eq!(arity_of(CMD_MOUSE_POLL_AXIS), Some(2));
    assert_eq!(arity_of(0x0000), None);
    assert_eq!(arity_of(0xFFFF), None);
}

#[test]
fn uninitialized_dispatch_fails_fast() {
    let mut reg: Registry<SimKernel> = Registry::new();
    assert!(!reg.is_installed());
    assert_eq!(reg.query_device("aquabsd.alps.win"), Err(KosError::Uninitialized));
    assert_eq!(reg.resolve("aquabsd.alps.win"), Err(KosError::Uninitialized));
    assert_eq!(
        reg.raw_send_device(1, CMD_WIN_CREATE as u16, &vec![800, 600]),
        Err(KosError::Uninitialized)
    );
    assert_eq!(
        reg.send_device(1, CMD_WIN_CREATE as u16, &vec![800, 600]),
        Err(KosError::Uninitialized)
    );
}

#[test]
fn resolve_unknown_name_gives_sentinel() {
    let mut reg: Registry<SimKernel> = Registry::new();
    reg.install(SimKernel::new(0));
    assert_eq!(reg.resolve("aquabsd.alps.none"), Err(KosError::NoSuchDevice));
    assert_eq!(reg.resolve(""), Err(KosError::NoSuchDevice));
    assert_eq!(reg.query_device("aquabsd.alps.none"), Ok(0));
    assert_eq!(reg.resolve("aquabsd.alps.win"), Ok(1));
    assert_eq!(reg.resolve("aquabsd.alps.mouse"), Ok(2));
}

#[test]
fn checked_dispatch_refuses_arity_mismatch() {
    let mut reg: Registry<SimKernel> = Registry::new();
    reg.install(SimKernel::new(0));
    let vocabulary: [(u64, usize); 9] = [
        (CMD_WIN_CREATE, 2),
        (CMD_WIN_DELETE, 1),
        (CMD_WIN_CAPTION, 2),
        (CMD_WIN_REGISTER_CB, 4),
        (CMD_WIN_LOOP, 1),
        (CMD_MOUSE_CREATE, 0),
        (CMD_MOUSE_UPDATE, 1),
        (CMD_MOUSE_POLL_BUTTON, 2),
        (CMD_MOUSE_POLL_AXIS, 2),
    ];
    for (cmd, arity) in vocabulary {
        let short = vec![0u64; arity + 1];
        assert_eq!(reg.send_device(1, cmd as u16, &short), Err(KosError::BadArity));
        if arity > 0 {
            let shorter = vec![0u64; arity - 1];
            assert_eq!(reg.send_device(1, cmd as u16, &shorter), Err(KosError::BadArity));
        }
    }
}

#[test]
fn kernel_rejects_arity_mismatch_on_raw_dispatch() {
    let mut reg: Registry<SimKernel> = Registry::new();
    reg.install(SimKernel::new(0));
    // One word for a command expecting two: the simulated kernel answers
    // the rejection sentinel on the raw, unjudged path.
    assert_eq!(reg.raw_send_device(1, CMD_WIN_CREATE as u16, &vec![800]), Ok(KOS_ERR));
    // A command outside both vocabularies is rejected too.
    assert_eq!(reg.raw_send_device(1, 0x0001, &vec![]), Ok(KOS_ERR));
    // A handle of no device is rejected.
    assert_eq!(reg.raw_send_device(7, CMD_WIN_CREATE as u16, &vec![800, 600]), Ok(KOS_ERR));
}
