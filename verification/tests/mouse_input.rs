use aqua::mouse::{Mouse, MouseAxis, MouseButton};
use aqua::proto::{CMD_MOUSE_CREATE, CMD_MOUSE_POLL_AXIS, CMD_MOUSE_POLL_BUTTON, CMD_MOUSE_UPDATE, KOS_ERR};
use aqua::registry::Registry;
use aqua::sim::SimKernel;
use aqua::KosError;

#[test]
fn mouse_axis_scenario() {
    let mut reg: Registry<SimKernel> = Registry::new();
    reg.install(SimKernel::new(0));
    // resolve("aquabsd.alps.mouse") -> handle H.
    let h = reg.resolve("aquabsd.alps.mouse").unwrap();
    assert_eq!(h, 2);
    // dispatch(H, create, []) -> mouse id M.
    let m = reg.send_device(h, CMD_MOUSE_CREATE as u16, &vec![]).unwrap();
    assert_eq!(m, 1);
    // The kernel's axis state is a known bit pattern.
    assert!(reg.kernel_mut().stage_axis(m, 0, 0x3F000000));
    assert_eq!(reg.send_device(h, CMD_MOUSE_UPDATE as u16, &vec![m]), Ok(0));
    // dispatch(H, poll_axis, [M, 0]) answers the pattern; reinterpreted it
    // is a finite float within [-1.0, 1.0].
    let bits = reg.send_device(h, CMD_MOUSE_POLL_AXIS as u16, &vec![m, 0]).unwrap();
    assert_eq!(bits, 0x3F000000);
    let value = f32::from_bits(bits as u32);
    assert!(value.is_finite());
    assert!((-1.0..=1.0).contains(&value));
    assert_eq!(value, 0.5);
}

#[test]
fn mouse_buttons_poll_as_booleans() {
    let mut reg: Registry<SimKernel> = Registry::new();
    reg.install(SimKernel::new(0));
    let mut m = Mouse::default(&mut reg).unwrap();
    assert_eq!(m.dev, 2);
    assert_eq!(m.mouse, 1);
    assert!(reg.kernel_mut().stage_button(m.mouse, 0, true));
    assert_eq!(m.update(&mut reg), Ok(()));
    assert_eq!(m.poll_button(&mut reg, MouseButton::Left), Ok(true));
    assert_eq!(m.poll_button(&mut reg, MouseButton::Right), Ok(false));
    assert_eq!(m.poll_button(&mut reg, MouseButton::Middle), Ok(false));
    // The raw boolean-valued command answers only 0 or 1.
    assert_eq!(reg.raw_send_device(2, CMD_MOUSE_POLL_BUTTON as u16, &vec![1, 0]), Ok(1));
    assert_eq!(reg.raw_send_device(2, CMD_MOUSE_POLL_BUTTON as u16, &vec![1, 1]), Ok(0));
}

#[test]
fn staged_input_waits_for_update() {
    let mut reg: Registry<SimKernel> = Registry::new();
    reg.install(SimKernel::new(0));
    let mut m = Mouse::default(&mut reg).unwrap();
    assert!(reg.kernel_mut().stage_button(m.mouse, 2, true));
    // Not visible before the update command.
    assert_eq!(m.poll_button(&mut reg, MouseButton::Middle), Ok(false));
    assert_eq!(m.update(&mut reg), Ok(()));
    assert_eq!(m.poll_button(&mut reg, MouseButton::Middle), Ok(true));
}

#[test]
fn poll_axis_hands_bits_through_facade() {
    let mut reg: Registry<SimKernel> = Registry::new();
    reg.install(SimKernel::new(0));
    let mut m = Mouse::default(&mut reg).unwrap();
    assert!(reg.kernel_mut().stage_axis(m.mouse, 1, 0xBF800000));
    assert_eq!(m.update(&mut reg), Ok(()));
    assert_eq!(m.poll_axis(&mut reg, MouseAxis::Y), Ok(0xBF800000));
    assert_eq!(f32::from_bits(0xBF800000), -1.0);
    assert_eq!(m.poll_axis(&mut reg, MouseAxis::X), Ok(0));
}

#[test]
fn unknown_mouse_handle_is_rejected() {
    let mut reg: Registry<SimKernel> = Registry::new();
    reg.install(SimKernel::new(0));
    let mut ghostly = Mouse { dev: 2, mouse: 99 };
    assert_eq!(ghostly.update(&mut reg), Err(KosError::Rejected));
    assert_eq!(ghostly.poll_button(&mut reg, MouseButton::Left), Err(KosError::Rejected));
    assert_eq!(ghostly.poll_axis(&mut reg, MouseAxis::Z), Err(KosError::Rejected));
    assert_eq!(reg.raw_send_device(2, CMD_MOUSE_POLL_BUTTON as u16, &vec![99, 0]), Ok(KOS_ERR));
}

#[test]
fn button_and_axis_words() {
    assert_eq!(MouseButton::Left.to_c(), 0);
    assert_eq!(MouseButton::Right.to_c(), 1);
    assert_eq!(MouseButton::Middle.to_c(), 2);
    assert_eq!(MouseAxis::X.to_c(), 0);
    assert_eq!(MouseAxis::Y.to_c(), 1);
    assert_eq!(MouseAxis::Z.to_c(), 2);
}
