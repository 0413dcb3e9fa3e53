use spice_client::cursor_channel::CursorChannel;
use spice_client::display_channel::{
    connection_dimention, connection_display, primary_display, Display, DisplayChannel,
};
use spice_client::input_channel::{position_args, InputChannel};
use spice_client::main_channel::{mouse_update_carries_channel, MainChannel};
use spice_client::mouse_channel::MouseChannel;
use spice_client::signal::{int_arg, is_object_arg, pointer_arg, SignalArg};

fn create_args() -> Vec<SignalArg> {
    vec![
        SignalArg::Object,
        SignalArg::Int(32),
        SignalArg::Int(1024),
        SignalArg::Int(768),
        SignalArg::Int(4096),
        SignalArg::Int(7),
        SignalArg::Pointer(0x1000),
    ]
}

#[test]
fn signal_args_by_type() {
    let args = create_args();
    assert_eq!(int_arg(&args, 1), Some(32));
    assert_eq!(int_arg(&args, 0), None);
    assert_eq!(int_arg(&args, 6), None);
    assert_eq!(int_arg(&args, 7), None);
    assert_eq!(pointer_arg(&args, 6), Some(0x1000));
    assert_eq!(pointer_arg(&args, 2), None);
    assert!(is_object_arg(&args, 0));
    assert!(!is_object_arg(&args, 1));
    assert!(!is_object_arg(&args, 100));
}

#[test]
fn default_display_is_empty() {
    assert_eq!(
        Display::default(),
        Display { canvas_img: None, width: 0, height: 0, stride: 0, format: 0 }
    );
}

#[test]
fn primary_display_from_full_arguments() {
    assert_eq!(
        primary_display(&create_args()),
        Display { canvas_img: Some(0x1000), width: 1024, height: 768, stride: 4096, format: 32 }
    );
}

#[test]
fn primary_display_with_missing_or_mistyped_arguments() {
    let args = vec![SignalArg::Object, SignalArg::Other, SignalArg::Int(640), SignalArg::Pointer(3)];
    assert_eq!(
        primary_display(&args),
        Display { canvas_img: None, width: 640, height: 0, stride: 0, format: 0 }
    );
    assert_eq!(primary_display(&vec![]), Display::default());
}

#[test]
fn display_channel_reports_the_created_surface() {
    let mut c = DisplayChannel::from(7u32);
    assert_eq!(c.display(), None);
    assert_eq!(c.dimention(), (0, 0));
    assert_eq!(*c.inner(), 7);
    c.on_primary_create(&create_args());
    assert_eq!(
        c.display(),
        Some(Display { canvas_img: Some(0x1000), width: 1024, height: 768, stride: 4096, format: 32 })
    );
    assert_eq!(c.dimention(), (1024, 768));
    assert_eq!(*c.inner(), 7);
    let mut args = create_args();
    args[2] = SignalArg::Int(-1);
    c.on_primary_create(&args);
    assert_eq!(c.dimention(), (u32::MAX, 768));
}

#[test]
fn main_channel_mouse_modes() {
    let mut m = MainChannel::from("main");
    assert!(!m.is_mouse_mode_server());
    assert!(!m.is_mouse_mode_client());
    m.set_mouse_mode(1);
    assert!(m.is_mouse_mode_server());
    assert!(!m.is_mouse_mode_client());
    m.set_mouse_mode(2);
    assert!(!m.is_mouse_mode_server());
    assert!(m.is_mouse_mode_client());
    m.set_mouse_mode(3);
    assert!(!m.is_mouse_mode_server());
    assert!(!m.is_mouse_mode_client());
    assert_eq!(*m.inner(), "main");
}

#[test]
fn mouse_update_needs_the_channel_object() {
    assert!(mouse_update_carries_channel(&vec![SignalArg::Object]));
    assert!(!mouse_update_carries_channel(&vec![SignalArg::Int(1)]));
    assert!(!mouse_update_carries_channel(&vec![]));
}

#[test]
fn input_channel_starts_without_offsets() {
    let i = InputChannel::from(5u8);
    assert_eq!((i.dx, i.dy), (0, 0));
    assert_eq!(*i.inner(), 5);
    assert_eq!(position_args(1, 10, 20), (10, 20, 1, 0));
}

#[test]
fn cursor_and_mouse_channels_hold_their_handle() {
    let c = CursorChannel::from(3u8);
    assert_eq!(*c.inner(), 3);
    let m = MouseChannel::from(4u8);
    assert!(!m.connect());
    assert_eq!(*m.obj(), 4);
}

#[test]
fn connection_reports_surface_of_its_display_channel() {
    assert_eq!(connection_display::<u8>(None), None);
    assert_eq!(connection_dimention::<u8>(None), (0, 0));
    let mut c = DisplayChannel::from(1u8);
    assert_eq!(connection_display(Some(&c)), None);
    assert_eq!(connection_dimention(Some(&c)), (0, 0));
    c.on_primary_create(&create_args());
    assert_eq!(connection_display(Some(&c)), c.display());
    assert_eq!(connection_dimention(Some(&c)), (1024, 768));
}
