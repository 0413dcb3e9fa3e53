use spice_client::channel::{kind_of_type, Channel, ChannelKind};
use spice_client::connection::{
    channel_new_carries_channel, monitor_config_args, plan_channel_new, port_property, ChannelNewPlan,
    Channels,
};
use spice_client::session::session_adopts_channel;
use spice_client::signal::SignalArg;

type Table = Channels<&'static str, &'static str, &'static str, &'static str>;

#[test]
fn connection_spawn() {}

#[test]
fn kinds_of_channel_types() {
    assert_eq!(kind_of_type(1), Some(ChannelKind::Main));
    assert_eq!(kind_of_type(2), Some(ChannelKind::Display));
    assert_eq!(kind_of_type(3), Some(ChannelKind::Input));
    assert_eq!(kind_of_type(4), Some(ChannelKind::Cursor));
    assert_eq!(kind_of_type(0), None);
    assert_eq!(kind_of_type(5), None);
    assert_eq!(kind_of_type(-1), None);
}

#[test]
fn empty_table_has_no_channels() {
    let t: Table = Channels::new();
    assert!(t.display_channel().is_none());
    assert!(t.input().is_none());
    assert!(t.main_channel().is_none());
    assert!(t.monitor_config_target().is_none());
}

#[test]
fn registered_channels_are_found_by_kind() {
    let mut t: Table = Channels::new();
    t.register(Channel::DisplayChannel("display"));
    assert_eq!(t.display_channel(), Some(&"display"));
    assert!(t.input().is_none());
    assert!(t.monitor_config_target().is_none());
    t.register(Channel::MainChannel("main"));
    t.register(Channel::InputChannel("input"));
    t.register(Channel::CursorChannel("cursor"));
    assert_eq!(t.main_channel(), Some(&"main"));
    assert_eq!(t.input(), Some(&"input"));
    assert_eq!(t.display_channel(), Some(&"display"));
    assert_eq!(t.monitor_config_target(), Some((&"main", &"display")));
}

#[test]
fn registering_again_replaces_the_channel_of_that_kind() {
    let mut t: Table = Channels::new();
    t.register(Channel::DisplayChannel("first"));
    t.register(Channel::InputChannel("input"));
    t.register(Channel::DisplayChannel("second"));
    assert_eq!(t.display_channel(), Some(&"second"));
    assert_eq!(t.input(), Some(&"input"));
}

#[test]
fn channel_kind_of_channel() {
    let c: Channel<u8, u8, u8, u8> = Channel::CursorChannel(0);
    assert_eq!(c.channel_kind(), ChannelKind::Cursor);
    let m: Channel<u8, u8, u8, u8> = Channel::MainChannel(0);
    assert_eq!(m.channel_kind(), ChannelKind::Main);
}

#[test]
fn channel_new_needs_the_channel_object() {
    assert!(channel_new_carries_channel(&vec![SignalArg::Object, SignalArg::Object]));
    assert!(!channel_new_carries_channel(&vec![SignalArg::Object]));
    assert!(!channel_new_carries_channel(&vec![SignalArg::Object, SignalArg::Int(1)]));
    assert!(!channel_new_carries_channel(&vec![]));
}

#[test]
fn plan_for_each_channel_type() {
    let t: Table = Channels::new();
    assert_eq!(
        plan_channel_new(Some(1), Some(&t)),
        ChannelNewPlan { kind: Some(ChannelKind::Main), connect: false, register: true, place_cursor: false }
    );
    assert_eq!(
        plan_channel_new(Some(2), Some(&t)),
        ChannelNewPlan { kind: Some(ChannelKind::Display), connect: true, register: true, place_cursor: false }
    );
    assert_eq!(
        plan_channel_new(Some(3), Some(&t)),
        ChannelNewPlan { kind: Some(ChannelKind::Input), connect: true, register: true, place_cursor: false }
    );
    assert_eq!(
        plan_channel_new(Some(4), Some(&t)),
        ChannelNewPlan { kind: Some(ChannelKind::Cursor), connect: true, register: true, place_cursor: false }
    );
    assert_eq!(
        plan_channel_new(Some(9), Some(&t)),
        ChannelNewPlan { kind: None, connect: false, register: false, place_cursor: false }
    );
    assert_eq!(
        plan_channel_new(None, Some(&t)),
        ChannelNewPlan { kind: None, connect: false, register: false, place_cursor: false }
    );
}

#[test]
fn inputs_channel_places_pointer_on_known_display() {
    let mut t: Table = Channels::new();
    t.register(Channel::DisplayChannel("display"));
    assert_eq!(
        plan_channel_new(Some(3), Some(&t)),
        ChannelNewPlan { kind: Some(ChannelKind::Input), connect: true, register: true, place_cursor: true }
    );
    assert!(!plan_channel_new(Some(4), Some(&t)).place_cursor);
}

#[test]
fn nothing_is_taken_up_without_the_table() {
    assert_eq!(
        plan_channel_new::<u8, u8, u8, u8>(Some(3), None),
        ChannelNewPlan { kind: Some(ChannelKind::Input), connect: true, register: false, place_cursor: false }
    );
    assert_eq!(
        plan_channel_new::<u8, u8, u8, u8>(Some(1), None),
        ChannelNewPlan { kind: Some(ChannelKind::Main), connect: false, register: false, place_cursor: false }
    );
}

#[test]
fn port_property_is_decimal() {
    assert_eq!(port_property(5930), "5930");
    assert_eq!(port_property(0), "0");
    assert_eq!(port_property(10), "10");
    assert_eq!(port_property(u32::MAX), "4294967295");
    for p in [1u32, 9, 99, 100, 65535, 123456789] {
        assert_eq!(port_property(p), p.to_string());
        assert_eq!(port_property(p).parse::<u32>().unwrap(), p);
    }
}

#[test]
fn session_takes_up_display_channels_only() {
    assert!(session_adopts_channel(Some(2), true));
    assert!(!session_adopts_channel(Some(2), false));
    assert!(!session_adopts_channel(Some(1), true));
    assert!(!session_adopts_channel(Some(3), true));
    assert!(!session_adopts_channel(None, true));
}

#[test]
fn monitor_config_places_display_at_origin() {
    assert_eq!(monitor_config_args(3, 1920, 1080), (3, 0, 0, 1920, 1080));
}
