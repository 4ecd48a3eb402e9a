use camino::Utf8PathBuf;
use cargo_leptos::bus::{EventBus, Msg};
use cargo_leptos::watch::Watched;

#[test]
fn every_subscriber_gets_every_message() {
    let mut bus = EventBus::new(8);
    let a = bus.subscribe();
    let b = bus.subscribe();
    bus.publish(Msg::SrcChanged);
    assert_eq!(bus.recv(a), Some(Msg::SrcChanged));
    assert_eq!(bus.recv(b), Some(Msg::SrcChanged));
    assert_eq!(bus.recv(a), None);
    assert_eq!(bus.recv(b), None);
}

#[test]
fn subscribers_are_numbered_in_order() {
    let mut bus = EventBus::new(1);
    assert_eq!(bus.subscribe(), 0);
    assert_eq!(bus.subscribe(), 1);
    bus.unsubscribe(0);
    assert_eq!(bus.subscribe(), 2);
}

#[test]
fn messages_are_received_in_the_order_published() {
    let mut bus = EventBus::new(8);
    let a = bus.subscribe();
    bus.publish(Msg::SrcChanged);
    bus.publish(Msg::StyleChanged);
    bus.publish(Msg::Reload("reload".to_string()));
    assert_eq!(bus.recv(a), Some(Msg::SrcChanged));
    assert_eq!(bus.recv(a), Some(Msg::StyleChanged));
    assert_eq!(bus.recv(a), Some(Msg::Reload("reload".to_string())));
    assert_eq!(bus.recv(a), None);
}

#[test]
fn a_subscriber_sees_only_what_comes_after_it_joined() {
    let mut bus = EventBus::new(8);
    bus.publish(Msg::SrcChanged);
    let late = bus.subscribe();
    assert_eq!(bus.recv(late), None);
    bus.publish(Msg::StyleChanged);
    assert_eq!(bus.recv(late), Some(Msg::StyleChanged));
}

#[test]
fn publishing_without_subscribers_does_nothing() {
    let mut bus = EventBus::new(8);
    bus.publish(Msg::SrcChanged);
    assert!(!bus.is_shutdown());
    assert_eq!(bus.recv(0), None);
}

#[test]
fn a_full_mailbox_drops_the_message_for_that_subscriber_only() {
    let mut bus = EventBus::new(2);
    let slow = bus.subscribe();
    let quick = bus.subscribe();
    bus.publish(Msg::SrcChanged);
    assert_eq!(bus.recv(quick), Some(Msg::SrcChanged));
    bus.publish(Msg::StyleChanged);
    assert_eq!(bus.recv(quick), Some(Msg::StyleChanged));
    bus.publish(Msg::Reload("third".to_string()));
    assert_eq!(bus.recv(quick), Some(Msg::Reload("third".to_string())));
    assert_eq!(bus.recv(slow), Some(Msg::SrcChanged));
    assert_eq!(bus.recv(slow), Some(Msg::StyleChanged));
    assert_eq!(bus.recv(slow), None);
}

#[test]
fn a_bus_without_room_delivers_nothing() {
    let mut bus = EventBus::new(0);
    let a = bus.subscribe();
    bus.publish(Msg::ShutDown);
    assert_eq!(bus.recv(a), None);
    assert!(bus.is_shutdown());
}

#[test]
fn the_shutdown_message_raises_the_flag_for_good() {
    let mut bus = EventBus::new(4);
    let a = bus.subscribe();
    assert!(!bus.is_shutdown());
    bus.publish(Msg::SrcChanged);
    assert!(!bus.is_shutdown());
    bus.publish(Msg::ShutDown);
    assert!(bus.is_shutdown());
    bus.publish(Msg::ShutDown);
    bus.publish(Msg::SrcChanged);
    assert!(bus.is_shutdown());
    assert_eq!(bus.recv(a), Some(Msg::SrcChanged));
    assert_eq!(bus.recv(a), Some(Msg::ShutDown));
    assert!(bus.is_shutdown());
    bus.unsubscribe(a);
    let _ = bus.subscribe();
    assert!(bus.is_shutdown());
}

#[test]
fn a_subscriber_that_left_gets_nothing() {
    let mut bus = EventBus::new(4);
    let a = bus.subscribe();
    let b = bus.subscribe();
    bus.publish(Msg::SrcChanged);
    bus.unsubscribe(a);
    assert_eq!(bus.recv(a), None);
    bus.publish(Msg::StyleChanged);
    assert_eq!(bus.recv(a), None);
    assert_eq!(bus.recv(b), Some(Msg::SrcChanged));
    assert_eq!(bus.recv(b), Some(Msg::StyleChanged));
    bus.unsubscribe(a);
    bus.unsubscribe(17);
    assert_eq!(bus.recv(17), None);
}

#[test]
fn asset_changes_travel_whole() {
    let mut bus = EventBus::new(4);
    let a = bus.subscribe();
    let change = Watched::Rename(
        Utf8PathBuf::from("/p/assets/logo.png"),
        Utf8PathBuf::from("/p/assets/brand.png"),
    );
    bus.publish(Msg::AssetsChanged(change.clone()));
    assert_eq!(bus.recv(a), Some(Msg::AssetsChanged(change)));
}

#[test]
fn duplicate_gives_an_equal_message() {
    for msg in [
        Msg::ShutDown,
        Msg::Reload("why".to_string()),
        Msg::SrcChanged,
        Msg::StyleChanged,
        Msg::AssetsChanged(Watched::Create(Utf8PathBuf::from("/p/a"))),
    ] {
        assert_eq!(msg.duplicate(), msg);
    }
    assert!(Msg::ShutDown.is_shutdown());
    assert!(!Msg::SrcChanged.is_shutdown());
}
