use pisugar_server::broadcast::EventSlot;
use pisugar_server::request::TapKind;
use pisugar_server::session::{next_notice, request_line, strip_line_breaks};

#[test]
fn subscriber_sees_only_the_latest_event() {
    let mut slot = EventSlot::new();
    let mut c = slot.subscribe();
    assert_eq!(slot.take(&mut c), None);
    slot.publish(TapKind::Single);
    slot.publish(TapKind::Long);
    slot.publish(TapKind::Double);
    assert_eq!(slot.take(&mut c), Some(TapKind::Double));
    assert_eq!(slot.take(&mut c), None);
}

#[test]
fn subscribers_are_independent() {
    let mut slot = EventSlot::new();
    let mut a = slot.subscribe();
    slot.publish(TapKind::Single);
    let mut b = slot.subscribe();
    assert_eq!(next_notice(&slot, &mut b), None);
    assert_eq!(next_notice(&slot, &mut a), Some("single".to_string()));
    slot.publish(TapKind::Long);
    assert_eq!(next_notice(&slot, &mut b), Some("long".to_string()));
    assert_eq!(next_notice(&slot, &mut a), Some("long".to_string()));
}

#[test]
fn version_wraps_around() {
    let mut slot = EventSlot { latest: None, version: u64::MAX };
    let mut c = slot.subscribe();
    slot.publish(TapKind::Single);
    assert_eq!(slot.version, 0);
    assert_eq!(slot.take(&mut c), Some(TapKind::Single));
}

#[test]
fn line_breaks_are_stripped() {
    assert_eq!(strip_line_breaks("get model\r\n"), "get model");
    assert_eq!(strip_line_breaks("a\nb\rc"), "abc");
    assert_eq!(request_line("get battery\n"), Some("get battery".to_string()));
    assert_eq!(request_line("\r\n"), None);
    assert_eq!(request_line(""), None);
}

#[test]
fn poll_tick_publishes_only_detected_events() {
    let mut slot = EventSlot::new();
    let mut c = slot.subscribe();
    assert!(!slot.record_tick(None));
    assert_eq!(slot.version, 0);
    assert_eq!(slot.take(&mut c), None);
    assert!(slot.record_tick(Some(TapKind::Long)));
    assert!(!slot.record_tick(None));
    assert_eq!(slot.take(&mut c), Some(TapKind::Long));
}
