use xwayland_satellite::events::EventQueue;
use xwayland_satellite::shunt::method_name;

#[test]
fn tablet_smoke_test() {
    let (seat, tablet, tool, pad, group) = (1, 102, 103, 104, 105);
    let mut queue: EventQueue<String> = EventQueue::new();
    // The compositor announces its tablets, and describes them at once.
    queue.push_event(seat, "tablet_added".into());
    queue.push_or_queue_event(tablet, "name tabby".into());
    queue.push_or_queue_event(tablet, "done".into());
    queue.push_event(seat, "tool_added".into());
    queue.push_or_queue_event(tool, "type finger".into());
    queue.push_or_queue_event(tool, "done".into());
    queue.push_event(seat, "pad_added".into());
    queue.push_or_queue_event(pad, "buttons 5".into());
    queue.push_or_queue_event(pad, "group".into());
    queue.push_or_queue_event(pad, "done".into());
    queue.push_or_queue_event(group, "buttons".into());
    queue.push_or_queue_event(group, "ring".into());
    queue.push_or_queue_event(group, "strip".into());
    queue.push_or_queue_event(group, "done".into());

    let texts = |events: Vec<(u64, String)>, of: u64| -> Vec<String> {
        events
            .into_iter()
            .map(|(entity, event)| {
                assert_eq!(entity, of);
                event
            })
            .collect()
    };
    assert_eq!(
        texts(queue.read_events(), seat),
        ["tablet_added", "tool_added", "pad_added"]
    );
    assert!(queue.read_events().is_empty());

    queue.init(tablet, 2);
    assert_eq!(texts(queue.read_events(), 2), ["name tabby", "done"]);
    queue.init(tool, 3);
    assert_eq!(texts(queue.read_events(), 3), ["type finger", "done"]);
    queue.init(pad, 4);
    assert_eq!(texts(queue.read_events(), 4), ["buttons 5", "group", "done"]);
    queue.init(group, 5);
    assert_eq!(
        texts(queue.read_events(), 5),
        ["buttons", "ring", "strip", "done"]
    );
    assert!(queue.late.is_empty());
}

#[test]
fn settled_objects_do_not_wait() {
    let mut queue: EventQueue<u32> = EventQueue::new();
    assert_eq!(queue.get(100), None);
    queue.push_or_queue_event(100, 1);
    queue.push_or_queue_event(200, 2);
    queue.init(100, 7);
    assert_eq!(queue.get(100), Some(7));
    queue.push_or_queue_event(100, 3);
    // What did not wait comes first.
    assert_eq!(queue.read_events(), vec![(7, 3), (7, 1)]);
    queue.init(200, 8);
    assert_eq!(queue.read_events(), vec![(8, 2)]);
}

#[test]
fn methods_are_named_after_events() {
    assert_eq!(method_name(b"HardwareIdWacom"), b"hardware_id_wacom");
    assert_eq!(method_name(b"Done"), b"done");
    assert_eq!(method_name(b"Type"), b"_type");
    assert_eq!(method_name(b"type"), b"_type");
    assert_eq!(method_name(b""), b"");
}
