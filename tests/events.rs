use eocker_registry::channel::{
    new_channel_map, send, ChannelMap, DataType, Event, Method, Ref, SUBSCRIBER_CAPACITY,
};

fn publish_n(cm: &mut ChannelMap, ns: &str, from: usize, to: usize) {
    for i in from..to {
        send(
            &ns.to_string(),
            DataType::Blob,
            Method::Get,
            200,
            format!("d{}", i),
            None,
            cm,
        );
    }
}

fn drain(cm: &mut ChannelMap, id: u64) -> Vec<String> {
    let mut out = Vec::new();
    while let Some(e) = cm.next_event(id) {
        out.push(e.identifier);
    }
    out
}

fn ids(from: usize, to: usize) -> Vec<String> {
    (from..to).map(|i| format!("d{}", i)).collect()
}

#[test]
fn publish_without_topic_is_dropped() {
    let mut cm = new_channel_map();
    publish_n(&mut cm, "foo", 0, 3);
    let sub = cm.subscribe("foo".to_string()).unwrap();
    assert!(cm.next_event(sub).is_none());
}

#[test]
fn late_subscriber_sees_only_later_events() {
    let mut cm = new_channel_map();
    let early = cm.subscribe("foo".to_string()).unwrap();
    publish_n(&mut cm, "foo", 0, 4);
    let late = cm.subscribe("foo".to_string()).unwrap();
    publish_n(&mut cm, "foo", 4, 6);
    assert_eq!(drain(&mut cm, late), ids(4, 6));
    assert_eq!(drain(&mut cm, early), ids(0, 6));
}

#[test]
fn events_arrive_in_publish_order() {
    let mut cm = new_channel_map();
    let sub = cm.subscribe("foo".to_string()).unwrap();
    publish_n(&mut cm, "foo", 0, 3);
    assert_eq!(cm.next_event(sub).unwrap().identifier, "d0");
    publish_n(&mut cm, "foo", 3, 5);
    assert_eq!(drain(&mut cm, sub), ids(1, 5));
}

#[test]
fn full_buffer_drops_newest_events() {
    let mut cm = new_channel_map();
    let slow = cm.subscribe("foo".to_string()).unwrap();
    publish_n(&mut cm, "foo", 0, SUBSCRIBER_CAPACITY + 5);
    assert_eq!(drain(&mut cm, slow), ids(0, SUBSCRIBER_CAPACITY));
    publish_n(&mut cm, "foo", 100, 101);
    assert_eq!(drain(&mut cm, slow), ids(100, 101));
}

#[test]
fn topics_are_separate() {
    let mut cm = new_channel_map();
    let a = cm.subscribe("a".to_string()).unwrap();
    let b = cm.subscribe("b".to_string()).unwrap();
    publish_n(&mut cm, "a", 0, 2);
    assert_eq!(drain(&mut cm, a), ids(0, 2));
    assert!(drain(&mut cm, b).is_empty());
}

#[test]
fn unsubscribed_stream_gets_nothing() {
    let mut cm = new_channel_map();
    let a = cm.subscribe("foo".to_string()).unwrap();
    let b = cm.subscribe("foo".to_string()).unwrap();
    publish_n(&mut cm, "foo", 0, 1);
    cm.unsubscribe(a);
    publish_n(&mut cm, "foo", 1, 2);
    assert!(cm.next_event(a).is_none());
    assert_eq!(drain(&mut cm, b), ids(0, 2));
}

#[test]
fn event_fields_are_kept() {
    let mut cm = new_channel_map();
    let sub = cm.subscribe("r".to_string()).unwrap();
    let refs = vec![Ref {
        data_type: DataType::Upload,
        repo: "r".to_string(),
        identifier: "u".to_string(),
    }];
    send(
        &"r".to_string(),
        DataType::Blob,
        Method::Put,
        201,
        "sha256:x".to_string(),
        Some(refs),
        &mut cm,
    );
    let e: Event = cm.next_event(sub).unwrap();
    assert_eq!(e.data_type, DataType::Blob);
    assert_eq!(e.method, Method::Put);
    assert_eq!(e.status, 201);
    assert_eq!(e.repo, "r");
    assert_eq!(e.identifier, "sha256:x");
    let copy = e.duplicate();
    let r = &copy.refs.as_ref().unwrap()[0];
    assert_eq!(r.data_type, DataType::Upload);
    assert_eq!(r.identifier, "u");
    assert_eq!(DataType::Upload.as_str(), "Upload");
    assert_eq!(Method::Patch.as_str(), "PATCH");
}
