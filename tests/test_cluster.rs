use conversation::{
    channel, Cluster, ClusterError, ClusterMessage, Content, Flow, HandleList, Input, IntoContent, RecvError, Unit,
};

struct Dummy;

impl Unit for Dummy {
    fn on_message(&mut self, _: Content) {}
    fn on_message_with_reply(&mut self, _: Content) -> Content {
        ().into_content()
    }
}

struct DummyString;

impl Unit for DummyString {
    fn on_message(&mut self, _: Content) {}
    fn on_message_with_reply(&mut self, _: Content) -> Content {
        String::from("String").into_content()
    }
}

struct DummyI32;

impl Unit for DummyI32 {
    fn on_message(&mut self, _: Content) {}
    fn on_message_with_reply(&mut self, _: Content) -> Content {
        1.into_content()
    }
}

/// Any actor, as the background thread hosts them.
struct Hosted(Box<dyn Unit>);

impl Unit for Hosted {
    fn on_message(&mut self, data: Content) {
        self.0.on_message(data)
    }
    fn on_message_with_reply(&mut self, data: Content) -> Content {
        self.0.on_message_with_reply(data)
    }
}

type Control<H> = crossbeam_channel::Receiver<ClusterMessage<H>>;

fn new_cluster<H>() -> (Cluster<H>, Control<H>) {
    let (send, recv) = crossbeam_channel::unbounded();
    (Cluster::new(send), recv)
}

fn register<H>(group: &mut Cluster<H>, id: &'static str, obj: H) -> Result<(), ClusterError<'static>> {
    let (tx, rx) = channel();
    group.add_unique(id, obj, tx, rx)
}

/// Moves every pending control message into the host list, as the
/// background thread does, and tags the entries in order from 1.
fn drain_control<H>(control: &Control<H>, handles: &mut HandleList<H>) {
    while let Ok(msg) = control.try_recv() {
        assert!(handles.on_control(Ok(msg)));
    }
    let tags: Vec<usize> = (1..=handles.len()).collect();
    handles.retag(&tags);
}

#[test]
fn manage_cluster() {
    let (mut group, _control) = new_cluster();

    register(&mut group, "test", Dummy).unwrap();
    assert!(register(&mut group, "test", Dummy).is_err());

    group.remove("test").unwrap();
    assert!(group.remove("test").is_err());

    register(&mut group, "1", Dummy).unwrap();
    register(&mut group, "2", Dummy).unwrap();

    group.remove("1").unwrap();
    group.remove("2").unwrap();
}

#[test]
fn send_to() {
    let (mut group, _control) = new_cluster();

    register(&mut group, "i32", Hosted(Box::new(DummyI32))).unwrap();
    register(&mut group, "String", Hosted(Box::new(DummyString))).unwrap();

    group.send_to("i32", ()).unwrap();
    group.send_to("String", ()).unwrap();

    assert!(group.send_to("foo", ()).is_err());
}

#[test]
fn send_to_with_reply() {
    let (mut group, control) = new_cluster();
    let mut handles = HandleList::new();

    // On one thread the actor cannot answer while the caller blocks, so each
    // actor is served a request ahead of the caller's own: the reply the
    // caller receives is the actor's answer to that earlier request.
    let (tx_i32, rx_i32) = channel();
    let early_i32 = tx_i32.clone();
    group.add_unique("i32", Hosted(Box::new(DummyI32)), tx_i32, rx_i32).unwrap();
    let (tx_str, rx_str) = channel();
    let early_str = tx_str.clone();
    group.add_unique("String", Hosted(Box::new(DummyString)), tx_str, rx_str).unwrap();
    drain_control(&control, &mut handles);

    assert!(early_i32.send_msg_with_reply(()).is_ok());
    assert_eq!(handles.serve(1).map(|s| s.flow), Some(Flow::Continue));
    let rep: i32 = group.send_to_with_reply("i32", ()).unwrap();
    assert_eq!(rep, 1);

    assert!(early_str.send_msg_with_reply(()).is_ok());
    assert_eq!(handles.serve(2).map(|s| s.flow), Some(Flow::Continue));
    let rep: String = group.send_to_with_reply("String", ()).unwrap();
    assert_eq!(rep, "String");

    assert_eq!(handles.serve(2).map(|s| s.flow), Some(Flow::Continue));
    let rep: Result<i32, ClusterError> = group.send_to_with_reply("String", ());
    assert!(matches!(rep, Err(ClusterError::ContentConversionError)));

    assert!(group.send_to("foo", ()).is_err());
}

#[test]
fn missing_name_is_not_found() {
    let (mut group, _control) = new_cluster();
    register(&mut group, "i32", DummyI32).unwrap();

    assert!(matches!(group.send_to("missing", ()), Err(ClusterError::IdNotFound("missing"))));
    let rep: Result<i32, ClusterError> = group.send_to_with_reply("missing", ());
    assert!(matches!(rep, Err(ClusterError::IdNotFound("missing"))));
}

#[test]
fn second_registration_is_refused_until_removal() {
    let (mut group, control) = new_cluster();
    register(&mut group, "test", Dummy).unwrap();
    assert!(matches!(register(&mut group, "test", Dummy), Err(ClusterError::IdAlreadyUsed("test"))));
    // The refused actor never reached the background thread.
    assert!(matches!(control.try_recv(), Ok(ClusterMessage::NewMessageEvent(_))));
    assert!(control.try_recv().is_err());

    group.remove("test").unwrap();
    assert!(register(&mut group, "test", Dummy).is_ok());
}

#[test]
fn repeated_removal_is_not_found_and_keeps_others() {
    let (mut group, _control) = new_cluster();
    register(&mut group, "a", Dummy).unwrap();
    register(&mut group, "b", Dummy).unwrap();

    group.remove("a").unwrap();
    assert!(matches!(group.remove("a"), Err(ClusterError::IdNotFound("a"))));
    assert!(matches!(group.remove("a"), Err(ClusterError::IdNotFound("a"))));

    assert!(group.send_to("b", ()).is_ok());
    assert!(group.remove("b").is_ok());
}

#[test]
fn removal_disconnects_the_actor() {
    let (mut group, control) = new_cluster();
    let mut handles = HandleList::new();
    register(&mut group, "a", Dummy).unwrap();
    drain_control(&control, &mut handles);

    group.remove("a").unwrap();
    assert_eq!(handles.serve(1).map(|s| s.flow), Some(Flow::Terminate));
    assert_eq!(handles.len(), 0);
}

#[test]
fn registration_fails_without_background_thread() {
    let (mut group, control) = new_cluster();
    drop(control);
    assert!(matches!(register(&mut group, "a", Dummy), Err(ClusterError::RegistrationError)));
    // The name was not recorded.
    assert!(matches!(group.send_to("a", ()), Err(ClusterError::IdNotFound("a"))));
}

#[test]
fn unnamed_registration_is_refused() {
    let (mut group, control) = new_cluster();
    let (tx, rx) = channel();
    assert!(matches!(group.add_named(None, Dummy, tx, rx), Err(ClusterError::UnsetIdError)));
    assert!(control.try_recv().is_err());

    let (tx, rx) = channel();
    assert!(group.add_named(Some("named"), Dummy, tx, rx).is_ok());
    assert!(group.send_to("named", ()).is_ok());
}

#[test]
fn send_to_a_closed_queue_is_already_disconnected() {
    let (mut group, control) = new_cluster::<Dummy>();
    register(&mut group, "a", Dummy).unwrap();
    // Dropping the host side drops the actor's receiver with it.
    drop(control);
    assert!(matches!(group.send_to("a", ()), Err(ClusterError::AlreadyDisconnected)));
    let rep: Result<(), ClusterError> = group.send_to_with_reply("a", ());
    assert!(matches!(rep, Err(ClusterError::AlreadyDisconnected)));
}

#[test]
fn control_queue_drives_the_host_list() {
    let mut handles: HandleList<Dummy> = HandleList::new();
    let (_tx, rx) = channel();
    let handle = conversation::MessageEventHandle::new(Dummy, rx);
    assert!(handles.on_control(Ok(ClusterMessage::NewMessageEvent(handle))));
    assert_eq!(handles.len(), 1);
    assert!(!handles.on_control(Ok(ClusterMessage::Stop)));
    assert!(!handles.on_control(Err(RecvError)));
    assert_eq!(handles.len(), 1);
}

#[test]
fn host_list_serves_and_evicts_by_tag() {
    let mut handles: HandleList<Dummy> = HandleList::new();
    let (tx_a, rx_a) = channel();
    let (tx_b, rx_b) = channel();
    handles.add(conversation::MessageEventHandle::new(Dummy, rx_a));
    handles.add(conversation::MessageEventHandle::new(Dummy, rx_b));
    handles.retag(&vec![3, 5]);

    assert_eq!(handles.find(5), Some(1));
    assert_eq!(handles.find(4), None);
    assert!(handles.serve(4).is_none());

    assert!(tx_b.send_msg(()).is_ok());
    assert_eq!(handles.serve(5).map(|s| s.flow), Some(Flow::Continue));
    assert_eq!(handles.len(), 2);

    drop(tx_a);
    assert_eq!(handles.serve(3).map(|s| s.flow), Some(Flow::Terminate));
    assert_eq!(handles.len(), 1);
    assert_eq!(handles.find(5), Some(0));

    drop(tx_b);
    assert_eq!(handles.serve(5).map(|s| s.flow), Some(Flow::Terminate));
    assert_eq!(handles.len(), 0);
}

#[test]
fn stop_reaches_the_background_thread() {
    let (group, control) = new_cluster::<Dummy>();
    group.stop();
    let mut handles = HandleList::new();
    assert!(!handles.on_control(control.try_recv().map_err(|_| RecvError)));
}

#[test]
fn routing_by_name() {
    let (mut group, control) = new_cluster();
    let mut handles = HandleList::new();

    let (tx_i32, rx_i32) = channel();
    let early_i32 = tx_i32.clone();
    group.add_unique("i32", Hosted(Box::new(DummyI32)), tx_i32, rx_i32).unwrap();
    register(&mut group, "String", Hosted(Box::new(DummyString))).unwrap();
    drain_control(&control, &mut handles);

    // Each reply below is the actor's answer to the request ahead of it.
    assert!(early_i32.send_msg_with_reply(()).is_ok());
    assert_eq!(handles.serve(1).map(|s| s.flow), Some(Flow::Continue));
    let rep: i32 = group.send_to_with_reply("i32", ()).unwrap();
    assert_eq!(rep, 1);

    assert_eq!(handles.serve(1).map(|s| s.flow), Some(Flow::Continue));
    let rep: Result<String, ClusterError> = group.send_to_with_reply("i32", ());
    assert!(matches!(rep, Err(ClusterError::ContentConversionError)));

    assert!(matches!(group.send_to("missing", ()), Err(ClusterError::IdNotFound("missing"))));
}

#[test]
fn failed_reply_evicts_only_that_actor() {
    let mut handles: HandleList<DummyI32> = HandleList::new();
    let (tx_a, rx_a) = channel();
    let (tx_b, rx_b) = channel();
    handles.add(conversation::MessageEventHandle::new(DummyI32, rx_a));
    handles.add(conversation::MessageEventHandle::new(DummyI32, rx_b));
    handles.retag(&vec![1, 2]);

    // The only sender of the first channel leaves after its request, so the
    // reply cannot be pushed.
    assert!(tx_a.send_msg_with_reply(()).is_ok());
    drop(tx_a);
    let step = handles.serve(1).unwrap();
    assert_eq!(step.input, Input::WithReply);
    assert!(matches!(step.pushed, Some(Err(_))));
    assert_eq!(step.flow, Flow::Terminate);
    assert_eq!(handles.len(), 1);
    assert_eq!(handles.find(2), Some(0));

    assert!(tx_b.send_msg_with_reply(()).is_ok());
    let step = handles.serve(2).unwrap();
    assert_eq!(step.flow, Flow::Continue);
    assert_eq!(tx_b.recv_reply().unwrap().into::<i32>(), Some(1));
}

#[test]
fn disconnect_evicts_only_that_actor() {
    let mut handles: HandleList<Dummy> = HandleList::new();
    let (tx_a, rx_a) = channel();
    let (_tx_b, rx_b) = channel();
    handles.add(conversation::MessageEventHandle::new(Dummy, rx_a));
    handles.add(conversation::MessageEventHandle::new(Dummy, rx_b));

    tx_a.disconnect();
    let msg = Ok(conversation::Message::Disconnect);
    let step = handles.serve_message(0, msg);
    assert_eq!(step.input, Input::Disconnect);
    assert_eq!(step.flow, Flow::Terminate);
    assert_eq!(handles.len(), 1);

    let step = handles.serve_message(0, Ok(conversation::IntoMessage::into_msg(())));
    assert_eq!(step.input, Input::Simple);
    assert_eq!(step.flow, Flow::Continue);
    assert_eq!(handles.len(), 1);
}

#[test]
fn refused_registration_keeps_the_first_binding() {
    let (mut group, control) = new_cluster();
    let mut handles = HandleList::new();

    let (tx, rx) = channel();
    let early = tx.clone();
    group.add_unique("test", Hosted(Box::new(DummyI32)), tx, rx).unwrap();
    let (tx2, rx2) = channel();
    let other = tx2.clone();
    assert!(matches!(
        group.add_unique("test", Hosted(Box::new(DummyString)), tx2, rx2),
        Err(ClusterError::IdAlreadyUsed("test"))
    ));
    drain_control(&control, &mut handles);
    assert_eq!(handles.len(), 1);

    // The name still routes to the first actor's channel.
    assert!(early.send_msg_with_reply(()).is_ok());
    assert_eq!(handles.serve(1).map(|s| s.flow), Some(Flow::Continue));
    let rep: i32 = group.send_to_with_reply("test", ()).unwrap();
    assert_eq!(rep, 1);
    // The refused actor's channel has no receiver left.
    assert!(other.send_msg(()).is_err());
}
