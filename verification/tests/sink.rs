use fragile::InvalidThreadAccess;
use gstplugins::sink::{
    paintable_access, FlowError, FlowSuccess, InvalidCaps, PaintableError, PaintableSink, SinkProperty, StateChange,
    StateChangeError, ThreadBound,
};

type Sink = PaintableSink<String, u32, u8, Vec<u8>>;

#[test]
fn new_sink_is_empty() {
    let sink = Sink::new();
    assert!(sink.paintable.is_none());
    assert!(sink.info.is_none());
    assert!(sink.sender.is_none());
    assert!(sink.pending_frame.is_none());
    assert!(sink.needs_paintable());
}

#[test]
fn property_without_paintable_fails() {
    let sink = Sink::new();
    assert_eq!(sink.property(SinkProperty::Paintable), Err(PaintableError::NoPaintable));
}

#[test]
fn property_on_the_creating_thread_gives_the_paintable() {
    let mut sink = Sink::new();
    sink.set_paintable(ThreadBound::new("paintable".to_string()));
    assert!(!sink.needs_paintable());
    assert_eq!(sink.property(SinkProperty::Paintable), Ok(&"paintable".to_string()));
    let first = sink.property(SinkProperty::Paintable).unwrap();
    let second = sink.property(SinkProperty::Paintable).unwrap();
    assert!(std::ptr::eq(first, second));
    assert!(!sink.needs_paintable());
}

#[test]
fn paintable_access_maps_the_thread_check() {
    let p = 5u32;
    assert_eq!(paintable_access(Ok::<&u32, InvalidThreadAccess>(&p)), Ok(&5));
    assert_eq!(paintable_access::<u32>(Err(InvalidThreadAccess)), Err(PaintableError::WrongThread));
}

#[test]
fn show_frame_steps() {
    let mut sink = Sink::new();
    // No caps: not negotiated, nothing queued.
    assert_eq!(sink.negotiated_info(), Err(FlowError::NotNegotiated));
    assert_eq!(sink.pending_frame, None);
    // Caps and sender: the frame is queued and, once sent, shown.
    sink.set_caps::<()>(Ok(1)).unwrap();
    sink.set_sender(Some(2));
    assert_eq!(sink.negotiated_info(), Ok(&1));
    assert_eq!(sink.queue_frame(Ok(vec![9])), Ok(()));
    assert_eq!(Sink::frame_sent::<()>(Ok(())), Ok(FlowSuccess));
    assert_eq!(sink.pending_frame, Some(vec![9]));
    assert_eq!(sink.info, Some(1));
    assert_eq!(sink.sender, Some(2));
    // A frame that cannot be mapped keeps the earlier one.
    assert_eq!(sink.queue_frame(Err(FlowError::Error)), Err(FlowError::Error));
    assert_eq!(sink.pending_frame, Some(vec![9]));
    // A receiver that went away fails the buffer.
    assert_eq!(sink.queue_frame(Ok(vec![10])), Ok(()));
    assert_eq!(Sink::frame_sent::<&str>(Err("gone")), Err(FlowError::Error));
}

#[test]
fn property_names() {
    assert_eq!(SinkProperty::from_name("paintable"), Some(SinkProperty::Paintable));
    assert_eq!(SinkProperty::from_name("Paintable"), None);
    assert_eq!(SinkProperty::from_name(""), None);
}

#[test]
fn null_to_ready_needs_a_paintable() {
    let mut sink = Sink::new();
    assert!(sink.change_state_needs_paintable(StateChange::NullToReady));
    assert_eq!(sink.change_state_prepare(StateChange::NullToReady), Err(StateChangeError));
    assert!(!sink.change_state_needs_paintable(StateChange::ReadyToPaused));
    assert_eq!(sink.change_state_prepare(StateChange::ReadyToPaused), Ok(()));
    sink.set_paintable(ThreadBound::new("p".to_string()));
    assert!(!sink.change_state_needs_paintable(StateChange::NullToReady));
    assert_eq!(sink.change_state_prepare(StateChange::NullToReady), Ok(()));
}

#[test]
fn paused_to_ready_forgets_caps_and_frame() {
    let mut sink = Sink::new();
    assert_eq!(sink.set_caps::<()>(Ok(7)), Ok(()));
    sink.set_sender(Some(1));
    assert_eq!(sink.queue_frame(Ok(vec![1, 2])), Ok(()));
    let res: Result<u8, u8> = sink.change_state_complete(StateChange::PlayingToPaused, Ok(3));
    assert_eq!(res, Ok(3));
    assert_eq!(sink.info, Some(7));
    assert_eq!(sink.pending_frame, Some(vec![1, 2]));
    let res: Result<u8, u8> = sink.change_state_complete(StateChange::PausedToReady, Err(4));
    assert_eq!(res, Err(4));
    assert_eq!(sink.info, None);
    assert_eq!(sink.pending_frame, None);
    assert_eq!(sink.sender, Some(1));
}

#[test]
fn set_caps_keeps_info_or_refuses() {
    let mut sink = Sink::new();
    assert_eq!(sink.set_caps::<&str>(Err("not video")), Err(InvalidCaps));
    assert_eq!(sink.info, None);
    assert_eq!(sink.set_caps::<&str>(Ok(5)), Ok(()));
    assert_eq!(sink.set_caps::<&str>(Err("not video")), Err(InvalidCaps));
    assert_eq!(sink.info, Some(5));
    assert_eq!(sink.set_caps::<&str>(Ok(6)), Ok(()));
    assert_eq!(sink.info, Some(6));
}

#[test]
fn show_frame_needs_negotiated_caps() {
    let mut sink = Sink::new();
    assert_eq!(sink.negotiated_info(), Err(FlowError::NotNegotiated));
    sink.set_caps::<()>(Ok(9)).unwrap();
    assert_eq!(sink.negotiated_info(), Ok(&9));
}

#[test]
fn queue_frame_without_sender_keeps_the_frame_and_fails() {
    let mut sink = Sink::new();
    assert_eq!(sink.queue_frame(Ok(vec![1])), Err(FlowError::Error));
    assert_eq!(sink.pending_frame, Some(vec![1]));
    assert_eq!(sink.queue_frame(Err(FlowError::NotSupported)), Err(FlowError::NotSupported));
    assert_eq!(sink.pending_frame, Some(vec![1]));
    sink.set_sender(Some(3));
    assert_eq!(sink.queue_frame(Ok(vec![2])), Ok(()));
    assert_eq!(sink.pending_frame, Some(vec![2]));
}

#[test]
fn frame_sent_outcome() {
    assert_eq!(Sink::frame_sent::<()>(Ok(())), Ok(FlowSuccess));
    assert_eq!(Sink::frame_sent::<&str>(Err("closed")), Err(FlowError::Error));
}

#[test]
fn take_paintable_empties_the_slot() {
    let mut sink = Sink::new();
    assert!(sink.take_paintable().is_none());
    sink.set_paintable(ThreadBound::new("p".to_string()));
    let p = sink.take_paintable();
    assert!(p.is_some());
    assert!(sink.paintable.is_none());
    assert!(sink.needs_paintable());
}
