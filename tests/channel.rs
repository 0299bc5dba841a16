use lapin_core::channel_state::{ChannelEvent, ChannelState, Correlation, TransitionError};
use lapin_core::channel_status::{ChannelStatus, StatusError};

fn tag(t: &str) -> Correlation {
    Correlation::ConsumerTag(t.to_string())
}

fn all_states() -> Vec<ChannelState> {
    vec![
        ChannelState::Initial,
        ChannelState::Connected,
        ChannelState::Closing,
        ChannelState::Closed,
        ChannelState::Error,
        ChannelState::SendingContent(0),
        ChannelState::SendingContent(3),
        ChannelState::WillReceiveContent(None, tag("consumer-1")),
        ChannelState::WillReceiveContent(Some("ex".to_string()), Correlation::Request(7)),
        ChannelState::ReceivingContent(None, Correlation::Request(1), 10),
    ]
}

#[test]
fn connected_only_for_live_states() {
    for s in all_states() {
        let dead = matches!(
            s,
            ChannelState::Initial | ChannelState::Closing | ChannelState::Closed | ChannelState::Error
        );
        let mut status = ChannelStatus::new();
        status.set_state(s.clone());
        assert_eq!(status.is_connected(), !dead, "{:?}", s);
        assert_eq!(s.is_connected(), !dead);
        assert_eq!(status.is_initializing(), s == ChannelState::Initial);
    }
}

#[test]
fn new_status_defaults() {
    let status = ChannelStatus::new();
    assert_eq!(status.state(), ChannelState::Initial);
    assert!(!status.confirm());
    assert!(status.send_flow());
    assert!(status.is_initializing());
    assert!(!status.is_connected());
    let d = ChannelStatus::default();
    assert_eq!(d.state(), ChannelState::Initial);
    assert_eq!(ChannelState::default(), ChannelState::Initial);
}

#[test]
fn state_reads_last_write() {
    let mut status = ChannelStatus::new();
    for s in all_states() {
        status.set_state(s.clone());
        assert_eq!(status.state(), s);
        status.set_send_flow(false);
        status.set_confirm();
        assert_eq!(status.state(), s);
    }
    status.set_state(ChannelState::Closing);
    status.set_state(ChannelState::SendingContent(2));
    assert_eq!(status.state(), ChannelState::SendingContent(2));
}

#[test]
fn confirm_is_sticky() {
    let mut status = ChannelStatus::new();
    assert!(!status.confirm());
    status.set_confirm();
    assert!(status.confirm());
    status.set_state(ChannelState::Error);
    status.set_send_flow(false);
    status.set_send_flow(true);
    status.set_confirm();
    assert!(status.confirm());
    assert!(status.clone().confirm());
}

#[test]
fn announced_content_goes_through_receiving() {
    let s = ChannelState::WillReceiveContent(None, tag("consumer-1"));
    let s = s.next(ChannelEvent::HeaderReceived(10)).unwrap();
    assert_eq!(s, ChannelState::ReceivingContent(None, tag("consumer-1"), 10));
    let s = s.next(ChannelEvent::BodyReceived(4)).unwrap();
    assert_eq!(s, ChannelState::ReceivingContent(None, tag("consumer-1"), 6));
    let s = s.next(ChannelEvent::BodyReceived(6)).unwrap();
    assert_eq!(s, ChannelState::Connected);
}

#[test]
fn announced_content_cannot_skip_to_connected() {
    let s = ChannelState::WillReceiveContent(None, tag("consumer-1"));
    assert_eq!(s.next(ChannelEvent::BodyReceived(0)), Err(TransitionError::Unexpected));
    assert_eq!(s.next(ChannelEvent::FrameSent), Err(TransitionError::Unexpected));
    assert_eq!(s.next(ChannelEvent::Opened), Err(TransitionError::Unexpected));
    let empty = s.next(ChannelEvent::HeaderReceived(0)).unwrap();
    assert_eq!(empty, ChannelState::ReceivingContent(None, tag("consumer-1"), 0));
    assert_eq!(empty.next(ChannelEvent::BodyReceived(0)), Ok(ChannelState::Connected));
}

#[test]
fn body_larger_than_announced_is_refused() {
    let s = ChannelState::ReceivingContent(None, Correlation::Request(3), 5);
    assert_eq!(s.next(ChannelEvent::BodyReceived(6)), Err(TransitionError::Unexpected));
}

#[test]
fn sending_counts_down_frames() {
    let s = ChannelState::Connected.next(ChannelEvent::StartSending(2)).unwrap();
    assert_eq!(s, ChannelState::SendingContent(2));
    let s = s.next(ChannelEvent::FrameSent).unwrap();
    assert_eq!(s, ChannelState::SendingContent(1));
    let s = s.next(ChannelEvent::FrameSent).unwrap();
    assert_eq!(s, ChannelState::Connected);
    assert_eq!(ChannelState::Connected.next(ChannelEvent::StartSending(0)), Ok(ChannelState::Connected));
}

#[test]
fn interrupted_transfer_ends_in_error() {
    let s = ChannelState::SendingContent(4);
    let s = s.next(ChannelEvent::Failed).unwrap();
    assert_eq!(s, ChannelState::Error);
    assert_eq!(s.next(ChannelEvent::StartSending(1)), Err(TransitionError::Terminal));
    assert_eq!(s.next(ChannelEvent::Opened), Err(TransitionError::Terminal));
}

#[test]
fn open_and_close_lifecycle() {
    let s = ChannelState::Initial.next(ChannelEvent::Opened).unwrap();
    assert_eq!(s, ChannelState::Connected);
    let s = s.next(ChannelEvent::CloseRequested).unwrap();
    assert_eq!(s, ChannelState::Closing);
    let s = s.next(ChannelEvent::CloseAcknowledged).unwrap();
    assert_eq!(s, ChannelState::Closed);
    assert_eq!(s.next(ChannelEvent::Failed), Err(TransitionError::Terminal));
    assert_eq!(ChannelState::Initial.next(ChannelEvent::CloseRequested), Err(TransitionError::Unexpected));
}

#[test]
fn flow_stop_holds_back_content_sends() {
    let mut status = ChannelStatus::new();
    assert_eq!(status.apply(ChannelEvent::Opened), Ok(()));
    status.set_send_flow(false);
    assert_eq!(status.apply(ChannelEvent::StartSending(3)), Err(StatusError::FlowStopped));
    assert_eq!(status.state(), ChannelState::Connected);
    status.set_send_flow(true);
    assert_eq!(status.apply(ChannelEvent::StartSending(3)), Ok(()));
    assert_eq!(status.state(), ChannelState::SendingContent(3));
    assert_eq!(
        status.apply(ChannelEvent::Opened),
        Err(StatusError::Refused(TransitionError::Unexpected))
    );
    assert_eq!(status.state(), ChannelState::SendingContent(3));
}
