use texture_broker::bidir::{BidirChannel, ChannelError};
use texture_broker::error::{relay, BrokerError};

#[test]
fn try_recv_on_empty_channel_returns_empty() {
    let (first, second) = BidirChannel::<u32>::new_pair();
    assert_eq!(first.try_recv(), Err(ChannelError::Empty));
    assert_eq!(second.try_recv(), Err(ChannelError::Empty));
}

#[test]
fn send_after_peer_dropped_fails_with_peer_closed() {
    let (first, second) = BidirChannel::<u32>::new_pair();
    drop(second);
    assert_eq!(first.send(7), Err(ChannelError::PeerClosed));
}

#[test]
fn recv_after_peer_dropped_fails_with_peer_closed() {
    let (first, second) = BidirChannel::<u32>::new_pair();
    drop(second);
    assert_eq!(first.recv(), Err(ChannelError::PeerClosed));
}

#[test]
fn try_recv_after_peer_dropped_reports_peer_closed() {
    let (first, second) = BidirChannel::<u32>::new_pair();
    drop(first);
    assert_eq!(second.try_recv(), Err(ChannelError::PeerClosed));
}

#[test]
fn messages_sent_before_the_peer_dropped_are_still_received() {
    let (first, second) = BidirChannel::<u32>::new_pair();
    assert_eq!(first.send(1), Ok(()));
    assert_eq!(first.send(2), Ok(()));
    drop(first);
    assert_eq!(second.recv(), Ok(1));
    assert_eq!(second.try_recv(), Ok(2));
    assert_eq!(second.recv(), Err(ChannelError::PeerClosed));
}

#[test]
fn each_direction_is_first_in_first_out() {
    let (first, second) = BidirChannel::<u32>::new_pair();
    for value in 0..5 {
        assert_eq!(first.send(value), Ok(()));
        assert_eq!(second.send(100 + value), Ok(()));
    }
    for value in 0..5 {
        assert_eq!(second.recv(), Ok(value));
    }
    for value in 0..5 {
        assert_eq!(first.recv(), Ok(100 + value));
    }
}

#[test]
fn an_endpoint_does_not_receive_what_it_sent() {
    let (first, second) = BidirChannel::<u32>::new_pair();
    assert_eq!(first.send(9), Ok(()));
    assert_eq!(first.try_recv(), Err(ChannelError::Empty));
    assert_eq!(second.try_recv(), Ok(9));
    assert_eq!(second.try_recv(), Err(ChannelError::Empty));
}

#[test]
fn sent_and_received_map_the_outcomes() {
    assert_eq!(texture_broker::bidir::sent::<u32>(Ok(())), Ok(()));
    assert_eq!(texture_broker::bidir::sent(Err(3u32)), Err(ChannelError::PeerClosed));
    assert_eq!(texture_broker::bidir::received(Some(5u32)), Ok(5));
    assert_eq!(texture_broker::bidir::received::<u32>(None), Err(ChannelError::PeerClosed));
}

#[test]
fn relay_keeps_what_was_delivered_and_names_the_failure() {
    assert_eq!(relay(Ok::<u32, ChannelError>(5)), Ok(5));
    assert_eq!(relay(Ok::<(), ChannelError>(())), Ok(()));
    assert_eq!(relay(Err::<u32, ChannelError>(ChannelError::PeerClosed)), Err(BrokerError::PeerClosed));
}
