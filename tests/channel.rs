use broadcast_bench::fanout::{
    broadcast_base, listeners_served, receive_now, FanOut, ReceiveError, CHANNEL_CAPACITY,
};
use tokio::sync::broadcast::error::SendError;

#[test]
fn every_early_subscriber_receives_the_value() {
    let (mut receivers, served) = broadcast_base(41u32, 10);
    assert_eq!(receivers.len(), 10);
    assert_eq!(served, 10);
    for rx in receivers.iter_mut() {
        assert_eq!(receive_now(rx), Ok(41));
        assert_eq!(receive_now(rx), Err(ReceiveError::Closed));
    }
}

#[test]
fn broadcast_to_nobody_reports_zero() {
    let (receivers, served) = broadcast_base(5u8, 0);
    assert!(receivers.is_empty());
    assert_eq!(served, 0);
}

#[test]
fn publish_without_subscribers_reports_zero() {
    let channel: FanOut<u8> = FanOut::new(4);
    assert_eq!(channel.publish(9), 0);
}

#[test]
fn publish_counts_live_subscribers() {
    let channel: FanOut<u8> = FanOut::new(4);
    let mut a = channel.subscribe();
    let b = channel.subscribe();
    let mut c = channel.subscribe();
    drop(b);
    assert_eq!(channel.publish(3), 2);
    assert_eq!(receive_now(&mut a), Ok(3));
    assert_eq!(receive_now(&mut c), Ok(3));
}

#[test]
fn late_subscriber_never_sees_earlier_value() {
    let channel: FanOut<u8> = FanOut::new(16);
    let mut early = channel.subscribe();
    assert_eq!(channel.publish(7), 1);
    let mut late = channel.subscribe();
    assert_eq!(receive_now(&mut late), Err(ReceiveError::Empty));
    drop(channel);
    assert_eq!(receive_now(&mut late), Err(ReceiveError::Closed));
    assert_eq!(receive_now(&mut early), Ok(7));
    assert_eq!(receive_now(&mut early), Err(ReceiveError::Closed));
}

#[test]
fn overflow_before_reading_lags() {
    let channel: FanOut<u32> = FanOut::new(4);
    let mut rx = channel.subscribe();
    for v in 0..5u32 {
        assert_eq!(channel.publish(v), 1);
    }
    assert_eq!(receive_now(&mut rx), Err(ReceiveError::Lagged(1)));
    assert_eq!(receive_now(&mut rx), Ok(1));
}

#[test]
fn overflow_of_benchmark_capacity_lags() {
    let channel: FanOut<u32> = FanOut::new(CHANNEL_CAPACITY);
    let mut rx = channel.subscribe();
    let buffer = CHANNEL_CAPACITY.next_power_of_two() as u32;
    for v in 0..buffer + 3 {
        channel.publish(v);
    }
    assert_eq!(receive_now(&mut rx), Err(ReceiveError::Lagged(3)));
    assert_eq!(receive_now(&mut rx), Ok(3));
}

#[test]
fn within_capacity_nothing_is_lost() {
    let channel: FanOut<u32> = FanOut::new(4);
    let mut rx = channel.subscribe();
    for v in 0..4u32 {
        channel.publish(v);
    }
    for v in 0..4u32 {
        assert_eq!(receive_now(&mut rx), Ok(v));
    }
    assert_eq!(receive_now(&mut rx), Err(ReceiveError::Empty));
}

#[test]
fn served_count_of_a_send() {
    let ok: Result<usize, SendError<u8>> = Ok(5);
    assert_eq!(listeners_served(ok), 5);
    let failed: Result<usize, SendError<u8>> = Err(SendError(5));
    assert_eq!(listeners_served(failed), 0);
}

#[test]
fn benchmark_capacity_value() {
    assert_eq!(CHANNEL_CAPACITY, 10000);
}
