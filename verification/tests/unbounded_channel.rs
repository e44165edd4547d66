use std::collections::HashMap;
use std::task::{Context, Poll, Waker};

use tokio_sticky_channel::{
    unbounded_sticky_channel, QueueState, SendError, TryRecvError, UnboundedReceiver,
};

/// Receives as a task would that is polled once: the tests call it only
/// where the queue holds a message or is closed.
fn recv<T>(receiver: &mut UnboundedReceiver<T>) -> Option<T> {
    let mut cx = Context::from_waker(Waker::noop());
    match receiver.poll_recv(&mut cx) {
        Poll::Ready(message) => message,
        Poll::Pending => panic!("the queue is open and empty"),
    }
}

fn recv_many<T>(receiver: &mut UnboundedReceiver<T>, buffer: &mut Vec<T>, limit: usize) -> usize {
    let mut cx = Context::from_waker(Waker::noop());
    match receiver.poll_recv_many(&mut cx, buffer, limit) {
        Poll::Ready(count) => count,
        Poll::Pending => panic!("the queue is open and empty"),
    }
}

#[derive(Hash, PartialEq, Eq)]
struct UserId {
    id: u64,
    tenant: String,
}

#[test]
fn test_deterministic_routing_with_large_dataset() {
    let (sender, mut receivers) = unbounded_sticky_channel::<u64, u64>(5);

    let test_data: Vec<u64> = (0..1000).collect();
    let mut routing_table: HashMap<u64, usize> = HashMap::new();

    for &id in &test_data {
        sender.send(&id, id).unwrap();
    }

    drop(sender);

    for (receiver_idx, receiver) in receivers.iter_mut().enumerate() {
        while let Some(value) = recv(receiver) {
            if let Some(&previous_receiver) = routing_table.get(&value) {
                assert_eq!(
                    previous_receiver, receiver_idx,
                    "Value {} routed to receiver {} but was previously routed to receiver {}",
                    value, receiver_idx, previous_receiver
                );
            } else {
                routing_table.insert(value, receiver_idx);
            }
        }
    }

    assert_eq!(
        routing_table.len(),
        1000,
        "All values should be received exactly once"
    );
}

#[test]
fn test_single_consumer_channel() {
    let (sender, mut receivers) = unbounded_sticky_channel::<i32, &str>(1);

    assert_eq!(receivers.len(), 1);

    sender.send(&42, "hello").unwrap();
    sender.send(&100, "world").unwrap();

    let msg1 = recv(&mut receivers[0]).unwrap();
    let msg2 = recv(&mut receivers[0]).unwrap();

    assert_eq!(msg1, "hello");
    assert_eq!(msg2, "world");
}

#[test]
fn test_multiple_consumer_channel() {
    let (sender, receivers) = unbounded_sticky_channel::<i32, i32>(3);

    assert_eq!(receivers.len(), 3);

    for i in 0..10 {
        sender.send(&i, i * 10).unwrap();
    }

    drop(sender);

    let mut total_received = 0;
    for mut receiver in receivers {
        while let Some(_) = recv(&mut receiver) {
            total_received += 1;
        }
    }

    assert_eq!(total_received, 10);
}

#[test]
fn test_message_routing_consistency() {
    let (sender, mut receivers) = unbounded_sticky_channel::<&str, i32>(4);

    let test_ids = vec!["user1", "user2", "user3", "user1", "user2", "user1"];
    let mut routing_map: HashMap<String, usize> = HashMap::new();

    for (i, id) in test_ids.iter().enumerate() {
        sender.send(id, i as i32).unwrap();
    }

    drop(sender);

    for (receiver_idx, receiver) in receivers.iter_mut().enumerate() {
        while let Some(msg_idx) = recv(receiver) {
            let sent_id = &test_ids[msg_idx as usize];
            if let Some(&prev_receiver) = routing_map.get(&sent_id.to_string()) {
                assert_eq!(
                    prev_receiver, receiver_idx,
                    "ID '{}' should always route to the same receiver",
                    sent_id
                );
            } else {
                routing_map.insert(sent_id.to_string(), receiver_idx);
            }
        }
    }

    assert!(routing_map.contains_key("user1"));
    assert!(routing_map.contains_key("user2"));
    assert!(routing_map.contains_key("user3"));
}

#[test]
fn test_distribution_across_receivers() {
    let (sender, mut receivers) = unbounded_sticky_channel::<i32, i32>(3);

    for i in 0..100 {
        sender.send(&i, i).unwrap();
    }

    drop(sender);

    let mut counts = vec![0; 3];
    for (idx, receiver) in receivers.iter_mut().enumerate() {
        while let Some(_) = recv(receiver) {
            counts[idx] += 1;
        }
    }

    assert_eq!(counts.iter().sum::<i32>(), 100);
    assert!(
        counts.iter().all(|&count| count > 0),
        "All receivers should get at least one message with 100 messages across 3 receivers"
    );
}

#[test]
fn test_custom_hashable_types() {
    let (sender, receivers) = unbounded_sticky_channel::<UserId, String>(2);

    let user1 = UserId {
        id: 1,
        tenant: "tenant_a".to_string(),
    };
    let user2 = UserId {
        id: 1,
        tenant: "tenant_b".to_string(),
    };

    sender.send(&user1, "message1".to_string()).unwrap();
    sender.send(&user2, "message2".to_string()).unwrap();
    sender.send(&user1, "message3".to_string()).unwrap();

    drop(sender);

    let mut user1_messages = Vec::new();
    let mut user2_messages = Vec::new();

    for mut receiver in receivers {
        while let Some(msg) = recv(&mut receiver) {
            if msg.contains("1") || msg.contains("3") {
                user1_messages.push(msg);
            } else {
                user2_messages.push(msg);
            }
        }
    }

    assert_eq!(user1_messages.len(), 2);
    assert_eq!(user2_messages.len(), 1);
}

#[test]
fn test_send_after_receiver_dropped() {
    let (sender, receivers) = unbounded_sticky_channel::<i32, i32>(2);

    drop(receivers);

    let result = sender.send(&42, 100);
    assert!(matches!(result, Err(SendError::ChannelClosed(_))));
    if let Err(SendError::ChannelClosed(value)) = result {
        assert_eq!(value, 100);
    }
}

#[test]
fn test_try_recv_empty_channel() {
    let (sender, mut receivers) = unbounded_sticky_channel::<i32, i32>(1);

    let result = receivers[0].try_recv();
    assert!(matches!(result, Err(TryRecvError::Empty)));
    assert_eq!(receivers[0].state(), QueueState::Open);

    drop(sender);
}

#[test]
fn test_try_recv_disconnected_channel() {
    let (sender, mut receivers) = unbounded_sticky_channel::<i32, i32>(1);

    drop(sender);

    let result = receivers[0].try_recv();
    assert!(matches!(result, Err(TryRecvError::Disconnected)));
    assert_eq!(receivers[0].state(), QueueState::Closed);
}

#[test]
fn test_send_after_all_receivers_dropped() {
    let (sender, receivers) = unbounded_sticky_channel::<&str, String>(3);

    sender.send(&"test", "message1".to_string()).unwrap();

    drop(receivers);

    let result = sender.send(&"test", "message2".to_string());
    assert!(matches!(result, Err(SendError::ChannelClosed(_))));
}

#[test]
fn test_recv_method() {
    let (sender, mut receivers) = unbounded_sticky_channel::<i32, String>(1);

    sender.send(&42, "test_message".to_string()).unwrap();
    drop(sender);

    let message = recv(&mut receivers[0]);
    assert_eq!(message, Some("test_message".to_string()));

    let no_message = recv(&mut receivers[0]);
    assert_eq!(no_message, None);
}

#[test]
fn test_recv_many_method() {
    let (sender, mut receivers) = unbounded_sticky_channel::<i32, i32>(1);

    for i in 0..10 {
        sender.send(&0, i).unwrap();
    }
    drop(sender);

    let mut buffer = Vec::new();
    let count = recv_many(&mut receivers[0], &mut buffer, 5);
    assert_eq!(count, 5);
    assert_eq!(buffer.len(), 5);

    let count2 = recv_many(&mut receivers[0], &mut buffer, 10);
    assert_eq!(count2, 5);
    assert_eq!(buffer.len(), 10);

    let count3 = recv_many(&mut receivers[0], &mut buffer, 5);
    assert_eq!(count3, 0);
    assert_eq!(buffer.len(), 10);
    assert_eq!(buffer, (0..10).collect::<Vec<i32>>());
}

#[test]
fn test_try_recv_success() {
    let (sender, mut receivers) = unbounded_sticky_channel::<i32, i32>(1);

    sender.send(&42, 100).unwrap();

    let result = receivers[0].try_recv();
    assert_eq!(result.unwrap(), 100);

    let empty_result = receivers[0].try_recv();
    assert!(matches!(empty_result, Err(TryRecvError::Empty)));
}

#[test]
fn test_receiver_close_method() {
    let (sender, mut receivers) = unbounded_sticky_channel::<i32, i32>(1);

    sender.send(&42, 100).unwrap();
    sender.send(&42, 200).unwrap();

    receivers[0].close();
    assert_eq!(receivers[0].state(), QueueState::Draining);

    let result1 = sender.send(&42, 300);
    assert!(matches!(result1, Err(SendError::ChannelClosed(300))));

    let msg1 = recv(&mut receivers[0]);
    assert_eq!(msg1, Some(100));

    let msg2 = recv(&mut receivers[0]);
    assert_eq!(msg2, Some(200));

    let msg3 = recv(&mut receivers[0]);
    assert_eq!(msg3, None);
    assert_eq!(receivers[0].state(), QueueState::Closed);
}

#[test]
fn test_cancel_safety_with_select() {
    let (sender, mut receivers) = unbounded_sticky_channel::<i32, i32>(1);

    sender.send(&42, 100).unwrap();

    // The receive is ready at its first poll, so it wins over any timer.
    let mut cx = Context::from_waker(Waker::noop());
    let result = match receivers[0].poll_recv(&mut cx) {
        Poll::Ready(msg) => Some(msg),
        Poll::Pending => None,
    };

    assert_eq!(result, Some(Some(100)));

    sender.send(&42, 200).unwrap();
    drop(sender);

    let msg2 = recv(&mut receivers[0]);
    assert_eq!(msg2, Some(200));

    let msg3 = recv(&mut receivers[0]);
    assert_eq!(msg3, None);
}

#[test]
fn test_zero_sized_messages() {
    let (sender, receivers) = unbounded_sticky_channel::<i32, ()>(2);

    for i in 0..10 {
        sender.send(&i, ()).unwrap();
    }
    drop(sender);

    let mut total_received = 0;
    for mut receiver in receivers {
        while let Some(_) = recv(&mut receiver) {
            total_received += 1;
        }
    }

    assert_eq!(total_received, 10);
}

#[test]
fn test_large_messages() {
    let (sender, mut receivers) = unbounded_sticky_channel::<i32, Vec<u8>>(1);

    let large_data = vec![42u8; 10_000];
    sender.send(&1, large_data.clone()).unwrap();
    drop(sender);

    let received = recv(&mut receivers[0]).unwrap();
    assert_eq!(received.len(), 10_000);
    assert_eq!(received, large_data);
}

#[test]
fn test_nonzero_usize_boundary() {
    let (sender1, receivers1) = unbounded_sticky_channel::<i32, i32>(1);
    assert_eq!(receivers1.len(), 1);
    assert_eq!(sender1.consumer_count(), 1);

    let (sender2, receivers2) = unbounded_sticky_channel::<i32, i32>(1000);
    assert_eq!(receivers2.len(), 1000);
    assert_eq!(sender2.consumer_count(), 1000);

    sender1.send(&42, 100).unwrap();
    sender2.send(&42, 200).unwrap();
}

#[test]
fn test_string_id_distribution() {
    let (sender, mut receivers) = unbounded_sticky_channel::<&str, i32>(10);

    let test_strings = vec![
        "short",
        "a_much_longer_string_with_many_characters",
        "123",
        "special!@#$%^&*()",
        "",
        "unicode_\u{1F980}_test",
    ];

    let mut routing_map = HashMap::new();

    for (i, s) in test_strings.iter().enumerate() {
        sender.send(s, i as i32).unwrap();
    }
    drop(sender);

    for (receiver_idx, receiver) in receivers.iter_mut().enumerate() {
        while let Some(msg_idx) = recv(receiver) {
            let sent_string = &test_strings[msg_idx as usize];
            routing_map.insert(sent_string, receiver_idx);
        }
    }

    assert_eq!(routing_map.len(), test_strings.len());

    for s in &test_strings {
        assert!(routing_map.contains_key(s));
    }
}

#[test]
fn test_recv_many_edge_cases() {
    let (sender, mut receivers) = unbounded_sticky_channel::<i32, i32>(1);

    sender.send(&0, 1).unwrap();
    sender.send(&0, 2).unwrap();
    drop(sender);

    let mut buffer = Vec::new();

    let count_zero_limit = recv_many(&mut receivers[0], &mut buffer, 0);
    assert_eq!(count_zero_limit, 0);
    assert_eq!(buffer.len(), 0);

    let count_normal = recv_many(&mut receivers[0], &mut buffer, 5);
    assert_eq!(count_normal, 2);
    assert_eq!(buffer, vec![1, 2]);

    let count_after_close = recv_many(&mut receivers[0], &mut buffer, 5);
    assert_eq!(count_after_close, 0);
    assert_eq!(buffer.len(), 2);
}

#[test]
fn clones_of_a_sender_share_the_queues() {
    let (sender, receivers) = unbounded_sticky_channel::<i32, i32>(3);

    let sender1 = sender.clone();
    let sender2 = sender.clone();
    let sender3 = sender;

    for i in 0..100 {
        sender1.send(&(i * 3), i * 3).unwrap();
        sender2.send(&(i * 3 + 1), i * 3 + 1).unwrap();
        sender3.send(&(i * 3 + 2), i * 3 + 2).unwrap();
    }
    // A key is routed alike by every clone.
    for i in 0..300 {
        assert_eq!(sender1.route(&i).unwrap(), sender2.route(&i).unwrap());
        assert_eq!(sender1.route(&i).unwrap(), sender3.route(&i).unwrap());
    }

    // The queues stay open until the last clone is gone.
    drop(sender1);
    drop(sender2);
    sender3.send(&0, 300).unwrap();
    drop(sender3);

    let mut total_received = 0;
    for mut receiver in receivers {
        while let Some(_) = recv(&mut receiver) {
            total_received += 1;
        }
    }

    assert_eq!(total_received, 301);
}

#[test]
fn every_receiver_drains_its_own_queue() {
    let (sender, receivers) = unbounded_sticky_channel::<i32, i32>(4);

    for i in 0..1000 {
        sender.send(&i, i).unwrap();
    }
    drop(sender);

    let mut results = Vec::new();
    for mut receiver in receivers {
        let mut count = 0;
        while let Some(_) = recv(&mut receiver) {
            count += 1;
        }
        results.push(count);
    }

    let total: i32 = results.iter().sum();

    assert_eq!(total, 1000);
    assert!(results.iter().all(|&count| count > 0));
}
