use rollbar::config::{Config, DEFAULT_QUEUE_CAPACITY};
use rollbar::error::{classify_status, DeliveryError, Error};
use rollbar::instance;
use rollbar::item::{Body, Item, Level};
use rollbar::queue::{DispatchQueue, Message};
use rollbar::tracker::Tracker;
use rollbar::transport::{Phase, Request, Transport, ACCESS_TOKEN_HEADER};

fn item(text: &str) -> Item {
    Item::message(Level::Info, text.to_string(), vec![])
}

fn config(capacity: usize) -> Config {
    Config::new()
        .with_access_token("abc".to_string())
        .with_endpoint("http://127.0.0.1:1/api/1/item".to_string())
        .with_queue_capacity(capacity)
}

/// Plays the delivery worker for one message: takes it, posts it to `posted`
/// and settles it with `status`. Returns false when the queue was empty.
fn work_one(transport: &mut Transport, posted: &mut Vec<Request>, status: u16) -> bool {
    match transport.next_message() {
        Some(Message::Deliver(item)) => {
            posted.push(transport.request(&item));
            transport.settle(classify_status(status)).unwrap();
            true
        }
        Some(Message::Shutdown) => true,
        None => false,
    }
}

fn message_text(m: &Message) -> String {
    match m {
        Message::Deliver(item) => match &item.data.body {
            Body::Message(msg) => msg.body.clone(),
            Body::Trace(_) => panic!("not a message"),
        },
        Message::Shutdown => panic!("not a delivery"),
    }
}

#[test]
fn shutdown_waits_for_items() {
    let expected_count = DEFAULT_QUEUE_CAPACITY * 2;
    let mut transport = Transport::new(
        Config::new()
            .with_access_token("abc".to_string())
            .with_endpoint("http://127.0.0.1:1/api/1/item".to_string()),
    );
    let mut posted = Vec::new();

    for i in 0..expected_count {
        transport.send(item(&format!("{}", i))).unwrap();
        work_one(&mut transport, &mut posted, 200);
    }

    let mut result = transport.shutdown();
    while result.is_none() {
        assert!(work_one(&mut transport, &mut posted, 200));
        result = transport.shutdown();
    }
    result.unwrap().unwrap();

    assert_eq!(posted.len(), expected_count);
    for (i, request) in posted.iter().enumerate() {
        assert_eq!(request.url, "http://127.0.0.1:1/api/1/item");
        assert_eq!(request.access_token, "abc");
        assert_eq!(
            request.body,
            format!(r#"{{"data":{{"body":{{"message":{{"body":"{}"}}}},"level":"info"}}}}"#, i)
        );
    }
    assert_eq!(transport.in_flight(), 0);
}

#[test]
fn sends_succeed_up_to_capacity_then_queue_full() {
    let mut transport = Transport::new(config(3));
    for i in 0..3 {
        assert_eq!(transport.send(item(&i.to_string())), Ok(()));
    }
    assert_eq!(transport.send(item("3")), Err(Error::QueueFull));
    assert_eq!(transport.send(item("4")), Err(Error::QueueFull));
    assert_eq!(transport.in_flight(), 3);
}

#[test]
fn zero_capacity_accepts_nothing() {
    let mut transport = Transport::new(config(0));
    assert_eq!(transport.send(item("a")), Err(Error::QueueFull));
    assert_eq!(transport.in_flight(), 0);
}

#[test]
fn taking_a_delivery_makes_room() {
    let mut transport = Transport::new(config(1));
    assert_eq!(transport.send(item("a")), Ok(()));
    assert_eq!(transport.send(item("b")), Err(Error::QueueFull));
    let taken = transport.next_message().unwrap();
    assert_eq!(message_text(&taken), "a");
    assert_eq!(transport.send(item("b")), Ok(()));
    assert_eq!(transport.in_flight(), 2);
}

#[test]
fn deliveries_keep_the_order_of_sends() {
    let mut transport = Transport::new(config(5));
    for text in ["i1", "i2", "i3", "i4", "i5"] {
        transport.send(item(text)).unwrap();
    }
    let mut seen = Vec::new();
    while let Some(m) = transport.next_message() {
        seen.push(message_text(&m));
    }
    assert_eq!(seen, vec!["i1", "i2", "i3", "i4", "i5"]);
}

#[test]
fn shutdown_of_empty_transport_is_immediate_and_idempotent() {
    let mut transport = Transport::new(config(4));
    assert_eq!(transport.shutdown(), Some(Ok(())));
    assert_eq!(transport.phase(), Phase::Closed);
    assert_eq!(transport.shutdown(), Some(Ok(())));
    assert_eq!(transport.in_flight(), 0);
}

#[test]
fn shutdown_is_pending_while_deliveries_settle() {
    let mut transport = Transport::new(config(4));
    transport.send(item("a")).unwrap();
    transport.send(item("b")).unwrap();
    assert_eq!(transport.shutdown(), None);
    assert_eq!(transport.phase(), Phase::ShuttingDown);
    assert_eq!(transport.send(item("c")), Err(Error::Closed));

    let mut posted = Vec::new();
    assert!(work_one(&mut transport, &mut posted, 200));
    assert_eq!(transport.shutdown(), None);
    assert!(work_one(&mut transport, &mut posted, 200));
    assert_eq!(transport.shutdown(), Some(Ok(())));
    assert_eq!(transport.in_flight(), 0);
    assert_eq!(posted.len(), 2);

    // the sentinel is still queued behind the deliveries; the worker stops on it
    assert!(matches!(transport.next_message(), Some(Message::Shutdown)));
    assert!(transport.next_message().is_none());
}

#[test]
fn shutdown_reports_each_failed_delivery() {
    let mut transport = Transport::new(config(10));
    let statuses = [200u16, 403, 200, 403, 403, 201];
    for i in 0..statuses.len() {
        transport.send(item(&i.to_string())).unwrap();
    }
    let mut posted = Vec::new();
    for status in statuses {
        assert!(work_one(&mut transport, &mut posted, status));
    }
    let result = transport.shutdown().unwrap();
    let expected = vec![DeliveryError::AccessDenied; 3];
    assert_eq!(result, Err(Error::ShutdownWithErrors(expected)));
    let text = result.unwrap_err().text();
    assert_eq!(text.matches("AccessDenied").count(), 3);
    assert_eq!(text, "Shutdown with errors:\n AccessDenied\nAccessDenied\nAccessDenied\n");
    // the failures were reported once; asking again succeeds
    assert_eq!(transport.shutdown(), Some(Ok(())));
}

#[test]
fn failures_are_reported_in_order_of_settling() {
    let mut transport = Transport::new(config(10));
    for i in 0..5 {
        transport.send(item(&i.to_string())).unwrap();
    }
    transport.next_message().unwrap();
    transport.settle(Err(DeliveryError::Network)).unwrap();
    let mut posted = Vec::new();
    for status in [413u16, 429, 422, 500] {
        assert!(work_one(&mut transport, &mut posted, status));
    }
    assert_eq!(
        transport.shutdown(),
        Some(Err(Error::ShutdownWithErrors(vec![
            DeliveryError::Network,
            DeliveryError::PayloadTooLarge,
            DeliveryError::RateLimited,
            DeliveryError::MissingInfo,
        ])))
    );
}

#[test]
fn settle_without_a_taken_delivery_is_out_of_sync() {
    let mut transport = Transport::new(config(2));
    assert_eq!(transport.settle(Ok(())), Err(Error::QueueDepthOutOfSync));
    transport.send(item("a")).unwrap();
    assert_eq!(transport.settle(Err(DeliveryError::RateLimited)), Err(Error::QueueDepthOutOfSync));
    assert_eq!(transport.in_flight(), 1);
    // the failure is kept for the report all the same
    let mut posted = Vec::new();
    assert!(work_one(&mut transport, &mut posted, 200));
    assert_eq!(
        transport.shutdown(),
        Some(Err(Error::ShutdownWithErrors(vec![DeliveryError::RateLimited])))
    );
}

#[test]
fn interleaved_sends_and_takes_keep_order() {
    let mut transport = Transport::new(config(2));
    let mut seen = Vec::new();
    let mut accepted = Vec::new();
    for i in 0..7 {
        let text = format!("i{}", i);
        if transport.send(item(&text)).is_ok() {
            accepted.push(text);
        }
        if i % 3 == 2 {
            while let Some(m) = transport.next_message() {
                seen.push(message_text(&m));
                transport.settle(Ok(())).unwrap();
            }
        }
    }
    while let Some(m) = transport.next_message() {
        seen.push(message_text(&m));
        transport.settle(Ok(())).unwrap();
    }
    assert_eq!(accepted, vec!["i0", "i1", "i3", "i4", "i6"]);
    assert_eq!(seen, accepted);
}

#[test]
fn config_with_uri_appends_the_item_path() {
    let config = Config::new().with_uri("http://localhost:8080");
    assert_eq!(config.endpoint(), "http://localhost:8080/api/1/item");
    assert_eq!(Config::endpoint_under("https://a.b"), "https://a.b/api/1/item");
}

#[test]
fn request_carries_endpoint_token_and_body() {
    let transport = Transport::new(config(1));
    let request = transport.request(&item("hello"));
    assert_eq!(request.url, "http://127.0.0.1:1/api/1/item");
    assert_eq!(request.access_token, "abc");
    assert_eq!(request.body, r#"{"data":{"body":{"message":{"body":"hello"}},"level":"info"}}"#);
    assert_eq!(ACCESS_TOKEN_HEADER, "X-Rollbar-Access-Token");
}

#[test]
fn set_config_keeps_the_queue() {
    let mut transport = Transport::new(config(2));
    transport.send(item("a")).unwrap();
    transport.set_config(Config::new().with_access_token("new".to_string()).with_queue_capacity(9));
    assert_eq!(transport.config().access_token(), "new");
    assert_eq!(transport.in_flight(), 1);
    transport.send(item("b")).unwrap();
    assert_eq!(transport.send(item("c")), Err(Error::QueueFull));
}

#[test]
fn statuses_are_classified() {
    assert_eq!(classify_status(200), Ok(()));
    assert_eq!(classify_status(204), Ok(()));
    assert_eq!(classify_status(500), Ok(()));
    assert_eq!(classify_status(413), Err(DeliveryError::PayloadTooLarge));
    assert_eq!(classify_status(429), Err(DeliveryError::RateLimited));
    assert_eq!(classify_status(403), Err(DeliveryError::AccessDenied));
    assert_eq!(classify_status(422), Err(DeliveryError::MissingInfo));
}

#[test]
fn tracker_counts_and_drains() {
    let mut tracker = Tracker::new();
    assert_eq!(tracker.record_settled(Ok(())), Err(Error::QueueDepthOutOfSync));
    assert_eq!(tracker.in_flight(), 0);
    assert_eq!(tracker.record_enqueued(), Ok(()));
    assert_eq!(tracker.record_enqueued(), Ok(()));
    assert_eq!(tracker.in_flight(), 2);
    assert_eq!(tracker.record_settled(Err(DeliveryError::RateLimited)), Ok(()));
    assert_eq!(tracker.record_settled(Ok(())), Ok(()));
    assert_eq!(tracker.in_flight(), 0);
    assert_eq!(tracker.record_settled(Err(DeliveryError::Network)), Err(Error::QueueDepthOutOfSync));
    assert_eq!(tracker.drain_errors(), vec![DeliveryError::RateLimited, DeliveryError::Network]);
    assert_eq!(tracker.drain_errors(), vec![]);
}

#[test]
fn queue_refuses_when_full_or_closed() {
    let mut queue = DispatchQueue::new(2);
    assert_eq!(queue.enqueue(item("a")), Ok(()));
    assert_eq!(queue.enqueue(item("b")), Ok(()));
    assert_eq!(queue.enqueue(item("c")), Err(Error::QueueFull));
    queue.close();
    assert!(!queue.is_open());
    assert_eq!(queue.len(), 3);
    assert_eq!(queue.enqueue(item("d")), Err(Error::Closed));
    queue.close();
    assert_eq!(queue.len(), 3);
    assert_eq!(message_text(&queue.dequeue().unwrap()), "a");
    assert_eq!(message_text(&queue.dequeue().unwrap()), "b");
    assert!(matches!(queue.dequeue(), Some(Message::Shutdown)));
    assert!(queue.dequeue().is_none());
    assert_eq!(queue.capacity(), 2);
}

#[test]
fn config_defaults_and_setters() {
    let config = Config::new();
    assert_eq!(config.access_token(), "");
    assert_eq!(config.endpoint(), "https://api.rollbar.com/api/1/item");
    assert_eq!(Config::default_endpoint(), "https://api.rollbar.com/api/1/item");
    assert_eq!(Config::default_uri(), "https://api.rollbar.com");
    assert_eq!(config.shutdown_timeout(), 100);
    assert_eq!(Config::default_shutdown_timeout(), 100);
    assert_eq!(config.queue_capacity(), 50);
    let config = config
        .with_access_token("t".to_string())
        .with_endpoint("http://e".to_string())
        .with_shutdown_timeout(5)
        .with_queue_capacity(7);
    assert_eq!(config.access_token(), "t");
    assert_eq!(config.endpoint(), "http://e");
    assert_eq!(config.shutdown_timeout(), 5);
    assert_eq!(config.queue_capacity(), 7);
}

#[test]
fn error_texts() {
    assert_eq!(Error::QueueFull.text(), "QueueFull");
    assert_eq!(Error::Closed.text(), "Closed");
    assert_eq!(Error::QueueDepthOutOfSync.text(), "QueueDepthOutOfSync");
    assert_eq!(Error::MaxQueueDepthExceeded.text(), "MaxQueueDepthExceeded");
    assert_eq!(Error::ShutdownWithErrors(vec![]).text(), "Shutdown with errors:\n ");
    assert_eq!(
        Error::ShutdownWithErrors(vec![DeliveryError::MissingInfo, DeliveryError::Network]).text(),
        "Shutdown with errors:\n MissingInfo: the api did not receive enough information for this item.\nNetwork\n"
    );
    assert_eq!(DeliveryError::PayloadTooLarge.text(), "PayloadTooLarge");
}

#[test]
fn slot_before_configuration() {
    let mut slot: Option<Transport> = None;
    assert_eq!(instance::shutdown(&mut slot), Some(Err(Error::TransportNotConfigured)));
    assert_eq!(instance::info(&mut slot, "x".to_string()), Err(Error::TransportNotConfigured));
    assert!(slot.is_none());
}

#[test]
fn slot_configure_log_and_shutdown() {
    let mut slot: Option<Transport> = None;
    instance::configure(&mut slot, config(2));
    assert_eq!(instance::debug(&mut slot, "a".to_string()), Ok(()));
    assert_eq!(instance::critical(&mut slot, "b".to_string()), Ok(()));
    assert_eq!(instance::warning(&mut slot, "c".to_string()), Err(Error::QueueFull));
    instance::configure(&mut slot, config(9).with_access_token("other".to_string()));
    let transport = slot.as_mut().unwrap();
    assert_eq!(transport.config().access_token(), "other");
    assert_eq!(transport.in_flight(), 2);
    match transport.next_message() {
        Some(Message::Deliver(item)) => assert_eq!(item.data.level, Level::Debug),
        _ => panic!("expected a delivery"),
    }
    transport.settle(Ok(())).unwrap();
    match transport.next_message() {
        Some(Message::Deliver(item)) => assert_eq!(item.data.level, Level::Critical),
        _ => panic!("expected a delivery"),
    }
    transport.settle(Ok(())).unwrap();
    assert_eq!(instance::shutdown(&mut slot), Some(Ok(())));
    assert_eq!(instance::error(&mut slot, "late".to_string()), Err(Error::Closed));
    assert_eq!(instance::log(&mut slot, Level::Info, "late".to_string()), Err(Error::Closed));
}
