use capture_bridge::channel::frame_channel;
use capture_bridge::frames::concat_frames;
use capture_bridge::handler::ConnectionDriver;
use capture_bridge::handler::Phase;
use capture_bridge::handler::SessionCall;

/// Drains one driver against a consumer whose producer is already gone,
/// completing every write, and returns the bytes put on the wire.
fn drain_to_wire(
    driver: &mut ConnectionDriver,
    consumer: &capture_bridge::channel::FrameConsumer,
) -> Vec<u8> {
    let mut wire: Vec<u8> = Vec::new();
    loop {
        match driver.drain_step(consumer) {
            Some(bytes) => {
                wire.extend_from_slice(&bytes);
                driver.write_completed();
            }
            None => break,
        }
    }
    wire
}

#[test]
fn scenario_three_frames_byte_exact() {
    let frame_a: Vec<u8> = (0..100u32).map(|i| (i % 251) as u8).collect();
    let frame_b: Vec<u8> = (0..250u32).map(|i| (101 + i % 97) as u8).collect();
    let frame_c: Vec<u8> = vec![7, 13, 17, 19];

    let (producer, consumer) = frame_channel();
    assert!(producer.deliver(&frame_a, frame_a.len()).is_ok());
    assert!(producer.deliver(&frame_b, frame_b.len()).is_ok());
    assert!(producer.deliver(&frame_c, frame_c.len()).is_ok());
    drop(producer);

    let mut driver = ConnectionDriver::new();
    assert_eq!(driver.init_accepted(), SessionCall::Begin);
    let wire = drain_to_wire(&mut driver, &consumer);

    assert_eq!(wire.len(), 354);
    let expected = concat_frames(&vec![frame_a, frame_b, frame_c]);
    assert_eq!(wire, expected);

    assert_eq!(driver.phase, Phase::Stopping);
    assert_eq!(driver.stop_session(), SessionCall::Stop);
    assert_eq!(driver.deallocate_session(), SessionCall::Deallocate);
    assert_eq!(driver.phase, Phase::Done);
}

#[test]
fn deliver_copies_exactly_len_bytes() {
    let (producer, consumer) = frame_channel();
    let data: Vec<u8> = vec![9, 8, 7, 6];
    assert!(producer.deliver(&data, 2).is_ok());
    drop(producer);

    let mut driver = ConnectionDriver::new();
    driver.init_accepted();
    let wire = drain_to_wire(&mut driver, &consumer);
    assert_eq!(wire, vec![9, 8]);
    driver.stop_session();
    driver.deallocate_session();
}

#[test]
fn late_frame_dropped_silently() {
    let (producer, consumer) = frame_channel();
    drop(consumer);

    let data: Vec<u8> = vec![42, 43, 44];
    match producer.deliver(&data, data.len()) {
        Ok(()) => panic!("a frame delivered to a dead consumer must be dropped"),
        Err(dropped) => assert_eq!(dropped, data),
    }
    // A second late frame is just as harmless.
    assert!(producer.deliver(&data, 1).is_err());
}

#[test]
fn null_init_short_circuit() {
    let mut driver = ConnectionDriver::new();
    driver.init_rejected();
    assert_eq!(driver.phase, Phase::Rejected);
}

#[test]
fn teardown_after_producer_gone() {
    let (producer, consumer) = frame_channel();
    drop(producer);

    let mut driver = ConnectionDriver::new();
    assert_eq!(driver.init_accepted(), SessionCall::Begin);
    assert!(driver.drain_step(&consumer).is_none());
    assert_eq!(driver.phase, Phase::Stopping);
    assert_eq!(driver.stop_session(), SessionCall::Stop);
    assert_eq!(driver.phase, Phase::Stopped);
    assert_eq!(driver.deallocate_session(), SessionCall::Deallocate);
    assert_eq!(driver.phase, Phase::Done);
}

#[test]
fn write_failure_triggers_teardown() {
    let (producer, consumer) = frame_channel();
    assert!(producer.deliver(&[1, 2, 3], 3).is_ok());

    let mut driver = ConnectionDriver::new();
    driver.init_accepted();
    let bytes = driver.drain_step(&consumer).expect("one frame was queued");
    assert_eq!(bytes, vec![1, 2, 3]);
    assert_eq!(driver.phase, Phase::Writing);
    driver.write_failed();
    assert_eq!(driver.phase, Phase::Stopping);
    assert_eq!(driver.stop_session(), SessionCall::Stop);
    assert_eq!(driver.deallocate_session(), SessionCall::Deallocate);
}

#[test]
fn isolation_two_connections() {
    let (producer_a, consumer_a) = frame_channel();
    let (producer_b, consumer_b) = frame_channel();
    assert!(producer_a.deliver(&[1, 1, 1], 3).is_ok());
    assert!(producer_b.deliver(&[2, 2], 2).is_ok());
    drop(producer_a);
    drop(producer_b);

    let mut driver_a = ConnectionDriver::new();
    let mut driver_b = ConnectionDriver::new();
    driver_a.init_accepted();
    driver_b.init_accepted();

    let wire_a = drain_to_wire(&mut driver_a, &consumer_a);
    let wire_b = drain_to_wire(&mut driver_b, &consumer_b);
    assert_eq!(wire_a, vec![1, 1, 1]);
    assert_eq!(wire_b, vec![2, 2]);

    driver_a.stop_session();
    driver_a.deallocate_session();
    driver_b.stop_session();
    driver_b.deallocate_session();
}
