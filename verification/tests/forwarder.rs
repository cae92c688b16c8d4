use numaflow_core::error::Error;
use numaflow_core::pipeline::forwarder::source_forwarder::{settle, settle_startup_failure, SourceForwarder};

#[test]
fn forwarder_keeps_its_parts() {
    let f = SourceForwarder::new(1u8, "writer");
    assert_eq!(f.into_parts(), (1u8, "writer"));
}

#[test]
fn settle_join_failure() {
    let s = settle(Err("task 3 panicked".to_string()));
    assert!(!s.cancel);
    match s.result {
        Err(Error::Forwarder(m)) => assert_eq!(m, "Error while joining reader and sink writer: task 3 panicked"),
        _ => panic!("expected a forwarder error"),
    }
}

#[test]
fn settle_writer_error_wins_and_cancels() {
    let s = settle(Ok((Err(Error::Transformer("r".to_string())), Err(Error::Transformer("w".to_string())))));
    assert!(s.cancel);
    match s.result {
        Err(Error::Transformer(m)) => assert_eq!(m, "w"),
        _ => panic!("expected the writer's error"),
    }
}

#[test]
fn settle_reader_error_cancels() {
    let s = settle(Ok((Err(Error::Transformer("r".to_string())), Ok(()))));
    assert!(s.cancel);
    match s.result {
        Err(Error::Transformer(m)) => assert_eq!(m, "r"),
        _ => panic!("expected the reader's error"),
    }
}

#[test]
fn settle_success() {
    let s = settle(Ok((Ok(()), Ok(()))));
    assert!(!s.cancel);
    assert!(s.result.is_ok());
}

#[test]
fn settle_startup_failure_returns_error_without_cancel() {
    let s = settle_startup_failure(Error::Forwarder("no stream".to_string()));
    assert!(!s.cancel);
    match s.result {
        Err(Error::Forwarder(m)) => assert_eq!(m, "no stream"),
        _ => panic!("expected the startup error"),
    }
}
