use adoptium_installer::error::TransferError;
use adoptium_installer::transfer::{check_status, TransferAction, TransferEvent, TransferState, PIPE_CAPACITY};

#[test]
fn status_codes() {
    assert_eq!(check_status(200), Ok(()));
    assert_eq!(check_status(204), Ok(()));
    assert_eq!(check_status(299), Ok(()));
    assert_eq!(check_status(300), Err(TransferError::BadResponse(300)));
    assert_eq!(check_status(404), Err(TransferError::BadResponse(404)));
    assert_eq!(check_status(199), Err(TransferError::BadResponse(199)));
}

#[test]
fn whole_transfer_succeeds_when_both_sides_finish() {
    assert_eq!(PIPE_CAPACITY, 1024);
    let s = TransferState::new(3000);
    let (s, a) = s.step(TransferEvent::Chunk(1000));
    assert!(a == TransferAction::Forward);
    let (s, a) = s.step(TransferEvent::Chunk(2000));
    assert!(a == TransferAction::Forward);
    assert_eq!(s.received, 3000);
    let (s, a) = s.step(TransferEvent::BodyEnded);
    assert!(a == TransferAction::CloseWriter);
    assert!(s.result.is_none());
    let (s, a) = s.step(TransferEvent::UnpackFinished);
    assert!(a == TransferAction::Finish);
    assert_eq!(s.result, Some(Ok(())));
}

#[test]
fn truncated_stream_fails_the_transfer() {
    let s = TransferState::new(5000);
    let (s, _) = s.step(TransferEvent::Chunk(700));
    let (s, a) = s.step(TransferEvent::BodyEnded);
    assert!(a == TransferAction::CloseWriter);
    let (s, a) = s.step(TransferEvent::UnpackFailed(TransferError::Unpack(String::from("unexpected end of file"))));
    assert!(a == TransferAction::Finish);
    assert_eq!(s.result, Some(Err(TransferError::Unpack(String::from("unexpected end of file")))));
}

#[test]
fn first_error_wins_and_later_events_change_nothing() {
    let s = TransferState::new(10);
    let (s, a) = s.step(TransferEvent::ProducerFailed(TransferError::Network(String::from("reset"))));
    assert!(a == TransferAction::Finish);
    let (s, a) = s.step(TransferEvent::UnpackFailed(TransferError::Unpack(String::from("bad header"))));
    assert!(a == TransferAction::Finish);
    let (s, _) = s.step(TransferEvent::Chunk(5));
    assert_eq!(s.received, 0);
    assert_eq!(s.result, Some(Err(TransferError::Network(String::from("reset")))));
}

#[test]
fn bytes_after_the_archive_are_discarded() {
    let s = TransferState::new(0);
    let (s, _) = s.step(TransferEvent::Chunk(10));
    let (s, a) = s.step(TransferEvent::UnpackFinished);
    assert!(a == TransferAction::Wait);
    let (s, a) = s.step(TransferEvent::Chunk(10));
    assert!(a == TransferAction::Discard);
    let (s, a) = s.step(TransferEvent::BodyEnded);
    assert!(a == TransferAction::Finish);
    assert_eq!(s.result, Some(Ok(())));
    assert_eq!(s.received, 20);
}

#[test]
fn received_count_saturates() {
    let s = TransferState::new(0);
    let (s, _) = s.step(TransferEvent::Chunk(u64::MAX - 1));
    let (s, _) = s.step(TransferEvent::Chunk(5));
    assert_eq!(s.received, u64::MAX);
}
