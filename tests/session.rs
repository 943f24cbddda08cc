use scalerize_client::{outcome, ClientError, Drain, Operation, Phase, ProtocolError, ReadEvent, Session};

fn exchange(session: &mut Session, op: &Operation, response: &[u8]) -> Result<Vec<u8>, ClientError> {
    assert_eq!(session.phase(), Phase::Idle);
    let _frame = session.begin(op);
    assert_eq!(session.phase(), Phase::Sending);
    session.sent();
    assert_eq!(session.phase(), Phase::AwaitingResponse);
    session.receive(response)
}

fn with_status(status: u8, payload: &[u8]) -> Vec<u8> {
    let mut v = vec![status];
    v.extend_from_slice(payload);
    v
}

#[test]
fn begin_hands_out_the_frame() {
    let mut session = Session::new();
    let frame = session.begin(&Operation::Write);
    assert_eq!(frame, vec![4u8, 0]);
}

#[test]
fn put_write_get_returns_the_value() {
    let mut session = Session::new();
    let key = vec![1u8, 2, 3, 4];
    let value = b"Hello, Scalerize!".to_vec();
    let put = Operation::Put { store: 2, key: key.clone(), value: value.clone() };
    assert!(exchange(&mut session, &put, &[1]).is_ok());
    assert!(exchange(&mut session, &Operation::Write, &[1]).is_ok());
    let got = exchange(&mut session, &Operation::Get { store: 2, key }, &with_status(1, &value));
    assert_eq!(got.unwrap(), value);
    assert_eq!(session.phase(), Phase::Idle);
}

#[test]
fn get_after_delete_is_an_application_error() {
    let mut session = Session::new();
    let key = vec![1u8, 2, 3, 4];
    assert!(exchange(&mut session, &Operation::Delete { store: 2, key: key.clone() }, &[1]).is_ok());
    let got = exchange(&mut session, &Operation::Get { store: 2, key }, &with_status(0, b"Key not found"));
    match got {
        Err(ClientError::OperationFailed(m)) => assert_eq!(m, "Key not found"),
        other => panic!("unexpected {:?}", other),
    }
    assert_eq!(session.phase(), Phase::Idle);
}

#[test]
fn get_of_missing_key_is_an_application_error() {
    let mut session = Session::new();
    let got = exchange(&mut session, &Operation::Get { store: 5, key: vec![42] }, &with_status(0, b"not found"));
    assert!(matches!(got, Err(ClientError::OperationFailed(ref m)) if m == "not found"));
}

#[test]
fn unknown_status_breaks_the_session() {
    let mut session = Session::new();
    let put = Operation::Put { store: 1, key: vec![1], value: vec![2] };
    let got = exchange(&mut session, &put, &[7, 1]);
    assert!(matches!(got, Err(ClientError::InvalidResponse(ProtocolError::UnknownStatus(7, ref p))) if p == &vec![1u8]));
    assert_eq!(session.phase(), Phase::Broken);
}

#[test]
fn empty_response_breaks_the_session() {
    let mut session = Session::new();
    let got = exchange(&mut session, &Operation::Write, &[]);
    assert!(matches!(got, Err(ClientError::InvalidResponse(ProtocolError::Empty))));
    assert_eq!(session.phase(), Phase::Broken);
}

#[test]
fn transport_failure_breaks_the_session() {
    let mut session = Session::new();
    let _frame = session.begin(&Operation::Write);
    session.fail();
    assert_eq!(session.phase(), Phase::Broken);
}

#[test]
fn outcome_maps_each_status() {
    assert_eq!(outcome(&[1, 3]).unwrap(), vec![3u8]);
    assert!(matches!(outcome(&[0, 104, 105]), Err(ClientError::OperationFailed(ref m)) if m == "hi"));
    assert!(matches!(outcome(&[]), Err(ClientError::InvalidResponse(ProtocolError::Empty))));
    assert!(matches!(outcome(&[200]), Err(ClientError::InvalidResponse(ProtocolError::UnknownStatus(200, _)))));
}

#[test]
fn drain_keeps_chunks_until_would_block() {
    let mut drain = Drain::new();
    assert!(drain.step(ReadEvent::Data(vec![1, 2])));
    assert!(drain.step(ReadEvent::Data(vec![3])));
    assert!(!drain.step(ReadEvent::WouldBlock));
    assert!(!drain.failed());
    assert_eq!(drain.into_chunks(), vec![vec![1u8, 2], vec![3u8]]);
}

#[test]
fn drain_stops_on_end_of_data_and_empty_read() {
    let mut drain = Drain::new();
    assert!(!drain.step(ReadEvent::EndOfData));
    assert!(drain.into_chunks().is_empty());
    let mut drain = Drain::new();
    assert!(drain.step(ReadEvent::Data(vec![9])));
    assert!(!drain.step(ReadEvent::Data(vec![])));
    assert_eq!(drain.into_chunks(), vec![vec![9u8]]);
}

#[test]
fn drain_reports_a_read_error() {
    let mut drain = Drain::new();
    assert!(drain.step(ReadEvent::Data(vec![4])));
    assert!(!drain.step(ReadEvent::Failed));
    assert!(drain.failed());
    assert_eq!(drain.into_chunks(), vec![vec![4u8]]);
}
