use ofreg::common::Query;
use ofreg::session::{start, step, SessionAction, SessionEvent, SessionState};

fn query() -> Query {
    Query { cmd: Some("git".into()), file: None, time_begin: None, time_end: None, num: 10 }
}

#[test]
fn answered_query() {
    let (s, a) = start();
    assert_eq!(s, SessionState::AwaitLength);
    assert!(matches!(a, SessionAction::ReadLength));

    let (s, a) = step(s, SessionEvent::LengthRead(5));
    assert_eq!(s, SessionState::AwaitPayload);
    assert!(matches!(a, SessionAction::ReadPayload(5)));

    let (s, a) = step(s, SessionEvent::PayloadRead(b"{\"x\"}".to_vec()));
    assert_eq!(s, SessionState::AwaitQuery);
    match a {
        SessionAction::DecodeQuery(t) => assert_eq!(t, "{\"x\"}"),
        _ => panic!("expected a decode"),
    }

    let (s, a) = step(s, SessionEvent::QueryDecoded(query()));
    assert_eq!(s, SessionState::AwaitRows);
    match a {
        SessionAction::RunQuery(sql) => {
            assert_eq!(
                sql,
                "select * from ofreg where (cmd = 'git' or substr(cmd, -4) = '/git') order by time desc limit 10"
            )
        }
        _ => panic!("expected a query"),
    }

    let (s, a) = step(s, SessionEvent::RowsEncoded(b"[]".to_vec()));
    assert_eq!(s, SessionState::AwaitResponseWritten);
    match a {
        SessionAction::Write(b) => assert_eq!(b, vec![0, 0, 0, 2, b'[', b']']),
        _ => panic!("expected a write"),
    }

    let (s, a) = step(s, SessionEvent::Written);
    assert_eq!(s, SessionState::AwaitFinishWritten);
    match a {
        SessionAction::Write(b) => assert_eq!(b, vec![0, 0, 0, 0]),
        _ => panic!("expected the finish flag"),
    }

    let (s, a) = step(s, SessionEvent::Written);
    assert_eq!(s, SessionState::Closed);
    assert!(matches!(a, SessionAction::Close));
}

#[test]
fn failed_query_gets_finish_flag_only() {
    let (s, a) = step(SessionState::AwaitRows, SessionEvent::QueryFailed);
    assert_eq!(s, SessionState::AwaitFinishWritten);
    match a {
        SessionAction::Write(b) => assert_eq!(b, vec![0, 0, 0, 0]),
        _ => panic!("expected the finish flag"),
    }
    let (s, a) = step(s, SessionEvent::WriteFailed);
    assert_eq!(s, SessionState::Closed);
    assert!(matches!(a, SessionAction::Close));
}

#[test]
fn bad_requests_close() {
    let (s, a) = step(SessionState::AwaitPayload, SessionEvent::PayloadRead(vec![0xff, 0xfe]));
    assert_eq!(s, SessionState::Closed);
    assert!(matches!(a, SessionAction::Close));
    let (s, _) = step(SessionState::AwaitLength, SessionEvent::ReadFailed);
    assert_eq!(s, SessionState::Closed);
    let (s, _) = step(SessionState::AwaitQuery, SessionEvent::QueryRejected);
    assert_eq!(s, SessionState::Closed);
    let (s, _) = step(SessionState::AwaitResponseWritten, SessionEvent::WriteFailed);
    assert_eq!(s, SessionState::Closed);
}

#[test]
fn closed_stays_closed() {
    let (s, a) = step(SessionState::Closed, SessionEvent::LengthRead(3));
    assert_eq!(s, SessionState::Closed);
    assert!(matches!(a, SessionAction::Close));
    let (s, _) = step(SessionState::AwaitLength, SessionEvent::Written);
    assert_eq!(s, SessionState::Closed);
}
