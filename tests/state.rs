use std::sync::atomic::AtomicU32;

use tarantool_rs::body::{
    array_items, as_tuple, call_result, data_tuple, extract_iproto_data, first_item, first_row,
    first_two, prepared_statement_id, row_count,
};
use tarantool_rs::consts::{RequestType, TransactionIsolationLevel};
use tarantool_rs::errors::{DecodingErrorDetails, Error, ProtocolKey};
use tarantool_rs::greeting::{Greeting, GreetingError};
use tarantool_rs::in_flight::{Admission, ConnectionData};
use tarantool_rs::request::{Commit, EncodedRequest, Ping};
use tarantool_rs::response::{Response, ResponseBody};
use tarantool_rs::schema::{
    GenericIndex, IndexMetadata, PreparedSqlStatement, SchemaEntityKey, SystemSpacesId,
    UniqueIdNameError, UniqueIdNameMap,
};
use tarantool_rs::session::{
    after_reply, auth_result, begin_request, dispatcher_step, floor_min_interval, into_result,
    next_stream_id, skip_zero, DispatcherAction, DispatcherEvent, DispatcherResponse,
    DispatcherState, SendStep, StreamBinding, TransactionPhase, TransactionState,
};
use tarantool_rs::statement_cache::{plan_execute, SqlStatementCache};
use tarantool_rs::request::ExecuteStatement;

fn ping() -> EncodedRequest {
    EncodedRequest::new(Ping {}, None).unwrap()
}

#[test]
fn syncs_are_sequential_and_stamped() {
    let mut data: ConnectionData<&str> = ConnectionData::new();
    let mut a = ping();
    let mut b = ping();
    assert!(data.try_prepare_request(&mut a, "a").is_ok());
    assert!(data.try_prepare_request(&mut b, "b").is_ok());
    assert_eq!((a.sync, b.sync), (0, 1));
    assert_eq!(data.len(), 2);
    assert_eq!(data.respond_to_client(1), Some("b"));
    assert_eq!(data.respond_to_client(1), None);
    assert_eq!(data.respond_to_client(0), Some("a"));
    assert_eq!(data.len(), 0);
}

#[test]
fn duplicated_sync_keeps_old_entry() {
    let mut data: ConnectionData<u32> = ConnectionData::new();
    let mut first = ping();
    assert!(data.try_prepare_request(&mut first, 10).is_ok());
    // Run the allocator round the whole 32-bit space back to sync 0.
    for _ in 0..u32::MAX {
        data.next_sync();
    }
    let mut second = ping();
    assert_eq!(data.try_prepare_request(&mut second, 20), Err(20));
    assert_eq!(second.sync, 0);
    assert_eq!(data.respond_to_client(0), Some(10));
}

#[test]
fn drain_after_failure_splits_requests() {
    let mut data: ConnectionData<&str> = ConnectionData::new();
    let mut written = ping();
    let mut failed = ping();
    let mut queued = ping();
    data.try_prepare_request(&mut written, "written").unwrap();
    data.try_prepare_request(&mut failed, "failed").unwrap();
    data.try_prepare_request(&mut queued, "queued").unwrap();
    let drain = data.drain_after_failure(Some(failed.sync), vec![queued]);
    assert_eq!(drain.resend.len(), 1);
    assert_eq!(drain.resend[0].0, "queued");
    assert_eq!(drain.resend[0].1.sync, 2);
    assert_eq!(drain.write_failed, Some("failed"));
    assert_eq!(drain.rest.len(), 1);
    assert_eq!(drain.rest.get(&0), Some(&"written"));
    assert_eq!(data.len(), 0);
}

#[test]
fn stream_ids_skip_zero() {
    assert_eq!(skip_zero(5, 6), 5);
    assert_eq!(skip_zero(0, 1), 1);
    let counter = AtomicU32::new(u32::MAX);
    assert_eq!(next_stream_id(&counter), u32::MAX);
    assert_eq!(next_stream_id(&counter), 1);
    assert_eq!(next_stream_id(&counter), 2);
}

#[test]
fn stream_binding_rewrites_stream_id() {
    let s = StreamBinding::new(9);
    let r = s.bind(ping());
    assert_eq!(r.stream_id, Some(9));
    assert_eq!(r.request_type.code(), RequestType::Ping.code());
}

#[test]
fn transaction_rolls_back_on_drop() {
    let mut t = TransactionState::new(4);
    let r = t.on_drop().unwrap();
    assert_eq!(r.request_type.code(), 16);
    assert_eq!(r.stream_id, Some(4));
    assert_eq!(r.encoded_body, vec![0x80]);
    assert_eq!(t.phase, TransactionPhase::DroppedWhileUnfinished);
    assert!(t.on_drop().is_none());
}

#[test]
fn finished_transaction_sends_nothing() {
    let mut t = TransactionState::new(4);
    let c = t.commit().unwrap();
    assert_eq!(c.request_type.code(), 15);
    t.commit_answered(false);
    assert_eq!(t.phase, TransactionPhase::InFlight);
    t.commit_answered(true);
    assert_eq!(t.phase, TransactionPhase::Committed);
    assert!(t.commit().is_none());
    assert!(t.rollback().is_none());
    assert!(t.on_drop().is_none());
    let mut u = TransactionState::new(5);
    assert_eq!(u.rollback().unwrap().request_type.code(), 16);
    u.rollback_answered(true);
    assert_eq!(u.phase, TransactionPhase::RolledBack);
}

#[test]
fn begin_request_on_stream() {
    let r = begin_request(3, None, TransactionIsolationLevel::BestEffort);
    assert_eq!(r.stream_id, Some(3));
    assert_eq!(r.encoded_body, vec![0x81, 0x59, 0xcc, 3]);
}

fn ok_response(sync: u32, body: Vec<u8>) -> Response {
    Response { sync, schema_version: 1, body: ResponseBody::Value(body) }
}

#[test]
fn reply_handling() {
    match after_reply(None) {
        SendStep::Return(Err(Error::ConnectionClosed)) => {}
        _ => panic!("a dropped sink means the connection closed"),
    }
    match after_reply(Some(DispatcherResponse::NeedsResend(ping()))) {
        SendStep::Resend(r) => assert_eq!(r.request_type.code(), 64),
        _ => panic!("expected resend"),
    }
    match after_reply(Some(DispatcherResponse::Finished(Ok(ok_response(3, vec![0x80]))))) {
        SendStep::Return(Ok(r)) => assert_eq!(r.sync, 3),
        _ => panic!("expected the response"),
    }
    assert_eq!(into_result(ok_response(1, vec![0x80])).unwrap(), vec![0x80]);
}

#[test]
fn auth_error_is_auth_not_response() {
    let resp = Response {
        sync: 0,
        schema_version: 1,
        body: ResponseBody::Error(tarantool_rs::errors::ErrorResponse::new(
            45,
            "User 'Quark' is not found".to_string(),
            None,
        )),
    };
    match auth_result(resp.clone()) {
        Err(Error::Auth(e)) => assert_eq!(e.code, 45),
        other => panic!("unexpected {other:?}"),
    }
    match into_result(resp) {
        Err(Error::Response(e)) => assert_eq!(e.description, "User 'Quark' is not found"),
        other => panic!("unexpected {other:?}"),
    }
    assert!(auth_result(ok_response(0, vec![0x80])).is_ok());
}

#[test]
fn supervisor_steps() {
    assert_eq!(
        dispatcher_step(DispatcherState::Connected, DispatcherEvent::ConnectionEnded { senders_gone: true }),
        (DispatcherState::Stopped, DispatcherAction::Exit)
    );
    assert_eq!(
        dispatcher_step(DispatcherState::Connected, DispatcherEvent::ConnectionEnded { senders_gone: false }),
        (DispatcherState::Disconnected { failed_attempts: 0 }, DispatcherAction::Connect)
    );
    assert_eq!(
        dispatcher_step(
            DispatcherState::Disconnected { failed_attempts: 0 },
            DispatcherEvent::ConnectFinished { ok: false }
        ),
        (DispatcherState::Disconnected { failed_attempts: 1 }, DispatcherAction::SleepThenConnect)
    );
    assert_eq!(
        dispatcher_step(
            DispatcherState::Disconnected { failed_attempts: 3 },
            DispatcherEvent::ConnectFinished { ok: true }
        ),
        (DispatcherState::Connected, DispatcherAction::Run)
    );
    assert_eq!(floor_min_interval(0), 1);
    assert_eq!(floor_min_interval(1000), 1000);
}

#[test]
fn statement_cache_hits_and_evicts() {
    assert!(SqlStatementCache::new(0).is_none());
    let mut cache = SqlStatementCache::new(1).unwrap();
    assert_eq!(cache.get("SELECT 1"), None);
    cache.put("SELECT 1".to_string(), 11);
    assert_eq!(cache.get("SELECT 1"), Some(11));
    cache.put("SELECT 2".to_string(), 22);
    assert_eq!(cache.get("SELECT 2"), Some(22));
    assert_eq!(cache.get("SELECT 1"), None);
}

#[test]
fn execute_plan_by_id_or_text() {
    let hit = plan_execute(Some(7), "SELECT 1".to_string(), vec![0x90], true);
    assert!(!hit.prepare);
    assert!(matches!(hit.execute.statement, ExecuteStatement::StatementId(7)));
    let miss = plan_execute(None, "SELECT 1".to_string(), vec![0x90], true);
    assert!(miss.prepare);
    assert!(matches!(miss.execute.statement, ExecuteStatement::Query(ref q) if q == "SELECT 1"));
    let busy = plan_execute(None, "SELECT 1".to_string(), vec![0x90], false);
    assert!(!busy.prepare);
}

fn index(id: u32, name: &str) -> IndexMetadata {
    IndexMetadata { space_id: 512, index_id: id, name: name.to_string(), type_: "TREE".to_string() }
}

#[test]
fn unique_id_name_map_rules() {
    let mut map = UniqueIdNameMap::new();
    assert!(matches!(map.insert(index(0, "primary")), Ok(None)));
    assert!(matches!(map.insert(index(1, "by_name")), Ok(None)));
    assert!(matches!(map.insert(index(0, "primary")), Ok(Some(_))));
    assert_eq!(map.insert(index(0, "other")).err(), Some(UniqueIdNameError::IdOnly));
    assert_eq!(map.insert(index(5, "primary")).err(), Some(UniqueIdNameError::NameOnly));
    assert_eq!(map.insert(index(1, "primary")).err(), Some(UniqueIdNameError::TwoEntries));
    assert_eq!(map.len(), 2);
    let built = UniqueIdNameMap::try_from_iter(vec![index(0, "a"), index(1, "b")]).unwrap();
    assert_eq!(built.len(), 2);
    assert!(UniqueIdNameMap::try_from_iter(vec![index(0, "a"), index(0, "b")]).is_err());
}

#[test]
fn schema_helpers() {
    assert_eq!(SystemSpacesId::VSpace.id(), 281);
    assert_eq!(SystemSpacesId::VIndex.id(), 289);
    assert_eq!(SchemaEntityKey::Name("x".to_string()).space_index_id(), 2);
    assert_eq!(SchemaEntityKey::Id(3).space_index_id(), 0);
    assert!(index(0, "p").is_primary());
    assert!(!index(1, "s").is_primary());
    let idx = GenericIndex::new("exec", 1u8, 2u8);
    assert_eq!(*idx.executor(), "exec");
    assert_eq!(idx.into_executor(), "exec");
    let executor = String::from("conn");
    let stmt = PreparedSqlStatement::new(42, &executor);
    let owned = stmt.with_cloned_executor();
    assert_eq!(owned.stmt_id(), 42);
}

fn data_body(items: &[u8], n: u8) -> Vec<u8> {
    let mut body = vec![0x81, 0x30, 0x90 + n];
    body.extend_from_slice(items);
    body
}

#[test]
fn data_tuple_items() {
    let body = data_body(&[0x01, 0xa3, b't', b'w', b'o', 0xc3], 3);
    let items = data_tuple(&body).unwrap();
    assert_eq!(items, vec![vec![0x01], vec![0xa3, b't', b'w', b'o'], vec![0xc3]]);
    assert_eq!(extract_iproto_data(&body).unwrap(), body[2..].to_vec());
    assert_eq!(first_item(items.clone()).unwrap(), vec![0x01]);
    assert_eq!(first_two(items.clone()).unwrap(), (vec![0x01], vec![0xa3, b't', b'w', b'o']));
    assert_eq!(first_row(items).unwrap(), vec![0x01]);
    assert_eq!(first_row(vec![]), None);
    assert_eq!(
        first_two(vec![vec![0x01]]).unwrap_err().kind,
        DecodingErrorDetails::InvalidTupleLength { expected: 2, actual: 1 }
    );
    assert_eq!(
        first_item(vec![]).unwrap_err().kind,
        DecodingErrorDetails::InvalidTupleLength { expected: 1, actual: 0 }
    );
}

#[test]
fn data_key_missing_or_wrong_type() {
    assert_eq!(
        data_tuple(&[0x81, 0x42, 0x80]).unwrap_err().kind,
        DecodingErrorDetails::MissingKey(ProtocolKey::Data)
    );
    assert_eq!(
        data_tuple(&[0x91, 0x01]).unwrap_err().kind,
        DecodingErrorDetails::TypeMismatch(0x91)
    );
    assert_eq!(array_items(&[0x81, 0x01, 0x02], 0).unwrap_err().kind, DecodingErrorDetails::TypeMismatch(0x81));
}

#[test]
fn call_result_value_or_error() {
    assert_eq!(call_result(vec![vec![0x05]]).unwrap(), vec![0x05]);
    assert_eq!(call_result(vec![vec![0x05], vec![0xc0]]).unwrap(), vec![0x05]);
    match call_result(vec![vec![0xc0], vec![0xa1, b'e']]) {
        Err(Error::CallEval(e)) => assert_eq!(e, vec![0xa1, b'e']),
        other => panic!("unexpected {other:?}"),
    }
    assert!(matches!(call_result(vec![]), Err(Error::Decode(_))));
}

#[test]
fn prepare_and_sql_info_bodies() {
    let prepared = vec![0x82, 0x43, 0xcd, 0x01, 0x00, 0x34, 0x90];
    assert_eq!(prepared_statement_id(&prepared).unwrap(), 256);
    assert_eq!(
        prepared_statement_id(&[0x80]).unwrap_err().kind,
        DecodingErrorDetails::MissingKey(ProtocolKey::SqlStmtId)
    );
    let dml = vec![0x81, 0x42, 0x81, 0x00, 0x03];
    assert_eq!(row_count(&dml).unwrap(), 3);
}

#[test]
fn empty_arguments_become_empty_array() {
    assert_eq!(as_tuple(vec![0xc0]), vec![0x90]);
    assert_eq!(as_tuple(vec![0x91, 0x01]), vec![0x91, 0x01]);
}

fn greeting_with_salt(salt: &str) -> Vec<u8> {
    let mut buf = vec![b' '; 128];
    let banner = b"Tarantool 2.11.0 (Binary) 7e2c3c41-7b2e-4d5a-9b7a-000000000000";
    buf[..banner.len()].copy_from_slice(banner);
    buf[63] = b'\n';
    buf[64..64 + salt.len()].copy_from_slice(salt.as_bytes());
    buf[127] = b'\n';
    buf
}

#[test]
fn greeting_decodes_salt() {
    let buf = greeting_with_salt("AAECAwQFBgcICQoLDA0ODxAREhMUFRYXGBkaGxwdHh8=");
    let g = Greeting::decode(&buf).unwrap();
    assert_eq!(g.salt, (0u8..32).collect::<Vec<u8>>());
    assert!(g.server.starts_with("Tarantool 2.11.0 (Binary)"));
}

#[test]
fn greeting_rejects_empty_or_bad_salt() {
    assert_eq!(Greeting::decode(&greeting_with_salt("")).unwrap_err(), GreetingError::EmptySalt);
    assert_eq!(Greeting::decode(&greeting_with_salt("!!!!")).unwrap_err(), GreetingError::InvalidSalt);
}

#[test]
fn commit_request_header() {
    let r = EncodedRequest::new(Commit {}, Some(1)).unwrap();
    assert_eq!(r.request_type.code(), 15);
}

#[test]
fn cancelled_request_takes_no_sync() {
    let mut data: ConnectionData<&str> = ConnectionData::new();
    assert!(matches!(data.accept_request(ping(), "gone", true), Admission::Cancelled));
    match data.accept_request(ping(), "live", false) {
        Admission::Write(r) => assert_eq!(r.sync, 0),
        _ => panic!("expected the request to be written"),
    }
    assert_eq!(data.len(), 1);
}
