use delta_bridge::dispatch::{
    checkpoint_complete, history, mutation_complete, open_complete, table_checkpoint,
    table_load_version, table_metadata, table_new, table_update_incremental, Completion, Delivery,
    EngineOutcome, Runtime, TableOptions, TaskKind,
};
use delta_bridge::errors::{error_free, translate_fault, EngineFault, ErrorCode};
use delta_bridge::handle::{table_free, table_uri, table_version, TableHandle, TableState};
use delta_bridge::token::{
    cancellation_check, cancellation_token_cancel, cancellation_token_free, cancellation_token_new,
};

fn ready_state() -> TableState {
    TableState {
        version: 4,
        uri: "memory://table".to_string(),
        has_snapshot: true,
        files: Some(vec!["part-0.parquet".to_string(), "part-1.parquet".to_string()]),
    }
}

#[test]
fn open_rejects_invalid_utf8_location() {
    let mut rt = Runtime::new(2);
    let location = vec![0xff, 0xfe, 0x00];
    let r = table_new(
        &mut rt,
        location,
        TableOptions { version: 0, storage_options: None, without_files: false, log_buffer_size: 0 },
    );
    match r {
        Err(e) => assert_eq!(e.code, ErrorCode::Utf8),
        Ok(_) => panic!("invalid UTF-8 must be rejected"),
    }
    assert_eq!(rt.queue.len(), 0);
}

#[test]
fn open_shapes_loader_options_and_queues_work() {
    let mut rt = Runtime::new(2);
    let location = "memory://table".as_bytes().to_vec();
    let r = table_new(
        &mut rt,
        location,
        TableOptions { version: 3, storage_options: None, without_files: true, log_buffer_size: 0 },
    );
    let req = r.expect("valid UTF-8 location must be accepted");
    assert_eq!(req.uri, "memory://table");
    assert_eq!(req.version, Some(3));
    assert!(req.without_files);
    assert_eq!(req.log_buffer_size, None);
    assert_eq!(rt.queue, vec![TaskKind::Open]);
}

#[test]
fn open_completion_delivers_handle_exactly_once() {
    let mut c = Completion::new();
    let d = open_complete(EngineOutcome::Done(ready_state()), &mut c);
    assert!(c.delivered);
    match d {
        Delivery::Success(h) => {
            assert_eq!(table_version(&h).unwrap(), 4);
        }
        Delivery::Failure(_) => panic!("a loaded table must arrive as a handle"),
    }
}

#[test]
fn open_completion_translates_engine_fault() {
    let mut c = Completion::new();
    let d = open_complete(
        EngineOutcome::Failed(EngineFault::NotFound, "no such table".to_string()),
        &mut c,
    );
    match d {
        Delivery::Failure(e) => {
            assert_eq!(e.code, ErrorCode::NotFound);
            assert_eq!(e.message, "no such table");
            error_free(e);
        }
        Delivery::Success(_) => panic!("a failed load must arrive as an error"),
    }
}

#[test]
fn free_then_use_is_detected() {
    let mut h = TableHandle::new(ready_state());
    assert!(table_free(&mut h).is_ok());
    match table_version(&h) {
        Err(e) => assert_eq!(e.code, ErrorCode::Protocol),
        Ok(_) => panic!("use after free must be detected"),
    }
    match table_uri(&h) {
        Err(e) => assert_eq!(e.code, ErrorCode::Protocol),
        Ok(_) => panic!("use after free must be detected"),
    }
    match table_free(&mut h) {
        Err(e) => assert_eq!(e.code, ErrorCode::Protocol),
        Ok(_) => panic!("double free must be detected"),
    }
}

#[test]
fn overlapping_mutations_are_refused() {
    let mut rt = Runtime::new(1);
    let mut h = TableHandle::new(ready_state());
    assert_eq!(table_load_version(&mut rt, &mut h, 7).unwrap(), 7);
    match table_update_incremental(&mut rt, &mut h) {
        Err(e) => assert_eq!(e.code, ErrorCode::Protocol),
        Ok(_) => panic!("a second in-flight mutation must be refused"),
    }
    assert_eq!(rt.queue, vec![TaskKind::LoadVersion]);

    let mut c = Completion::new();
    let new_state = TableState { version: 7, ..ready_state() };
    mutation_complete(&mut h, EngineOutcome::Done(new_state), &mut c);
    assert_eq!(table_version(&h).unwrap(), 7);

    // With the first mutation finished, the handle takes new work.
    assert!(table_update_incremental(&mut rt, &mut h).is_ok());
}

#[test]
fn failed_mutation_keeps_previous_state() {
    let mut rt = Runtime::new(1);
    let mut h = TableHandle::new(ready_state());
    table_load_version(&mut rt, &mut h, 9).unwrap();
    let mut c = Completion::new();
    let d = mutation_complete(
        &mut h,
        EngineOutcome::Failed(EngineFault::Storage, "store offline".to_string()),
        &mut c,
    );
    match d {
        Delivery::Failure(e) => assert_eq!(e.code, ErrorCode::Storage),
        Delivery::Success(_) => panic!("a failed load must arrive as an error"),
    }
    assert_eq!(table_version(&h).unwrap(), 4);
}

#[test]
fn checkpoint_failure_is_a_protocol_error() {
    let mut rt = Runtime::new(1);
    let h = TableHandle::new(ready_state());
    assert!(table_checkpoint(&mut rt, &h).is_ok());
    assert_eq!(rt.queue, vec![TaskKind::Checkpoint]);
    let mut c = Completion::new();
    let d = checkpoint_complete(
        delta_bridge::dispatch::CheckpointOutcome::Failed("torn log".to_string()),
        &mut c,
    );
    match d {
        Delivery::Failure(e) => {
            assert_eq!(e.code, ErrorCode::Protocol);
            assert_eq!(e.message, "torn log");
        }
        Delivery::Success(_) => panic!("a failed checkpoint must arrive as an error"),
    }
}

#[test]
fn cancel_after_completion_is_harmless() {
    let mut c = Completion::new();
    let d = checkpoint_complete(delta_bridge::dispatch::CheckpointOutcome::Done, &mut c);
    assert!(matches!(d, Delivery::Success(())));
    assert!(c.delivered);

    let mut t = cancellation_token_new();
    assert!(cancellation_check(&t).is_none());
    cancellation_token_cancel(&mut t);
    cancellation_token_cancel(&mut t);
    match cancellation_check(&t) {
        Some(e) => assert_eq!(e.code, ErrorCode::Cancelled),
        None => panic!("a cancelled token must report the cancelled category"),
    }
    // The completion has already run; cancelling changed nothing there.
    assert!(c.delivered);
    cancellation_token_free(t);
}

#[test]
fn engine_faults_translate_one_to_one() {
    let cases = vec![
        (EngineFault::NotFound, ErrorCode::NotFound),
        (EngineFault::Storage, ErrorCode::Storage),
        (EngineFault::Protocol, ErrorCode::Protocol),
        (EngineFault::NoMetadata, ErrorCode::MissingMetadata),
    ];
    for (fault, code) in cases {
        let e = translate_fault(fault, "m".to_string());
        assert_eq!(e.code, code);
        assert_eq!(e.message, "m");
    }
}

#[test]
fn runtime_queue_drains_in_submission_order() {
    let mut rt = Runtime::new(3);
    let mut h = TableHandle::new(ready_state());
    table_load_version(&mut rt, &mut h, 5).unwrap();
    table_checkpoint(&mut rt, &h).unwrap();
    assert_eq!(rt.take_task(), Some(TaskKind::LoadVersion));
    assert_eq!(rt.take_task(), Some(TaskKind::Checkpoint));
    assert_eq!(rt.take_task(), None);
}

#[test]
fn stub_operations_report_not_implemented() {
    let rt = Runtime::new(1);
    let h = TableHandle::new(ready_state());
    let mut c = Completion::new();
    match history(&rt, &h, 10, &mut c) {
        Delivery::Failure(e) => assert_eq!(e.code, ErrorCode::NotImplemented),
        Delivery::Success(_) => panic!("history has no behaviour yet"),
    }
    let mut c2 = Completion::new();
    match table_metadata(&h, &mut c2) {
        Delivery::Failure(e) => assert_eq!(e.code, ErrorCode::NotImplemented),
        Delivery::Success(_) => panic!("metadata fetch has no behaviour yet"),
    }
}
