use delta_bridge::buffers::{byte_array_free, dynamic_array_free, ByteArray, SerializedBuffer};
use delta_bridge::dispatch::{
    schema_complete, table_schema, table_vacuum, vacuum_complete, Completion, Delivery, Runtime,
    TaskKind, VacuumOutcome,
};
use delta_bridge::errors::{EngineFault, ErrorCode};
use delta_bridge::handle::{table_file_uris, table_files, TableHandle, TableState};
use delta_bridge::strmap::{map_add, map_free, map_new};
use delta_bridge::vacuum::{build_vacuum_plan, VacuumOptions};

fn snapshot_state() -> TableState {
    TableState {
        version: 10,
        uri: "memory://t".to_string(),
        has_snapshot: true,
        files: Some(vec!["a.parquet".to_string(), "b.parquet".to_string()]),
    }
}

#[test]
fn zero_retention_hours_means_engine_default() {
    let plan = build_vacuum_plan(VacuumOptions {
        dry_run: true,
        retention_hours: 0,
        enforce_retention_duration: true,
        custom_metadata: None,
    });
    assert!(plan.retention.is_none());
    assert!(plan.dry_run);
    assert!(plan.enforce_retention_duration);
    assert!(plan.metadata.is_none());
}

#[test]
fn positive_retention_hours_convert_exactly() {
    let plan = build_vacuum_plan(VacuumOptions {
        dry_run: false,
        retention_hours: 5,
        enforce_retention_duration: false,
        custom_metadata: None,
    });
    let d = plan.retention.expect("five hours must yield a duration");
    assert_eq!(d.num_seconds(), 5 * 3600);
    assert_eq!(d, chrono::TimeDelta::try_hours(5).unwrap());
}

#[test]
fn metadata_map_reaches_the_plan_unchanged() {
    let mut m = map_new(4);
    map_add(&mut m, "owner".to_string(), "alpha".to_string());
    map_add(&mut m, "reason".to_string(), "cleanup".to_string());
    map_add(&mut m, "owner".to_string(), "beta".to_string());
    let plan = build_vacuum_plan(VacuumOptions {
        dry_run: false,
        retention_hours: 0,
        enforce_retention_duration: true,
        custom_metadata: Some(m),
    });
    let jm = plan.metadata.expect("a supplied map must reach the plan");
    assert_eq!(jm.len(), 2);
    assert_eq!(jm.get("owner"), Some(&serde_json::Value::String("beta".to_string())));
    assert_eq!(jm.get("reason"), Some(&serde_json::Value::String("cleanup".to_string())));
}

#[test]
fn vacuum_without_snapshot_fails_fast_and_queues_nothing() {
    let mut rt = Runtime::new(2);
    let mut h = TableHandle::new(TableState { has_snapshot: false, files: None, ..snapshot_state() });
    let r = table_vacuum(
        &mut rt,
        &mut h,
        VacuumOptions {
            dry_run: false,
            retention_hours: 1,
            enforce_retention_duration: true,
            custom_metadata: None,
        },
    );
    match r {
        Err(e) => assert_eq!(e.code, ErrorCode::MissingMetadata),
        Ok(_) => panic!("vacuum without snapshot state must fail"),
    }
    assert_eq!(rt.queue.len(), 0);
    assert!(!h.mutating);
}

#[test]
fn vacuum_round_trip_replaces_state_and_returns_deleted_files() {
    let mut rt = Runtime::new(2);
    let mut h = TableHandle::new(snapshot_state());
    let plan = table_vacuum(
        &mut rt,
        &mut h,
        VacuumOptions {
            dry_run: false,
            retention_hours: 168,
            enforce_retention_duration: true,
            custom_metadata: None,
        },
    )
    .expect("vacuum on a ready handle must submit");
    assert_eq!(plan.retention.unwrap().num_seconds(), 168 * 3600);
    assert_eq!(rt.queue, vec![TaskKind::Vacuum]);
    assert!(h.mutating);

    let post = TableState { version: 11, files: Some(vec!["b.parquet".to_string()]), ..snapshot_state() };
    let mut c = Completion::new();
    let d = vacuum_complete(
        &mut h,
        VacuumOutcome::Done(post, vec!["a.parquet".to_string()]),
        &mut c,
    );
    assert!(c.delivered);
    match d {
        Delivery::Success(a) => {
            assert_eq!(a.len(), 1);
            assert_eq!(a.items[0].bytes, b"a.parquet".to_vec());
            dynamic_array_free(a);
        }
        Delivery::Failure(_) => panic!("a finished vacuum must deliver its file list"),
    }
    assert!(!h.mutating);
    assert_eq!(delta_bridge::handle::table_version(&h).unwrap(), 11);
}

#[test]
fn vacuum_engine_fault_keeps_state() {
    let mut rt = Runtime::new(2);
    let mut h = TableHandle::new(snapshot_state());
    table_vacuum(
        &mut rt,
        &mut h,
        VacuumOptions {
            dry_run: true,
            retention_hours: 0,
            enforce_retention_duration: false,
            custom_metadata: None,
        },
    )
    .unwrap();
    let mut c = Completion::new();
    let d = vacuum_complete(
        &mut h,
        VacuumOutcome::Failed(EngineFault::Protocol, "bad log entry".to_string()),
        &mut c,
    );
    match d {
        Delivery::Failure(e) => assert_eq!(e.code, ErrorCode::Protocol),
        Delivery::Success(_) => panic!("a failed vacuum must arrive as an error"),
    }
    assert_eq!(delta_bridge::handle::table_version(&h).unwrap(), 10);
}

#[test]
fn file_listings_need_snapshot_state() {
    let h = TableHandle::new(snapshot_state());
    let files = table_files(&h).unwrap();
    assert_eq!(files.items[0].bytes, b"a.parquet".to_vec());
    assert_eq!(files.items[1].bytes, b"b.parquet".to_vec());
    let uris = table_file_uris(&h).unwrap();
    assert_eq!(uris.items[0].bytes, b"memory://t/a.parquet".to_vec());
    assert_eq!(uris.items[1].bytes, b"memory://t/b.parquet".to_vec());

    let bare = TableHandle::new(TableState { has_snapshot: false, files: None, ..snapshot_state() });
    match table_files(&bare) {
        Err(e) => assert_eq!(e.code, ErrorCode::MissingMetadata),
        Ok(_) => panic!("listing without snapshot state must fail"),
    }
}

#[test]
fn schema_fetch_checks_state_and_wraps_offset() {
    let h = TableHandle::new(snapshot_state());
    assert!(table_schema(&h).is_ok());
    let bare = TableHandle::new(TableState { has_snapshot: false, files: None, ..snapshot_state() });
    match table_schema(&bare) {
        Err(e) => assert_eq!(e.code, ErrorCode::MissingMetadata),
        Ok(_) => panic!("schema fetch without snapshot state must fail"),
    }

    let mut c = Completion::new();
    match schema_complete(vec![9, 9, 1, 2, 3], 2, &mut c) {
        Delivery::Success(b) => {
            assert_eq!(b.offset, 2);
            assert_eq!(b.payload_len(), 3);
        }
        Delivery::Failure(_) => panic!("an in-range offset must succeed"),
    }
    let mut c2 = Completion::new();
    match schema_complete(vec![1], 5, &mut c2) {
        Delivery::Failure(e) => assert_eq!(e.code, ErrorCode::Protocol),
        Delivery::Success(_) => panic!("an offset past the end is malformed"),
    }
}

#[test]
fn buffers_carry_their_bytes() {
    let b = ByteArray::from_vec(vec![1, 2, 3]);
    assert_eq!(b.len(), 3);
    assert!(!b.disable_free);
    byte_array_free(b);

    let s = "abc".to_string();
    let b2 = ByteArray::from_string(&s);
    assert_eq!(b2.bytes, b"abc".to_vec());

    let b3 = ByteArray::from_vec_disable_free(vec![7]);
    assert!(b3.disable_free);

    assert!(SerializedBuffer::new(vec![1, 2], 3).is_none());
}

#[test]
fn runtime_allocates_empty_maps() {
    let rt = Runtime::new(1);
    let m = rt.allocate_map(8);
    assert_eq!(m.entry_count(), 0);
    map_free(m);
}

#[test]
fn empty_byte_ranges_mean_absent() {
    assert!(delta_bridge::buffers::to_option_vec(&Vec::new()).is_none());
    assert_eq!(delta_bridge::buffers::to_option_vec(&vec![1u8]), Some(vec![1u8]));
    assert!(delta_bridge::buffers::to_option_string(&String::new()).is_none());
    assert_eq!(
        delta_bridge::buffers::to_option_string(&"x".to_string()),
        Some("x".to_string())
    );
}
