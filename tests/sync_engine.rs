use std::collections::HashMap;

use fimo::feed::{process_change_event, ChangeEvent, FeedBatcher, OpKind};
use fimo::key::{FieldPosition, KeyValue, SourceDoc};
use fimo::poll::{next_delay, page_position, PollAction, PollFilter, PollLoop, IDLE_CEILING_MS, IDLE_FLOOR_MS};
use fimo::sync::{
    after_flush, classify_target, resolve_checkpoint, settings_from, start_position, Cli, Stored, SyncError,
    SyncMode,
};
use fimo::version::is_version_8_or_higher;
use fimo::write::{checkpoint_advances, failed_writes, plan_upserts, WriteReport, WriteStrategy};

fn text(s: &str) -> KeyValue {
    KeyValue::Text(s.as_bytes().to_vec())
}

fn doc(name: &str, value: Option<i64>, id: Option<&str>) -> SourceDoc<String> {
    SourceDoc { doc: name.to_string(), id: id.map(text), value: value.map(KeyValue::Int) }
}

fn pos(value: KeyValue, id: KeyValue) -> FieldPosition {
    FieldPosition { value, id }
}

fn event(kind: OpKind, token: &str, d: &str) -> ChangeEvent<String> {
    ChangeEvent { kind, token: token.to_string(), full_document: Some(d.to_string()) }
}

fn base_cli() -> Cli {
    Cli {
        source_uri: "mongodb://source".to_string(),
        source_db: "db".to_string(),
        source_collection: "c".to_string(),
        target_uri: "mongodb://target".to_string(),
        target_db: "db".to_string(),
        target_collection: "c".to_string(),
        use_change_stream: false,
        sync_field: None,
        resume_value: None,
        resume_type: None,
        resume_file: None,
        store_resume: false,
        limit: None,
        concurrency: None,
        health_file: None,
        ignore_corrupt_resume: false,
    }
}

fn position_is(p: &Option<FieldPosition>, value: &KeyValue, id: &KeyValue) -> bool {
    match p {
        Some(p) => p.value.same_as(value) && p.id.same_as(id),
        None => false,
    }
}

#[test]
fn cold_start_field_mode_checkpoints_last_document() {
    let mut lp = PollLoop::new(false, start_position(None, false), IDLE_FLOOR_MS, IDLE_CEILING_MS);
    assert!(lp.position.is_none());
    let page = vec![doc("a", Some(1), Some("a")), doc("b", Some(2), Some("b")), doc("c", Some(2), Some("c"))];
    // the page is in fetch order: a(1), b(2), c(2)
    for w in page.windows(2) {
        let (x, y) = (&w[0], &w[1]);
        let xv = x.value.as_ref().unwrap();
        let yv = y.value.as_ref().unwrap();
        let ordered = xv.less_than(yv) || (xv.same_as(yv) && x.id.as_ref().unwrap().less_than(y.id.as_ref().unwrap()));
        assert!(ordered);
    }
    assert!(matches!(lp.on_page(page.len()), PollAction::Flush));
    let last = page_position(&page, false);
    assert!(position_is(&last, &KeyValue::Int(2), &text("c")));
    lp.on_flushed(last, true);
    assert!(position_is(&lp.position, &KeyValue::Int(2), &text("c")));
}

#[test]
fn resumed_poll_admits_only_later_documents() {
    let p = pos(KeyValue::Int(2), text("c"));
    assert!(!p.admits(&KeyValue::Int(1), &text("z"), false));
    assert!(!p.admits(&KeyValue::Int(2), &text("b"), false));
    assert!(!p.admits(&KeyValue::Int(2), &text("c"), false));
    assert!(p.admits(&KeyValue::Int(2), &text("d"), false));
    assert!(p.admits(&KeyValue::Int(3), &text("a"), false));
    let q = pos(text("m"), text("m"));
    assert!(!q.admits(&text("m"), &text("m"), true));
    assert!(q.admits(&text("n"), &text("n"), true));
    assert!(!q.admits(&text("a"), &text("a"), true));
}

#[test]
fn equal_field_values_order_by_identity() {
    let p = pos(KeyValue::Int(2), text("b"));
    assert!(p.admits(&KeyValue::Int(2), &text("c"), false));
    assert!(!p.admits(&KeyValue::Int(2), &text("a"), false));
}

#[test]
fn key_values_order_by_kind_then_content() {
    assert!(KeyValue::Int(100).less_than(&text("a")));
    assert!(text("zz").less_than(&KeyValue::ObjectId(vec![0])));
    assert!(KeyValue::ObjectId(vec![255]).less_than(&KeyValue::Date(0)));
    assert!(text("ab").less_than(&text("abc")));
    assert!(!text("abc").less_than(&text("ab")));
    assert!(text("abc").less_than(&text("abd")));
    assert!(KeyValue::Int(-5).less_than(&KeyValue::Int(3)));
    assert!(text("x").same_as(&text("x")));
    assert!(!text("x").same_as(&KeyValue::ObjectId(b"x".to_vec())));
}

#[test]
fn idle_backoff_doubles_to_ceiling_and_resets() {
    let mut lp = PollLoop::new(false, None, IDLE_FLOOR_MS, IDLE_CEILING_MS);
    let mut slept = Vec::new();
    for _ in 0..5 {
        match lp.on_page(0) {
            PollAction::Sleep(ms) => slept.push(ms),
            PollAction::Flush => panic!("empty poll flushed"),
        }
    }
    assert_eq!(slept, vec![10_000, 20_000, 40_000, 60_000, 60_000]);
    assert_eq!(lp.delay, 60_000);
    assert!(matches!(lp.on_page(3), PollAction::Flush));
    assert_eq!(lp.delay, 10_000);
    assert!(matches!(lp.on_page(0), PollAction::Sleep(10_000)));
}

#[test]
fn next_delay_formula() {
    assert_eq!(next_delay(10_000, 60_000), 20_000);
    assert_eq!(next_delay(40_000, 60_000), 60_000);
    assert_eq!(next_delay(60_000, 60_000), 60_000);
    assert_eq!(next_delay(u64::MAX / 2 + 1, u64::MAX), u64::MAX);
}

#[test]
fn feed_batch_keeps_inserts_and_updates_only() {
    let mut b: FeedBatcher<String> = FeedBatcher::new(100);
    assert!(b.push_event(event(OpKind::Insert, "t1", "doc1")).is_none());
    assert!(b.push_event(event(OpKind::Delete, "t2", "doc2")).is_none());
    assert!(b.push_event(event(OpKind::Update, "t3", "doc3")).is_none());
    let f = b.finish().unwrap();
    assert_eq!(f.docs, vec!["doc1".to_string(), "doc3".to_string()]);
    assert_eq!(f.token, "t3");
    assert!(b.finish().is_none());
}

#[test]
fn feed_batch_flushes_at_limit_with_token() {
    let mut b: FeedBatcher<String> = FeedBatcher::new(2);
    assert!(b.push_event(event(OpKind::Replace, "t1", "d1")).is_none());
    assert!(b.push_event(event(OpKind::Other, "t2", "d2")).is_none());
    let f = b.push_event(event(OpKind::Insert, "t3", "d3")).unwrap();
    assert_eq!(f.docs, vec!["d1".to_string(), "d3".to_string()]);
    assert_eq!(f.token, "t3");
    assert_eq!(b.batch.len(), 0);
    assert!(b.push_event(event(OpKind::Delete, "t4", "d4")).is_none());
    assert!(b.finish().is_none());
}

#[test]
fn change_events_without_document_contribute_nothing() {
    let e: ChangeEvent<String> = ChangeEvent { kind: OpKind::Update, token: "t".to_string(), full_document: None };
    assert_eq!(process_change_event(e), None);
    assert_eq!(process_change_event(event(OpKind::Delete, "t", "d")), None);
    assert_eq!(process_change_event(event(OpKind::Insert, "t", "d")), Some("d".to_string()));
}

#[test]
fn atomic_target_drops_documents_without_identity() {
    let strategy = classify_target(Some("8.0.3".to_string()), 10).unwrap();
    assert_eq!(strategy, WriteStrategy::Atomic);
    let batch = vec![
        doc("d1", None, Some("1")),
        doc("d2", None, Some("2")),
        doc("d3", None, None),
        doc("d4", None, Some("4")),
        doc("d5", None, Some("5")),
    ];
    let ops = plan_upserts(batch);
    let names: Vec<&str> = ops.iter().map(|u| u.doc.as_str()).collect();
    assert_eq!(names, vec!["d1", "d2", "d4", "d5"]);
    assert!(ops[2].id.same_as(&text("4")));
    assert!(checkpoint_advances(&WriteReport::Bulk(true)));
    assert!(!checkpoint_advances(&WriteReport::Bulk(false)));
}

#[test]
fn fallback_target_advances_past_failed_document() {
    let strategy = classify_target(Some("7.0.14".to_string()), 2).unwrap();
    assert_eq!(strategy, WriteStrategy::Fallback(2));
    let results = vec![true, true, false, true, true];
    assert_eq!(failed_writes(&results), 1);
    let report = WriteReport::PerDocument(results);
    assert!(checkpoint_advances(&report));
    let mut cli = base_cli();
    cli.sync_field = Some("updatedAt".to_string());
    cli.store_resume = true;
    cli.resume_file = Some("resume.json".to_string());
    let settings = settings_from(&cli).unwrap();
    let fx = after_flush(&report, &settings);
    assert!(fx.advance && fx.save_checkpoint && !fx.touch_health);
    let fx = after_flush(&WriteReport::Bulk(false), &settings);
    assert!(!fx.advance && !fx.save_checkpoint && !fx.touch_health);
}

#[test]
fn unknown_target_version_is_an_error() {
    assert_eq!(classify_target(None, 10), Err(SyncError::UnknownTargetVersion));
}

#[test]
fn replaying_a_batch_leaves_target_unchanged() {
    let batch = || vec![doc("a1", None, Some("a")), doc("b1", None, Some("b")), doc("a2", None, Some("a"))];
    let mut target: HashMap<Vec<u8>, String> = HashMap::new();
    target.insert(b"z".to_vec(), "z0".to_string());
    let apply = |t: &mut HashMap<Vec<u8>, String>| {
        for u in plan_upserts(batch()) {
            match u.id {
                KeyValue::Text(k) => {
                    t.insert(k, u.doc);
                }
                _ => panic!("unexpected key"),
            }
        }
    };
    apply(&mut target);
    let once = target.clone();
    apply(&mut target);
    assert_eq!(target, once);
    assert_eq!(once.get(&b"a".to_vec()), Some(&"a2".to_string()));
    assert_eq!(once.len(), 3);
}

#[test]
fn version_strings() {
    assert!(is_version_8_or_higher("8.0.0"));
    assert!(is_version_8_or_higher("10.1"));
    assert!(!is_version_8_or_higher("7.0.14"));
    assert!(!is_version_8_or_higher(""));
    assert!(!is_version_8_or_higher("rc.x"));
    assert!(is_version_8_or_higher("abc.9"));
    assert!(is_version_8_or_higher("+8.1"));
    assert!(is_version_8_or_higher("4294967296.9"));
    assert!(!is_version_8_or_higher("-8.1"));
    assert!(!is_version_8_or_higher("6-rc1.2"));
}

#[test]
fn settings_errors() {
    let cli = base_cli();
    assert!(matches!(settings_from(&cli), Err(SyncError::MissingMode)));
    let mut cli = base_cli();
    cli.use_change_stream = true;
    cli.sync_field = Some("f".to_string());
    assert!(matches!(settings_from(&cli), Err(SyncError::ConflictingModes)));
    let mut cli = base_cli();
    cli.use_change_stream = true;
    cli.limit = Some(0);
    assert!(matches!(settings_from(&cli), Err(SyncError::ZeroBatchLimit)));
    let mut cli = base_cli();
    cli.use_change_stream = true;
    cli.concurrency = Some(0);
    assert!(matches!(settings_from(&cli), Err(SyncError::ZeroConcurrency)));
}

#[test]
fn settings_defaults() {
    let mut cli = base_cli();
    cli.use_change_stream = true;
    cli.health_file = Some("health".to_string());
    let s = settings_from(&cli).unwrap();
    assert!(matches!(s.mode, SyncMode::Feed));
    assert_eq!(s.batch_limit, 100);
    assert_eq!(s.concurrency, 10);
    let fx = after_flush(&WriteReport::Bulk(true), &s);
    assert!(fx.advance && !fx.save_checkpoint && fx.touch_health);
    let mut cli = base_cli();
    cli.sync_field = Some("ts".to_string());
    cli.limit = Some(5);
    let s = settings_from(&cli).unwrap();
    assert!(matches!(s.mode, SyncMode::Field(ref f) if f == "ts"));
    assert_eq!(s.batch_limit, 5);
}

#[test]
fn checkpoint_resolution() {
    assert_eq!(resolve_checkpoint::<u8>(Stored::Absent, false), Ok(None));
    assert_eq!(resolve_checkpoint(Stored::Parsed(7u8), false), Ok(Some(7)));
    assert_eq!(resolve_checkpoint::<u8>(Stored::Corrupt, false), Err(SyncError::CorruptCheckpoint));
    assert_eq!(resolve_checkpoint::<u8>(Stored::Corrupt, true), Ok(None));
}

#[test]
fn identity_polling_resumes_on_stored_value() {
    let p = start_position(Some(pos(text("k"), text("other"))), true);
    assert!(position_is(&p, &text("k"), &text("k")));
    let p = start_position(Some(pos(KeyValue::Int(4), text("x"))), false);
    assert!(position_is(&p, &KeyValue::Int(4), &text("x")));
    let page = vec![doc("a", None, Some("q"))];
    assert!(position_is(&page_position(&page, true), &text("q"), &text("q")));
    assert!(page_position(&page, false).is_none());
    let empty: Vec<SourceDoc<String>> = Vec::new();
    assert!(page_position(&empty, false).is_none());
}

#[test]
fn failed_flush_keeps_position() {
    let mut lp = PollLoop::new(false, Some(pos(KeyValue::Int(1), text("a"))), 5, 20);
    lp.on_flushed(Some(pos(KeyValue::Int(9), text("z"))), false);
    assert!(position_is(&lp.position, &KeyValue::Int(1), &text("a")));
    lp.on_flushed(None, true);
    assert!(position_is(&lp.position, &KeyValue::Int(1), &text("a")));
}

#[test]
fn error_messages_are_distinct() {
    assert_ne!(SyncError::MissingMode.message(), SyncError::ConflictingModes.message());
    assert!(SyncError::CorruptCheckpoint.message().contains("checkpoint"));
}

#[test]
fn polling_on_identity_uses_value_filter() {
    let lp = PollLoop::for_field("_id", Some(pos(text("k"), text("ignored"))));
    assert!(lp.by_id);
    assert_eq!(lp.delay, IDLE_FLOOR_MS);
    match lp.filter() {
        PollFilter::ValueAfter(v) => assert!(v.same_as(&text("k"))),
        _ => panic!("expected a value filter"),
    }
    assert!(position_is(&lp.position, &text("k"), &text("k")));
}

#[test]
fn polling_on_field_uses_position_filter() {
    let lp = PollLoop::for_field("updatedAt", Some(pos(KeyValue::Date(5), text("a"))));
    assert!(!lp.by_id);
    match lp.filter() {
        PollFilter::PositionAfter(p) => {
            assert!(p.value.same_as(&KeyValue::Date(5)) && p.id.same_as(&text("a")));
        }
        _ => panic!("expected a position filter"),
    }
    let cold = PollLoop::for_field("updatedAt", None);
    assert!(matches!(cold.filter(), PollFilter::All));
}
