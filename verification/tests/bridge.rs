use maa_bridge::connection::{
    engine_flag_ok, interpret_running, parse_item_index, BuildError, ConnState, EngineCallback,
    MAABuilder, MAAConnection,
};
use maa_bridge::correlation::{CallbackWatcher, CorrelationTable, RetValue};
use maa_bridge::decode::{decode_async_call_info, decode_connection_info, decode_init_failed};
use maa_bridge::events::{
    battle_drop_report, drop_line, handle_async_call_info, handle_connection_info,
    indices_at_level, init_failure_line, max_result_level, recruit_combo_report,
    task_chain_report, wake, ConnectionInfoWhat, DropItem, Events, Operator, RecruitResult,
};
use maa_bridge::msg::AsstMsg;

fn built_connection() -> MAAConnection {
    let builder = MAABuilder::new("/tmp/resources", "127.0.0.1:5555");
    builder.make_connection(true, 42, vec![]).unwrap()
}

#[test]
fn watcher_resolves_to_stored_value() {
    let mut table = CorrelationTable::new();
    table.wake(7, RetValue::Bool(true));
    let watcher = CallbackWatcher::new(7);
    assert_eq!(watcher.poll(&mut table), Some(RetValue::Bool(true)));
}

#[test]
fn no_double_delivery() {
    let mut table = CorrelationTable::new();
    table.wake(7, RetValue::Bool(true));
    let watcher = CallbackWatcher::new(7);
    assert_eq!(watcher.poll(&mut table), Some(RetValue::Bool(true)));
    // The entry was consumed: a second poll stays pending.
    assert_eq!(watcher.poll(&mut table), None);
}

#[test]
fn early_result_waits_for_its_watcher() {
    // The result for request 42 arrives before any watcher exists.
    let mut table = CorrelationTable::new();
    table.wake(42, RetValue::Bool(true));
    // A watcher created afterwards still resolves to it.
    let watcher = CallbackWatcher::new(42);
    assert_eq!(watcher.poll(&mut table), Some(RetValue::Bool(true)));
}

#[test]
fn interleaved_watchers_resolve_to_their_own_values() {
    let mut table = CorrelationTable::new();
    for id in 1..=5 {
        table.wake(id, RetValue::Raw(format!("r{}", id)));
    }
    // Poll in an unrelated order: every watcher gets its own value.
    for id in [3, 1, 5, 2, 4] {
        let watcher = CallbackWatcher::new(id);
        assert_eq!(watcher.poll(&mut table), Some(RetValue::Raw(format!("r{}", id))));
    }
    for id in 1..=5 {
        assert!(!table.contains(id));
    }
}

#[test]
fn destroy_twice_sends_one_sentinel() {
    let mut conn = built_connection();
    assert!(conn.destroy());
    assert_eq!(conn.state, ConnState::Destroyed);
    // The second teardown is a no-op: no second sentinel, no second release.
    assert!(!conn.destroy());
    assert_eq!(conn.state, ConnState::Destroyed);
}

#[test]
fn missing_item_index_fails_construction() {
    assert_eq!(
        parse_item_index(None).map(|_| ()),
        Err(BuildError::MissingItemIndex)
    );
    assert_eq!(
        parse_item_index(Some("not json")).map(|_| ()),
        Err(BuildError::ItemIndexMalformed)
    );
    let items = parse_item_index(Some(
        "{\"30012\":{\"classifyType\":\"MATERIAL\",\"icon\":\"i\",\"name\":\"n\",\"sortId\":5}}",
    ))
    .unwrap();
    assert_eq!(items.len(), 1);
    assert_eq!(items[0].0, "30012");
    assert_eq!(items[0].1.name, "n");
    assert_eq!(items[0].1.sort_id, 5);
}

#[test]
fn null_handle_fails_construction() {
    let builder = MAABuilder::new("/tmp/resources", "127.0.0.1:5555");
    match builder.make_connection(false, 1, vec![]) {
        Err(BuildError::NullHandle) => (),
        _ => panic!("a null handle must abort construction"),
    }
}

#[test]
fn connect_flow_interprets_engine_replies() {
    let mut conn = built_connection();
    conn.start_polling();
    assert_eq!(conn.state, ConnState::Polling);
    // A zero request id means the connect call could not be issued.
    assert!(matches!(conn.connect_watcher(0), Err(BuildError::ConnectIssueFailed)));
    let watcher = conn.connect_watcher(9).unwrap();
    assert_eq!(watcher.id, 9);
    // The connect request resolving to false is a fatal connect failure.
    assert!(matches!(
        conn.on_connect_result(&RetValue::Bool(false)),
        Err(BuildError::ConnectFailed)
    ));
    assert_eq!(conn.state, ConnState::Polling);
    // A non-boolean resolution is a protocol violation.
    assert!(matches!(
        conn.on_connect_result(&RetValue::Raw("1".to_string())),
        Err(BuildError::UnexpectedCallbackValue)
    ));
    // True completes the transition.
    assert!(conn.on_connect_result(&RetValue::Bool(true)).is_ok());
    assert_eq!(conn.state, ConnState::Connected);
}

#[test]
fn process_event_correlates_async_call_info() {
    let mut conn = built_connection();
    let payload = "{\"uuid\":\"u\",\"what\":\"ConnectTask\",\"async_call_id\":42,\
                   \"details\":{\"ret\":true,\"cost\":12}}";
    assert!(conn.process_event(AsstMsg::AsyncCallInfo, payload));
    let watcher = CallbackWatcher::new(42);
    assert_eq!(watcher.poll(&mut conn.wakes), Some(RetValue::Bool(true)));
}

#[test]
fn process_event_stores_and_overwrites_uuid() {
    let mut conn = built_connection();
    let payload = "{\"what\":\"UuidGot\",\"uuid\":\"ABC123\",\
                   \"details\":{\"adb\":\"adb\",\"address\":\"a\",\"config\":\"c\"}}";
    assert!(conn.process_event(AsstMsg::ConnectionInfo, payload));
    assert_eq!(conn.uuid.as_deref(), Some("ABC123"));
    let payload2 = "{\"what\":\"UuidGot\",\"uuid\":\"DEF456\",\
                    \"details\":{\"adb\":\"adb\",\"address\":\"a\",\"config\":\"c\"}}";
    assert!(conn.process_event(AsstMsg::ConnectionInfo, payload2));
    assert_eq!(conn.uuid.as_deref(), Some("DEF456"));
}

#[test]
fn process_event_ignores_informational_kinds_and_bad_payloads() {
    let mut conn = built_connection();
    assert!(conn.process_event(AsstMsg::TaskChainStart, "{\"taskid\":1}"));
    assert_eq!(conn.uuid, None);
    // A malformed payload is discarded, not propagated.
    assert!(conn.process_event(AsstMsg::AsyncCallInfo, "not json"));
    assert!(!conn.wakes.contains(0));
    // After teardown the loop is told to stop.
    conn.destroy();
    assert!(!conn.process_event(AsstMsg::TaskChainStart, "{}"));
}

#[test]
fn decoders_extract_documented_fields() {
    let info = decode_async_call_info(
        "{\"uuid\":\"u1\",\"what\":\"ConnectTask\",\"async_call_id\":7,\
         \"details\":{\"ret\":\"pong\",\"cost\":3}}",
    )
    .unwrap();
    assert_eq!(info.uuid, "u1");
    assert_eq!(info.what, "ConnectTask");
    assert_eq!(info.async_call_id, 7);
    assert_eq!(info.details.ret, RetValue::Raw("\"pong\"".to_string()));
    assert_eq!(info.details.cost, 3);

    let conn_info = decode_connection_info(
        "{\"what\":\"ResolutionGot\",\"why\":\"w\",\"uuid\":\"u2\",\
         \"details\":{\"adb\":\"adb\",\"address\":\"addr\",\"config\":\"General\",\
         \"width\":1280,\"height\":720}}",
    )
    .unwrap();
    assert_eq!(conn_info.what, "ResolutionGot");
    assert_eq!(conn_info.why.as_deref(), Some("w"));
    assert_eq!(conn_info.details.width, Some(1280));
    assert_eq!(conn_info.details.height, Some(720));

    let failed = decode_init_failed(
        "{\"what\":\"InitFailed\",\"why\":\"bad resources\",\"details\":{\"path\":\"/r\"}}",
    )
    .unwrap();
    assert_eq!(failed.what, "InitFailed");
    assert_eq!(failed.why, "bad resources");
    assert_eq!(failed.details, "{\"path\":\"/r\"}");

    assert!(decode_async_call_info("{\"uuid\":3}").is_none());
    assert!(decode_connection_info("[]").is_none());
}

#[test]
fn handlers_update_the_shared_state() {
    let mut table = CorrelationTable::new();
    wake(&mut table, 1, RetValue::Bool(false));
    assert!(table.contains(1));
    let info = decode_async_call_info(
        "{\"uuid\":\"u\",\"what\":\"t\",\"async_call_id\":2,\
         \"details\":{\"ret\":false,\"cost\":0}}",
    )
    .unwrap();
    handle_async_call_info(&mut table, info);
    assert!(table.contains(2));

    let mut uuid: Option<String> = None;
    let info = decode_connection_info(
        "{\"what\":\"Connected\",\"uuid\":\"u3\",\
         \"details\":{\"adb\":\"adb\",\"address\":\"a\",\"config\":\"c\"}}",
    )
    .unwrap();
    handle_connection_info(&mut uuid, info);
    // Only UuidGot touches the cell.
    assert_eq!(uuid, None);
}

#[test]
fn message_kind_classification() {
    assert_eq!(AsstMsg::from_code(0), Some(AsstMsg::InternalError));
    assert_eq!(AsstMsg::from_code(2), Some(AsstMsg::ConnectionInfo));
    assert_eq!(AsstMsg::from_code(4), Some(AsstMsg::AsyncCallInfo));
    assert_eq!(AsstMsg::from_code(10002), Some(AsstMsg::TaskChainCompleted));
    assert_eq!(AsstMsg::from_code(20003), Some(AsstMsg::SubTaskExtraInfo));
    assert_eq!(AsstMsg::from_code(5), None);
    assert_eq!(AsstMsg::ConnectionInfo.code(), 2);

    let event = Events::classify(4, "{}".to_string()).unwrap();
    assert_eq!(event.kind, AsstMsg::AsyncCallInfo);
    assert_eq!(event.params, "{}");
    assert!(Events::classify(99, "{}".to_string()).is_none());
}

#[test]
fn connection_info_what_classification() {
    assert_eq!(ConnectionInfoWhat::from_name("UuidGot"), ConnectionInfoWhat::UuidGot);
    assert_eq!(ConnectionInfoWhat::from_name("ConnectFailed"), ConnectionInfoWhat::ConnectFailed);
    assert_eq!(ConnectionInfoWhat::from_name("ResolutionGot"), ConnectionInfoWhat::ResolutionGot);
    assert_eq!(ConnectionInfoWhat::from_name("SomethingElse"), ConnectionInfoWhat::Unknown);
}

#[test]
fn engine_reply_interpretation() {
    assert!(engine_flag_ok(1).is_ok());
    let err = engine_flag_ok(0).unwrap_err();
    assert_eq!(err.status, 0);
    assert!(interpret_running(1));
    assert!(!interpret_running(0));
}

#[test]
fn builder_setters_accumulate() {
    let builder = MAABuilder::new("/res", "addr:1")
        .with_incremental_path("/inc")
        .with_adb_path("/usr/bin/adb")
        .with_work_dir("/work")
        .with_adb_config(Some("General"))
        .with_callback(Some(EngineCallback));
    assert_eq!(builder.resources_path, "/res");
    assert_eq!(builder.adb_address, "addr:1");
    assert_eq!(builder.incremental_path.as_deref(), Some("/inc"));
    assert_eq!(builder.adb_path.as_deref(), Some("/usr/bin/adb"));
    assert_eq!(builder.work_dir.as_deref(), Some("/work"));
    assert_eq!(builder.adb_config.as_deref(), Some("General"));
}

#[test]
fn recruit_summary_logic() {
    let results = vec![
        RecruitResult {
            level: 4,
            opers: vec![Operator { level: 4, name: "a".to_string() }],
            tags: vec!["t1".to_string()],
        },
        RecruitResult { level: 6, opers: vec![], tags: vec!["t2".to_string()] },
        RecruitResult { level: 6, opers: vec![], tags: vec!["t3".to_string()] },
        RecruitResult { level: 5, opers: vec![], tags: vec![] },
    ];
    let best = max_result_level(&results);
    assert_eq!(best, 6);
    assert_eq!(indices_at_level(&results, best), vec![1, 2]);
    assert_eq!(indices_at_level(&results, 3), Vec::<usize>::new());
}

#[test]
fn report_lines_for_observability_events() {
    let line = init_failure_line("{\"what\":\"Resource\",\"why\":\"not found\",\"details\":{}}");
    assert_eq!(line.as_deref(), Some("Resource: not found"));
    assert!(init_failure_line("{}").is_none());

    let chain = "{\"taskchain\":\"Fight\",\"taskid\":3,\"uuid\":\"u\"}";
    assert_eq!(
        task_chain_report(AsstMsg::TaskChainStart, chain).as_deref(),
        Some("Start Task 3: Fight")
    );
    assert_eq!(
        task_chain_report(AsstMsg::TaskChainCompleted, chain).as_deref(),
        Some("Task 3(Fight) Finished")
    );
    assert_eq!(
        task_chain_report(AsstMsg::TaskChainError, chain).as_deref(),
        Some("Task 3 Errored: Fight")
    );
    assert!(task_chain_report(AsstMsg::SubTaskStart, chain).is_none());
    let negative = "{\"taskchain\":\"Fight\",\"taskid\":-2,\"uuid\":\"u\"}";
    assert_eq!(
        task_chain_report(AsstMsg::TaskChainCompleted, negative).as_deref(),
        Some("Task -2(Fight) Finished")
    );

    let drops = "{\"details\":{\"drops\":[\
                 {\"item_id\":\"30012\",\"item_name\":\"Orirock\",\"quantity\":2},\
                 {\"item_id\":\"30021\",\"item_name\":\"Oriron\",\"quantity\":1}]}}";
    assert_eq!(
        battle_drop_report(drops),
        Some(vec!["Orirock x 2".to_string(), "Oriron x 1".to_string()])
    );

    let recruit = "{\"details\":{\"result\":[\
                   {\"level\":4,\"opers\":[{\"name\":\"a\"}],\"tags\":[\"t1\"]},\
                   {\"level\":5,\"opers\":[{\"name\":\"b\"},{\"name\":\"c\"}],\
                    \"tags\":[\"t2\",\"t3\"]}]}}";
    assert_eq!(
        recruit_combo_report(recruit),
        Some(vec!["Tags Combo: [t2, t3] | Operators: [b, c]".to_string()])
    );
}

#[test]
fn drop_line_formats_name_and_quantity() {
    let drop = DropItem { item_id: "30012".to_string(), item_name: "Orirock".to_string(), quantity: 12 };
    assert_eq!(drop_line(&drop), "Orirock x 12");
}
