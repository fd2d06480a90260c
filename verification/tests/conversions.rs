use botloader::config::{
    check_guild_script_limit, guild_meta_config_from_db, joined_guild_from_db, plugin_from_db,
    premium_slot_from_db, script_from_db, state_from_int, state_to_int, tier_from_int,
    tier_to_int, user_meta_from_db, ConfigStoreError, DbGuildMetaConfig, DbJoinedGuild, DbPlugin,
    DbPremiumSlot, DbScript, DbUserMeta, PluginData, PremiumSlotState, PremiumSlotTier,
};
use botloader::errors::{
    error_response_body, serialize_validation_errors, ApiErrorResponse, ValidationError,
};
use botloader::ops::{ms_to_parts, schedule_task, TaskOpError};
use botloader::runtime::{
    check_resource_capacity, current_guild_id_string, disabled_op, in_mem_source_load_fn,
    script_start, validate_script_meta, RuntimeEvent, ScriptMeta,
};
use botloader::textfmt::u64_to_string;
use botloader::timers::TimerStore;
use botloader::vm::LogLevel;

#[test]
fn tier_and_state_codes_round_trip() {
    assert_eq!(tier_to_int(PremiumSlotTier::Lite), 1);
    assert_eq!(tier_to_int(PremiumSlotTier::Premium), 2);
    assert_eq!(tier_from_int(1), PremiumSlotTier::Lite);
    assert_eq!(tier_from_int(2), PremiumSlotTier::Premium);
    for s in [
        PremiumSlotState::Active,
        PremiumSlotState::Cancelling,
        PremiumSlotState::Cancelled,
        PremiumSlotState::PaymentFailed,
    ] {
        assert_eq!(state_from_int(state_to_int(s)), s);
    }
    assert_eq!(state_to_int(PremiumSlotState::Active), 1);
    assert_eq!(state_to_int(PremiumSlotState::PaymentFailed), 4);
}

#[test]
fn premium_slot_row_converts() {
    let row = DbPremiumSlot {
        id: 5,
        title: "slot".to_string(),
        user_id: Some(11),
        message: "hi".to_string(),
        source: "shop".to_string(),
        source_id: "s-1".to_string(),
        tier: 2,
        state: 3,
        created_at_ms: 1_600_000_000_000,
        updated_at_ms: 1_600_000_100_000,
        expires_at_ms: 1_700_000_000_000,
        manage_url: "https://example.invalid/manage".to_string(),
        attached_guild_id: None,
    };
    let slot = premium_slot_from_db(row);
    assert_eq!(slot.id, 5);
    assert_eq!(slot.user_id, Some(11));
    assert_eq!(slot.tier, PremiumSlotTier::Premium);
    assert_eq!(slot.state, PremiumSlotState::Cancelled);
    assert_eq!(slot.attached_guild_id, None);
    assert_eq!(slot.expires_at_ms, 1_700_000_000_000);
}

#[test]
fn guild_meta_channel_zero_means_none() {
    let none = guild_meta_config_from_db(DbGuildMetaConfig { guild_id: 7, error_channel_id: 0 });
    assert_eq!(none.error_channel_id, None);
    let some = guild_meta_config_from_db(DbGuildMetaConfig { guild_id: 7, error_channel_id: 42 });
    assert_eq!(some.error_channel_id, Some(42));
}

#[test]
fn joined_guild_row_converts() {
    let g = joined_guild_from_db(DbJoinedGuild {
        id: 9,
        name: "guild".to_string(),
        icon: "icon".to_string(),
        owner_id: 3,
        left_at_ms: Some(1_650_000_000_000),
    });
    assert_eq!(g.id, 9);
    assert_eq!(g.owner_id, 3);
    assert_eq!(g.left_at_ms, Some(1_650_000_000_000));
}

#[test]
fn script_row_converts_with_default_contributes() {
    let s = script_from_db(DbScript {
        id: 4,
        guild_id: 7,
        name: "greeter".to_string(),
        original_source: "let a = 1".to_string(),
        enabled: true,
        contributes_commands: None,
        contributes_interval_timers: None,
        plugin_id: Some(2),
        plugin_auto_update: Some(true),
    });
    assert_eq!(s.id, 4);
    assert_eq!(s.name, "greeter");
    assert_eq!(s.plugin_id, Some(2));
    assert_eq!(s.plugin_auto_update, Some(true));
    assert!(s.contributes.commands.is_empty());
    assert!(s.contributes.interval_timers.is_empty());
}

#[test]
fn plugin_row_converts() {
    let p = plugin_from_db(DbPlugin {
        id: 8,
        created_at_ms: 1_500_000_000_000,
        name: "plug".to_string(),
        short_description: "short".to_string(),
        long_description: "long".to_string(),
        is_published: true,
        is_official: false,
        plugin_kind: 0,
        current_version_number: 3,
        script_published_source: Some("pub-src".to_string()),
        script_published_version_updated_at_ms: Some(1_550_000_000_000),
        script_dev_source: None,
        script_dev_version_updated_at_ms: None,
        author_id: 77,
        is_public: true,
    });
    assert_eq!(p.id, 8);
    assert_eq!(p.author_id, 77);
    let PluginData::ScriptPluginData(d) = p.data;
    assert_eq!(d.published_version.as_deref(), Some("pub-src"));
    assert_eq!(d.dev_version, None);
}

#[test]
fn user_meta_row_converts() {
    let m = user_meta_from_db(DbUserMeta {
        discord_user_id: 1,
        is_moderator: true,
        is_admin: false,
        is_verified: true,
    });
    assert!(m.is_moderator && !m.is_admin && m.is_verified);
}

#[test]
fn guild_script_limit_guard() {
    assert!(check_guild_script_limit(0).is_ok());
    assert!(check_guild_script_limit(100).is_ok());
    match check_guild_script_limit(101) {
        Err(ConfigStoreError::GuildScriptLimitReached(count, limit)) => {
            assert_eq!(count, 101);
            assert_eq!(limit, 100);
        }
        _ => panic!("expected the limit error"),
    }
}

#[test]
fn public_descriptions_are_stable() {
    let cases: Vec<(ApiErrorResponse, u16, u32, &str)> = vec![
        (ApiErrorResponse::SessionExpired, 400, 1, "Session expired"),
        (ApiErrorResponse::BadCsrfToken, 400, 2, "csrf token expired"),
        (ApiErrorResponse::InternalError, 500, 3, "internal server error"),
        (ApiErrorResponse::NoActiveGuild, 400, 5, "no active guild"),
        (ApiErrorResponse::NotGuildAdmin, 403, 6, "not guild admin"),
        (ApiErrorResponse::NoAccessToPlugin, 403, 7, "you do not have access to this plugin"),
        (ApiErrorResponse::UserPluginLimitReached, 400, 8, "you have created too many plugins"),
        (ApiErrorResponse::PluginNotFound, 400, 9, "Plugin does not exist"),
    ];
    for (err, status, code, desc) in cases {
        let (s, c, d) = err.public_desc();
        assert_eq!(s, status);
        assert_eq!(c, code);
        assert_eq!(d, desc);
    }

    let v = ApiErrorResponse::ValidationFailed(vec![ValidationError {
        field: "name".to_string(),
        msg: "too long".to_string(),
    }]);
    let (s, c, d) = v.public_desc();
    assert_eq!(s, 400);
    assert_eq!(c, 4);
    assert_eq!(d, "[{\"field\":\"name\",\"msg\":\"too long\"}]");
}

#[test]
fn validation_errors_serialize_with_escaping() {
    assert_eq!(serialize_validation_errors(&Vec::new()), "[]");
    let list = vec![
        ValidationError { field: "a\"b".to_string(), msg: "line\nbreak".to_string() },
        ValidationError { field: "c".to_string(), msg: "tab\there".to_string() },
    ];
    assert_eq!(
        serialize_validation_errors(&list),
        "[{\"field\":\"a\\\"b\",\"msg\":\"line\\nbreak\"},{\"field\":\"c\",\"msg\":\"tab\\there\"}]"
    );
}

#[test]
fn error_bodies_are_json() {
    assert_eq!(
        error_response_body(&ApiErrorResponse::InternalError),
        "{\"code\":3,\"description\":\"internal server error\"}"
    );
    let v = ApiErrorResponse::ValidationFailed(vec![ValidationError {
        field: "f".to_string(),
        msg: "m".to_string(),
    }]);
    // the serialized findings are embedded as one escaped JSON string
    assert_eq!(
        error_response_body(&v),
        "{\"code\":4,\"description\":\"[{\\\"field\\\":\\\"f\\\",\\\"msg\\\":\\\"m\\\"}]\"}"
    );
}

#[test]
fn decimal_rendering() {
    assert_eq!(u64_to_string(0), "0");
    assert_eq!(u64_to_string(7), "7");
    assert_eq!(u64_to_string(1234567890123456789), "1234567890123456789");
    assert_eq!(u64_to_string(u64::MAX), "18446744073709551615");
    assert_eq!(current_guild_id_string(987654321), "987654321");
}

#[test]
fn milliseconds_split() {
    assert_eq!(ms_to_parts(1_694_000_123_456), (1_694_000_123, 456));
    assert_eq!(ms_to_parts(999), (0, 999));
    assert_eq!(ms_to_parts(1000), (1, 0));
}

#[test]
fn script_meta_validation_report() {
    assert!(validate_script_meta(&Vec::new(), &Vec::new()).is_ok());
    let cmd = vec![("a".to_string(), "bad".to_string())];
    let grp = vec![("g".to_string(), "worse".to_string())];
    let err = validate_script_meta(&cmd, &grp).unwrap_err();
    assert_eq!(
        err,
        "failed validating script: \ncommand a: bad\ncommand group g: worse"
    );
}

#[test]
fn script_start_publishes_or_logs() {
    let meta = ScriptMeta {
        script_id: 42,
        commands: Vec::new(),
        command_groups: Vec::new(),
        task_names: vec!["x".to_string()],
        interval_timers: Vec::new(),
    };
    let mut events = Vec::new();
    let mut logs = Vec::new();
    script_start(7, meta, Ok(()), &mut events, &mut logs).unwrap();
    assert!(matches!(events.last(), Some(RuntimeEvent::ScriptStarted(m)) if m.script_id == 42));
    assert!(logs.is_empty());

    let meta2 = ScriptMeta {
        script_id: 42,
        commands: Vec::new(),
        command_groups: Vec::new(),
        task_names: Vec::new(),
        interval_timers: Vec::new(),
    };
    let r = script_start(7, meta2, Err("bad command".to_string()), &mut events, &mut logs);
    assert_eq!(r.unwrap_err(), "bad command");
    assert_eq!(events.len(), 1);
    assert_eq!(logs.len(), 1);
    assert_eq!(logs[0].level, LogLevel::ScriptError);
    assert_eq!(logs[0].message, "script meta validation failed: bad command");
    assert_eq!(logs[0].context.as_deref(), Some("42"));
}

#[test]
fn resource_capacity_guard() {
    assert!(check_resource_capacity(0).is_ok());
    assert!(check_resource_capacity(100).is_ok());
    assert_eq!(
        check_resource_capacity(101).unwrap_err(),
        "exhausted resource table limit, make sure to close your resources when you're done with them."
    );
}

#[test]
fn disabled_op_refuses() {
    assert_eq!(disabled_op().unwrap_err(), "this op is disabled");
}

#[test]
fn in_mem_loader_serves_source() {
    let loader = in_mem_source_load_fn("export {};");
    assert_eq!(loader.load().unwrap(), "export {};");
}

#[test]
fn schedule_task_serializes_json_payload() {
    let mut store = TimerStore::new();
    let mut events = Vec::new();
    let mut map = serde_json::Map::new();
    map.insert("n".to_string(), serde_json::Value::from(1));
    let value = serde_json::Value::Object(map);

    // {"n":1} is seven bytes: a limit of three refuses it
    let refused = schedule_task(
        &mut store,
        7,
        "x".to_string(),
        None,
        &value,
        1000,
        3,
        100,
        &mut events,
    );
    assert!(matches!(refused, Err(TaskOpError::DataTooLarge(3))));

    let accepted = schedule_task(
        &mut store,
        7,
        "x".to_string(),
        None,
        &value,
        1000,
        100,
        100,
        &mut events,
    )
    .unwrap();
    assert_eq!(accepted.data, "{\"n\":1}");
    assert_eq!(accepted.fire_at_ms, 1000);
    assert!(matches!(events.last(), Some(RuntimeEvent::NewTaskScheduled)));
}
