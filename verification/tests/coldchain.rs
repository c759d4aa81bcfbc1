use notify_core::coldchain::{evaluate_sensor_status, LatestTemperatureRow, SensorStatus};

const HOUR: i64 = 3_600_000_000;

fn row(log_datetime: i64, temperature: Option<i64>) -> LatestTemperatureRow {
    LatestTemperatureRow {
        id: "1".to_string(),
        sensor_id: "1".to_string(),
        log_datetime,
        temperature,
    }
}

#[test]
fn test_evaluate_sensor_status() {
    // 2020-01-01T00:00:00
    let now: i64 = 1_577_836_800_000_000;
    let high_temp_threshold: i64 = 8_000;
    let low_temp_threshold: i64 = 2_000;
    let max_age = HOUR;

    // Ok (High and low thresholds are within limits)
    let status = evaluate_sensor_status(
        now,
        Some(row(now, Some(low_temp_threshold))),
        high_temp_threshold,
        low_temp_threshold,
        max_age,
    );
    assert_eq!(status, SensorStatus::Okay);

    let status = evaluate_sensor_status(
        now,
        Some(row(now, Some(high_temp_threshold))),
        high_temp_threshold,
        low_temp_threshold,
        max_age,
    );
    assert_eq!(status, SensorStatus::Okay);

    // High Temp
    let status = evaluate_sensor_status(
        now,
        Some(row(now, Some(high_temp_threshold + 1_000))),
        high_temp_threshold,
        low_temp_threshold,
        max_age,
    );
    assert_eq!(status, SensorStatus::HighTemp);

    // Low Temp
    let status = evaluate_sensor_status(
        now,
        Some(row(now, Some(low_temp_threshold - 1_000))),
        high_temp_threshold,
        low_temp_threshold,
        max_age,
    );
    assert_eq!(status, SensorStatus::LowTemp);

    // No Data (no Row)
    let status =
        evaluate_sensor_status(now, None, high_temp_threshold, low_temp_threshold, max_age);
    assert_eq!(status, SensorStatus::NoData);

    // No Data (row with null temp)
    let status = evaluate_sensor_status(
        now,
        Some(row(now, None)),
        high_temp_threshold,
        low_temp_threshold,
        max_age,
    );
    assert_eq!(status, SensorStatus::NoData);

    // No Data (row too old)
    let status = evaluate_sensor_status(
        now,
        Some(row(now - 2 * HOUR, Some(low_temp_threshold))),
        high_temp_threshold,
        low_temp_threshold,
        max_age,
    );
    assert_eq!(status, SensorStatus::NoData);
}

use notify_core::coldchain::{
    evaluate_sensor, latest_temperature, process_coldchain_alerts, transition_notification,
    try_process_coldchain_notifications, AlertTemplates, ColdChainError, ColdChainPluginConfig,
    SensorOutcome, SensorState, SensorTransition, HIGH_TEMP_THRESHOLD, LOW_TEMP_THRESHOLD,
    MAX_AGE,
};
use notify_core::enqueue::TemplateDefinition;
use notify_core::json::Json;
use notify_core::mock::{mock_recipient_a, mock_recipient_c};
use notify_core::service_provider::ServiceContext;
use notify_core::plugin_store::{get_value, set_value};
use notify_core::repository::{
    NotificationConfigKind, NotificationConfigRow, NotificationConfigStatus, StorageConnection,
};

const NOW: i64 = 1_577_836_800_000_000;

fn log(sensor_id: &str, log_datetime: i64, temperature: Option<i64>) -> LatestTemperatureRow {
    LatestTemperatureRow {
        id: format!("{}-{}", sensor_id, log_datetime),
        sensor_id: sensor_id.to_string(),
        log_datetime,
        temperature,
    }
}

fn stored(connection: &StorageConnection, sensor_id: &str) -> Option<String> {
    get_value(
        connection,
        &"coldchain".to_string(),
        &format!("state_coldchain_{}", sensor_id),
    )
}

#[test]
fn thresholds_are_exclusive_at_extremes() {
    let at = |t: i64| evaluate_sensor_status(NOW, Some(row(NOW, Some(t))), 5, -5, HOUR);
    assert_eq!(at(5), SensorStatus::Okay);
    assert_eq!(at(-5), SensorStatus::Okay);
    assert_eq!(at(0), SensorStatus::Okay);
    assert_eq!(at(6), SensorStatus::HighTemp);
    assert_eq!(at(-6), SensorStatus::LowTemp);
    assert_eq!(at(i64::MAX), SensorStatus::HighTemp);
    assert_eq!(at(i64::MIN), SensorStatus::LowTemp);
}

#[test]
fn age_is_compared_without_overflow() {
    // exactly max_age old is still fresh
    let status = evaluate_sensor_status(NOW, Some(row(NOW - HOUR, Some(3_000))), 8_000, 2_000, HOUR);
    assert_eq!(status, SensorStatus::Okay);
    let status =
        evaluate_sensor_status(NOW, Some(row(NOW - HOUR - 1, Some(3_000))), 8_000, 2_000, HOUR);
    assert_eq!(status, SensorStatus::NoData);
    // a reading from the future is fresh
    let status = evaluate_sensor_status(NOW, Some(row(NOW + HOUR, Some(9_000))), 8_000, 2_000, HOUR);
    assert_eq!(status, SensorStatus::HighTemp);
    // the difference does not fit an i64
    let status =
        evaluate_sensor_status(i64::MAX, Some(row(i64::MIN, Some(3_000))), 8_000, 2_000, i64::MAX);
    assert_eq!(status, SensorStatus::NoData);
    let status =
        evaluate_sensor_status(i64::MIN, Some(row(i64::MAX, Some(3_000))), 8_000, 2_000, i64::MIN);
    assert_eq!(status, SensorStatus::Okay);
    // a stale reading is no data even where its value is fine
    let status = evaluate_sensor_status(NOW, Some(row(NOW - 2 * HOUR, Some(5_000))), 8_000, 2_000, HOUR);
    assert_eq!(status, SensorStatus::NoData);
}

#[test]
fn latest_log_of_a_sensor() {
    let rows = vec![
        log("a", 10, Some(1)),
        log("b", 99, Some(2)),
        log("a", 30, None),
        log("a", 30, Some(4)),
        log("a", 20, Some(5)),
    ];
    assert_eq!(
        latest_temperature(&rows, &"a".to_string()),
        Some(log("a", 30, None))
    );
    assert_eq!(
        latest_temperature(&rows, &"b".to_string()),
        Some(log("b", 99, Some(2)))
    );
    assert_eq!(latest_temperature(&rows, &"c".to_string()), None);
    assert_eq!(latest_temperature(&vec![], &"a".to_string()), None);
}

#[test]
fn state_is_kept_as_json() {
    let state = SensorState {
        sensor_id: "fridge \"1\"".to_string(),
        status: SensorStatus::HighTemp,
        timestamp: NOW,
        temperature: Some(23_500),
    };
    let text = state.to_json_string();
    assert_eq!(
        text,
        "{\"sensor_id\":\"fridge \\\"1\\\"\",\"status\":\"HighTemp\",\"temperature\":23500,\"timestamp\":1577836800000000}"
    );
    assert_eq!(SensorState::from_string(&text), Ok(state));

    let state = SensorState {
        sensor_id: "s".to_string(),
        status: SensorStatus::Okay,
        timestamp: -1,
        temperature: None,
    };
    assert_eq!(
        state.to_json(),
        Json::Object(vec![
            ("sensor_id".to_string(), Json::Str("s".to_string())),
            ("status".to_string(), Json::Str("Ok".to_string())),
            ("timestamp".to_string(), Json::Int(-1)),
            ("temperature".to_string(), Json::Null),
        ])
    );
    assert_eq!(SensorState::from_string(&state.to_json_string()), Ok(state));
    for status in [SensorStatus::LowTemp, SensorStatus::NoData] {
        let state = SensorState {
            sensor_id: "s".to_string(),
            status,
            timestamp: 5,
            temperature: Some(-3),
        };
        assert_eq!(SensorState::from_string(&state.to_json_string()), Ok(state));
    }
}

#[test]
fn state_that_cannot_be_read() {
    let unreadable = [
        "",
        "not json",
        "[]",
        "{}",
        "{\"sensor_id\":\"s\",\"status\":\"Warm\",\"timestamp\":1}",
        "{\"sensor_id\":\"s\",\"status\":\"Ok\",\"timestamp\":\"1\"}",
        "{\"sensor_id\":\"s\",\"status\":\"Ok\",\"timestamp\":1.5}",
        "{\"sensor_id\":7,\"status\":\"Ok\",\"timestamp\":1}",
        "{\"sensor_id\":\"s\",\"status\":\"Ok\",\"timestamp\":1,\"temperature\":\"cold\"}",
        "{\"sensor_id\":\"s\",\"status\":\"Ok\"}",
    ];
    for text in unreadable {
        match SensorState::from_string(text) {
            Err(ColdChainError::UnableToParseConfig(_)) => {}
            other => panic!("{} was read as {:?}", text, other),
        }
    }
    // the temperature may be missing
    assert_eq!(
        SensorState::from_string("{\"sensor_id\":\"s\",\"status\":\"NoData\",\"timestamp\":1}"),
        Ok(SensorState {
            sensor_id: "s".to_string(),
            status: SensorStatus::NoData,
            timestamp: 1,
            temperature: None,
        })
    );
}

#[test]
fn configuration_names_its_sensors() {
    assert_eq!(
        ColdChainPluginConfig::from_string("{\"entity_ids\": [\"a\", \"b\"], \"other\": 1}"),
        Ok(ColdChainPluginConfig {
            sensor_ids: vec!["a".to_string(), "b".to_string()]
        })
    );
    assert_eq!(
        ColdChainPluginConfig::from_string("{\"entity_ids\": []}"),
        Ok(ColdChainPluginConfig { sensor_ids: vec![] })
    );
    for text in ["{}", "", "[\"a\"]", "{\"entity_ids\": [\"a\", 1]}", "{\"entity_ids\": \"a\"}"] {
        match ColdChainPluginConfig::from_string(text) {
            Err(ColdChainError::UnableToParseConfig(_)) => {}
            other => panic!("{} was read as {:?}", text, other),
        }
    }
}

#[test]
fn first_bad_reading_is_a_transition() {
    let mut connection = StorageConnection::new();
    let outcome = evaluate_sensor(
        &mut connection,
        &"s1".to_string(),
        Some(log("s1", NOW, Some(HIGH_TEMP_THRESHOLD + 1))),
        NOW,
    );
    let state = SensorState {
        sensor_id: "s1".to_string(),
        status: SensorStatus::HighTemp,
        timestamp: NOW,
        temperature: Some(HIGH_TEMP_THRESHOLD + 1),
    };
    assert_eq!(
        outcome,
        SensorOutcome::Changed(SensorTransition {
            previous: SensorStatus::Okay,
            state: SensorState {
                sensor_id: "s1".to_string(),
                status: SensorStatus::HighTemp,
                timestamp: NOW,
                temperature: Some(HIGH_TEMP_THRESHOLD + 1),
            },
        })
    );
    assert_eq!(stored(&connection, "s1"), Some(state.to_json_string()));
    assert_eq!(connection.plugin_store.len(), 1);
}

#[test]
fn first_good_reading_writes_nothing() {
    let mut connection = StorageConnection::new();
    let outcome = evaluate_sensor(
        &mut connection,
        &"s1".to_string(),
        Some(log("s1", NOW, Some(LOW_TEMP_THRESHOLD))),
        NOW,
    );
    assert_eq!(outcome, SensorOutcome::Unchanged);
    assert!(connection.plugin_store.is_empty());
}

#[test]
fn unchanged_status_is_not_written_again() {
    let mut connection = StorageConnection::new();
    let id = "s1".to_string();
    let first = evaluate_sensor(&mut connection, &id, Some(log("s1", NOW, Some(30_000))), NOW);
    assert!(matches!(first, SensorOutcome::Changed(_)));
    let kept = stored(&connection, "s1");

    // warmer still, and later: the status is the same
    let later = NOW + 60_000_000;
    let second = evaluate_sensor(&mut connection, &id, Some(log("s1", later, Some(31_000))), later);
    assert_eq!(second, SensorOutcome::Unchanged);
    assert_eq!(stored(&connection, "s1"), kept);
    assert_eq!(connection.plugin_store.len(), 1);

    // back to fine: a transition again, with the time of the reading
    let third =
        evaluate_sensor(&mut connection, &id, Some(log("s1", later - 7, Some(21_000))), later);
    match third {
        SensorOutcome::Changed(transition) => {
            assert_eq!(transition.previous, SensorStatus::HighTemp);
            assert_eq!(transition.state.status, SensorStatus::Okay);
            assert_eq!(transition.state.timestamp, later - 7);
        }
        other => panic!("expected a change, got {:?}", other),
    }
    assert_eq!(connection.plugin_store.len(), 1);
    assert_ne!(stored(&connection, "s1"), kept);
}

#[test]
fn state_that_cannot_be_read_leaves_the_sensor_alone() {
    let mut connection = StorageConnection::new();
    set_value(
        &mut connection,
        "coldchain".to_string(),
        "state_coldchain_s1".to_string(),
        "garbage".to_string(),
    );
    let outcome = evaluate_sensor(&mut connection, &"s1".to_string(), None, NOW);
    assert_eq!(outcome, SensorOutcome::Unreadable);
    assert_eq!(stored(&connection, "s1"), Some("garbage".to_string()));
}

#[test]
fn sensor_without_logs_has_no_data() {
    let mut connection = StorageConnection::new();
    let outcome = evaluate_sensor(&mut connection, &"s1".to_string(), None, NOW);
    assert_eq!(
        outcome,
        SensorOutcome::Changed(SensorTransition {
            previous: SensorStatus::Okay,
            state: SensorState {
                sensor_id: "s1".to_string(),
                status: SensorStatus::NoData,
                timestamp: NOW,
                temperature: None,
            },
        })
    );
}

fn config_row(id: &str, sensors: &str, next_due: Option<i64>) -> NotificationConfigRow {
    NotificationConfigRow {
        id: id.to_string(),
        title: format!("title of {}", id),
        kind: NotificationConfigKind::ColdChain,
        configuration_data: sensors.to_string(),
        status: NotificationConfigStatus::Enabled,
        parameters: "{}".to_string(),
        parameter_query_id: None,
        recipient_ids: "[\"id_recipient_a\", \"id_recipient_c\"]".to_string(),
        recipient_list_ids: "[]".to_string(),
        sql_recipient_list_ids: "[]".to_string(),
        last_run_datetime: None,
        next_due_datetime: next_due,
    }
}

#[test]
fn sensors_of_a_configuration_are_evaluated_in_turn() {
    let mut connection = StorageConnection::new();
    let config = config_row("c1", "{\"entity_ids\": [\"cold\", \"fine\", \"gone\", \"warm\"]}", None);
    connection.notification_configs.push(config.clone());
    let temperatures = vec![
        log("warm", NOW - 10, Some(25_000)),
        log("cold", NOW - 10, Some(1_000)),
        log("fine", NOW - 10, Some(21_000)),
        log("gone", NOW - 2 * MAX_AGE, Some(21_000)),
    ];
    let transitions =
        try_process_coldchain_notifications(&mut connection, &config, &temperatures, NOW).unwrap();
    let found: Vec<(&str, SensorStatus, SensorStatus)> = transitions
        .iter()
        .map(|t| (t.state.sensor_id.as_str(), t.previous, t.state.status))
        .collect();
    assert_eq!(
        found,
        vec![
            ("cold", SensorStatus::Okay, SensorStatus::LowTemp),
            ("gone", SensorStatus::Okay, SensorStatus::NoData),
            ("warm", SensorStatus::Okay, SensorStatus::HighTemp),
        ]
    );
    assert_eq!(connection.notification_configs[0].last_run_datetime, Some(NOW));
    assert_eq!(connection.plugin_store.len(), 3);
    assert_eq!(stored(&connection, "fine"), None);

    // the same readings again: nothing to report, nothing written
    let kept = connection.plugin_store.clone_rows();
    let again =
        try_process_coldchain_notifications(&mut connection, &config, &temperatures, NOW + 5)
            .unwrap();
    assert!(again.is_empty());
    assert_eq!(connection.plugin_store.clone_rows(), kept);
    assert_eq!(connection.notification_configs[0].last_run_datetime, Some(NOW + 5));
}

trait CloneRows {
    fn clone_rows(&self) -> Vec<(String, String, String)>;
}

impl CloneRows for Vec<notify_core::repository::PluginStoreRow> {
    fn clone_rows(&self) -> Vec<(String, String, String)> {
        self.iter()
            .map(|row| {
                (
                    row.plugin_name.clone(),
                    row.key.clone(),
                    row.value_string.clone(),
                )
            })
            .collect()
    }
}

#[test]
fn configuration_that_is_not_stored_is_abandoned() {
    let mut connection = StorageConnection::new();
    connection
        .notification_configs
        .push(config_row("other", "{\"entity_ids\": [\"warm\"]}", None));
    let config = config_row("c1", "{\"entity_ids\": [\"warm\"]}", None);
    let temperatures = vec![log("warm", NOW, Some(25_000))];
    let result = try_process_coldchain_notifications(&mut connection, &config, &temperatures, NOW);
    assert_eq!(
        result,
        Err(ColdChainError::InternalError(
            "the configuration is not stored".to_string()
        ))
    );
    assert!(connection.plugin_store.is_empty());
    assert_eq!(connection.notification_configs[0].last_run_datetime, None);
}

#[test]
fn configuration_that_cannot_be_read_is_marked_all_the_same() {
    let mut connection = StorageConnection::new();
    let config = config_row("c1", "{\"sensors\": []}", None);
    connection.notification_configs.push(config.clone());
    connection
        .notification_configs
        .push(config_row("c2", "{\"entity_ids\": []}", None));
    let result = try_process_coldchain_notifications(&mut connection, &config, &vec![], NOW);
    assert!(matches!(result, Err(ColdChainError::UnableToParseConfig(_))));
    let mut marked = config.clone();
    marked.last_run_datetime = Some(NOW);
    assert_eq!(connection.notification_configs[0], marked);
    assert_eq!(connection.notification_configs[1].last_run_datetime, None);
    assert!(connection.plugin_store.is_empty());
}

fn alert_templates() -> AlertTemplates {
    AlertTemplates {
        title_template: None,
        body_template: TemplateDefinition::TemplateName("coldchain/alert.md".to_string()),
    }
}

#[test]
fn due_configurations_are_processed_and_changes_are_sent() {
    let mut connection = StorageConnection::new();
    connection.recipients.push(mock_recipient_a());
    connection.recipients.push(mock_recipient_c());
    connection
        .notification_configs
        .push(config_row("due", "{\"entity_ids\": [\"warm\", \"fine\"]}", Some(NOW)));
    connection
        .notification_configs
        .push(config_row("later", "{\"entity_ids\": [\"warm\"]}", Some(NOW + 1)));
    connection
        .notification_configs
        .push(config_row("broken", "oops", None));
    let mut disabled = config_row("disabled", "{\"entity_ids\": [\"warm\"]}", None);
    disabled.status = NotificationConfigStatus::Disabled;
    connection.notification_configs.push(disabled);
    let mut scheduled = config_row("scheduled", "{\"entity_ids\": [\"warm\"]}", None);
    scheduled.kind = NotificationConfigKind::Scheduled;
    connection.notification_configs.push(scheduled);
    let mut ctx = ServiceContext::new(connection);

    let temperatures = vec![log("warm", NOW, Some(25_000)), log("fine", NOW, Some(21_000))];
    let processed = process_coldchain_alerts(&mut ctx, &alert_templates(), &temperatures, NOW);
    assert_eq!(processed, Ok(2));

    // every configuration that was due is marked, the broken one too
    let runs: Vec<Option<i64>> = ctx
        .connection
        .notification_configs
        .iter()
        .map(|c| c.last_run_datetime)
        .collect();
    assert_eq!(runs, vec![Some(NOW), None, Some(NOW), None, None]);

    assert!(ctx.connection.notification_events.is_empty());
    assert_eq!(ctx.outbox.len(), 1);
    let request = &ctx.outbox[0];
    assert_eq!(request.config_id, Some("due".to_string()));
    assert_eq!(request.notification.title_template, None);
    assert_eq!(
        request.notification.body_template,
        TemplateDefinition::TemplateName("coldchain/alert.md".to_string())
    );
    let addresses: Vec<&str> = request
        .notification
        .recipients
        .iter()
        .map(|r| r.to_address.as_str())
        .collect();
    assert_eq!(addresses, vec!["a@openmsupply.foundation", "chat_id_c"]);
    assert_eq!(
        request.notification.template_data,
        Json::Object(vec![
            ("sensor_id".to_string(), Json::Str("warm".to_string())),
            ("status".to_string(), Json::Str("HighTemp".to_string())),
            ("timestamp".to_string(), Json::Int(NOW)),
            ("temperature".to_string(), Json::Int(25_000)),
            ("previous_status".to_string(), Json::Str("Ok".to_string())),
        ])
    );

    // the next tick sees the same status: nothing more is sent
    let processed = process_coldchain_alerts(&mut ctx, &alert_templates(), &temperatures, NOW + 1);
    assert_eq!(processed, Ok(3));
    assert_eq!(ctx.outbox.len(), 1);
    assert_eq!(ctx.connection.plugin_store.len(), 1);
}

#[test]
fn notification_of_a_transition() {
    let transition = SensorTransition {
        previous: SensorStatus::LowTemp,
        state: SensorState {
            sensor_id: "s".to_string(),
            status: SensorStatus::NoData,
            timestamp: 9,
            temperature: None,
        },
    };
    let templates = AlertTemplates {
        title_template: Some(TemplateDefinition::Template("t".to_string())),
        body_template: TemplateDefinition::TemplateName("b".to_string()),
    };
    let notification = transition_notification(&transition, vec![], &templates);
    assert_eq!(notification.title_template, templates.title_template);
    assert_eq!(notification.body_template, templates.body_template);
    assert!(notification.recipients.is_empty());
    assert_eq!(
        notification.template_data,
        Json::Object(vec![
            ("sensor_id".to_string(), Json::Str("s".to_string())),
            ("status".to_string(), Json::Str("NoData".to_string())),
            ("timestamp".to_string(), Json::Int(9)),
            ("temperature".to_string(), Json::Null),
            ("previous_status".to_string(), Json::Str("LowTemp".to_string())),
        ])
    );
}
