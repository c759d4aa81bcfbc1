use notify_core::datasource::{
    check_parameters, run_sql_query_with_parameters, DatasourceService, DatasourceServiceError,
    DatasourceServiceTrait,
};
use notify_core::json::Json;
use notify_core::query::{
    check_required, find_queries, get_notification_query_results, query_json, NotificationError,
    NotificationQueryResult, QueryResults, RequiredCheck, ScheduledNotificationPluginConfig,
};
use notify_core::repository::{NotificationQueryRow, StorageConnection};
use notify_core::test_utils::{get_test_settings, MockDatasourceService, MockQuery};

fn query_row(id: &str, reference_name: &str, query: &str) -> NotificationQueryRow {
    NotificationQueryRow {
        id: id.to_string(),
        name: format!("name of {}", id),
        reference_name: reference_name.to_string(),
        description: String::new(),
        query: query.to_string(),
        required_parameters: "[]".to_string(),
    }
}

fn mock_notification_query_with_no_param_2_rows() -> NotificationQueryRow {
    query_row(
        "id_notification_query_no_param",
        "query_no_param",
        "SELECT sensor_name, latest_temperature, sensor_limit FROM sensors",
    )
}

fn mock_notification_query_with_params() -> NotificationQueryRow {
    query_row(
        "id_notification_query_with_params",
        "query1",
        "SELECT {{ latest_temperature }} AS latest_temperature, {{ sensor_limit }} AS sensor_limit",
    )
}

fn mock_notification_query_with_no_rows() -> NotificationQueryRow {
    query_row(
        "id_notification_query_no_rows",
        "query_no_rows",
        "SELECT 1 WHERE false",
    )
}

const TWO_ROWS: &str = "[{\"latest_temperature\":1.25,\"sensor_name\":\"sensor1\",\"sensor_limit\":-10},{\"latest_temperature\":1.51,\"sensor_name\":\"sensor2\",\"sensor_limit\":-10}]";
const ONE_ROW: &str = "[{\"latest_temperature\":8.5,\"sensor_limit\":8,\"is_above_limit\":true}]";

fn setup() -> (StorageConnection, MockDatasourceService) {
    let mut connection = StorageConnection::new();
    connection
        .notification_queries
        .push(mock_notification_query_with_params());
    connection
        .notification_queries
        .push(mock_notification_query_with_no_param_2_rows());
    connection
        .notification_queries
        .push(mock_notification_query_with_no_rows());
    let datasource = MockDatasourceService {
        queries: vec![
            MockQuery {
                sql_query: "SELECT sensor_name, latest_temperature, sensor_limit FROM sensors"
                    .to_string(),
                result: Ok(TWO_ROWS.to_string()),
            },
            MockQuery {
                sql_query: "SELECT 8.5 AS latest_temperature, 8 AS sensor_limit".to_string(),
                result: Ok(ONE_ROW.to_string()),
            },
            MockQuery {
                sql_query: "SELECT 1 WHERE false".to_string(),
                result: Ok("[]".to_string()),
            },
        ],
    };
    (connection, datasource)
}

fn render_query(sql_query: &str, parameters: &Json) -> Result<String, String> {
    let value = serde_json::from_str(&parameters.to_text()).map_err(|e| format!("{}", e))?;
    let context = tera::Context::from_value(value).map_err(|e| format!("{}", e))?;
    tera::Tera::one_off(sql_query, &context, false).map_err(|e| format!("{}", e))
}

fn run_batch(
    connection: &StorageConnection,
    datasource: &MockDatasourceService,
    parameters: &Json,
    config: &ScheduledNotificationPluginConfig,
    required_query_ids: Vec<String>,
) -> Result<NotificationQueryResult, NotificationError> {
    let rendered: Vec<Result<String, String>> =
        find_queries(connection, &config.notification_query_ids)
            .iter()
            .map(|query| render_query(&query.query, parameters))
            .collect();
    get_notification_query_results(
        connection,
        datasource,
        parameters,
        config,
        required_query_ids,
        &rendered,
    )
}

fn number(text: &str) -> Json {
    Json::Number(text.to_string())
}

fn two_rows() -> Json {
    Json::Array(vec![
        Json::Object(vec![
            ("latest_temperature".to_string(), number("1.25")),
            ("sensor_limit".to_string(), Json::Int(-10)),
            ("sensor_name".to_string(), Json::Str("sensor1".to_string())),
        ]),
        Json::Object(vec![
            ("latest_temperature".to_string(), number("1.51")),
            ("sensor_limit".to_string(), Json::Int(-10)),
            ("sensor_name".to_string(), Json::Str("sensor2".to_string())),
        ]),
    ])
}

fn one_row() -> Json {
    Json::Array(vec![Json::Object(vec![
        ("is_above_limit".to_string(), Json::Bool(true)),
        ("latest_temperature".to_string(), number("8.5")),
        ("sensor_limit".to_string(), Json::Int(8)),
    ])])
}

fn parameters(text: &str) -> Vec<Json> {
    match Json::parse(text) {
        Some(Json::Array(items)) => items,
        other => panic!("Failed to parse notification parameters: {:?}", other),
    }
}

fn config(ids: Vec<String>) -> ScheduledNotificationPluginConfig {
    ScheduledNotificationPluginConfig {
        notification_query_ids: ids,
        required_query_ids: vec![],
    }
}

// Test that we get the correct results when we have a notification query with no parameters
#[test]
fn test_get_notification_query_results_no_param() {
    let (connection, datasource) = setup();
    let all_params = parameters("[{}]");

    let config = config(vec![mock_notification_query_with_no_param_2_rows().id]);

    let query_results = run_batch(
        &connection,
        &datasource,
        &all_params[0],
        &config,
        vec![],
    )
    .unwrap();

    let query_results = match query_results {
        NotificationQueryResult::Success(results) => results,
        NotificationQueryResult::Skipped(reason) => {
            panic!("Query was skipped: {}", reason);
        }
    };

    let result_key = mock_notification_query_with_no_param_2_rows().reference_name;

    assert_eq!(query_results.get(&result_key).unwrap(), &two_rows());
}

// Test that we get the correct results when we have a notification query with parameters
#[test]
fn test_get_notification_query_results_params() {
    let (connection, datasource) = setup();
    let all_params = parameters("[{\"sensor_limit\": \"8\", \"latest_temperature\": \"8.5\"}]");

    let config = config(vec![mock_notification_query_with_params().id]);

    let query_results = run_batch(
        &connection,
        &datasource,
        &all_params[0],
        &config,
        vec![],
    )
    .unwrap();

    let query_results = match query_results {
        NotificationQueryResult::Success(results) => results,
        NotificationQueryResult::Skipped(reason) => {
            panic!("Query was skipped: {}", reason);
        }
    };

    let result_key = mock_notification_query_with_params().reference_name;

    assert_eq!(query_results.get(&result_key).unwrap(), &one_row());
}

// Test that we get the correct results when we have a 2 notification queries, one with parameters and one without
#[test]
fn test_get_notification_query_results_2_queries() {
    let (connection, datasource) = setup();
    let all_params = parameters("[{\"sensor_limit\": \"8\", \"latest_temperature\": \"8.5\"}]");

    let config = config(vec![
        mock_notification_query_with_params().id,
        mock_notification_query_with_no_param_2_rows().id,
    ]);

    let query_results = run_batch(
        &connection,
        &datasource,
        &all_params[0],
        &config,
        vec![],
    )
    .unwrap();

    let query_results = match query_results {
        NotificationQueryResult::Success(results) => results,
        NotificationQueryResult::Skipped(reason) => {
            panic!("Query was skipped: {}", reason);
        }
    };

    // Check we got the 2 results we expected
    assert_eq!(query_results.len(), 2);

    let result_key = mock_notification_query_with_params().reference_name;
    assert_eq!(query_results.get(&result_key).unwrap(), &one_row());

    let result_key = mock_notification_query_with_no_param_2_rows().reference_name;
    assert_eq!(query_results.get(&result_key).unwrap(), &two_rows());
}

// Test we get an error back if we try to run a query missing it's parameters
#[test]
fn test_get_notification_query_results_missing_params() {
    let (connection, datasource) = setup();
    let all_params = parameters("[{}]");

    let config = config(vec![mock_notification_query_with_params().id]);

    let query_results = run_batch(
        &connection,
        &datasource,
        &all_params[0],
        &config,
        vec![],
    )
    .unwrap();

    let query_results = match query_results {
        NotificationQueryResult::Success(results) => results,
        NotificationQueryResult::Skipped(reason) => {
            panic!("Query was skipped: {}", reason);
        }
    };

    // Check we got the error we expected
    assert_eq!(
        query_results
            .get("query1")
            .unwrap()
            .get("error")
            .unwrap()
            .as_str()
            .unwrap(),
        "error running query"
    );
}

// Test that required queries return Skipped when they return no results
#[test]
fn test_get_notification_query_results_required_query_no_results() {
    let (connection, datasource) = setup();
    let all_params = parameters("[{}]");

    let mock_query = mock_notification_query_with_no_rows();
    let config = ScheduledNotificationPluginConfig {
        notification_query_ids: vec![mock_query.id.clone()],
        required_query_ids: vec![mock_query.id.clone()],
    };

    let query_results = run_batch(
        &connection,
        &datasource,
        &all_params[0],
        &config,
        vec![mock_query.id.clone()],
    )
    .unwrap();

    match query_results {
        NotificationQueryResult::Skipped(reason) => {
            assert!(
                reason.contains("Required query"),
                "Expected skip reason to mention required query with no results, got: {}",
                reason
            );
            assert_eq!(reason, "Required query query_no_rows returned no results");
        }
        NotificationQueryResult::Success(_) => {
            panic!("Expected Skipped result but got Success");
        }
    }
}

#[test]
fn required_rows_and_optional_error() {
    let (connection, datasource) = setup();
    let all_params = parameters("[{\"other\": 1}]");
    let config = config(vec![
        mock_notification_query_with_no_param_2_rows().id,
        mock_notification_query_with_params().id,
    ]);
    let result = run_batch(
        &connection,
        &datasource,
        &all_params[0],
        &config,
        vec![mock_notification_query_with_no_param_2_rows().id],
    );
    let results = match result {
        Ok(NotificationQueryResult::Success(results)) => results,
        other => panic!("expected success, got {:?}", other),
    };
    // storage order: the query with parameters comes first
    assert_eq!(results.entries[0].0, "query1");
    assert_eq!(results.entries[1].0, "query_no_param");
    assert_eq!(results.get("query_no_param").unwrap(), &two_rows());
    assert_eq!(
        results.get("query1").unwrap(),
        &Json::Object(vec![
            ("error".to_string(), Json::Str("error running query".to_string())),
            (
                "query".to_string(),
                Json::Str(mock_notification_query_with_params().query)
            ),
            (
                "parameters".to_string(),
                Json::Object(vec![("other".to_string(), Json::Int(1))])
            ),
        ])
    );
}

#[test]
fn required_query_that_is_no_array_is_an_error() {
    let mut connection = StorageConnection::new();
    connection
        .notification_queries
        .push(query_row("q", "odd", "SELECT odd"));
    connection
        .notification_queries
        .push(query_row("later", "later", "SELECT later"));
    let datasource = MockDatasourceService {
        queries: vec![MockQuery {
            sql_query: "SELECT odd".to_string(),
            result: Ok("{\"rows\":3}".to_string()),
        }],
    };
    let result = run_batch(
        &connection,
        &datasource,
        &Json::Object(vec![]),
        &config(vec!["q".to_string(), "later".to_string()]),
        vec!["q".to_string()],
    );
    assert_eq!(
        result,
        Err(NotificationError::InternalError(
            "Required query odd did not return an array (got: {\"rows\":3})".to_string()
        ))
    );
}

#[test]
fn required_query_that_fails_is_an_error() {
    let (connection, datasource) = setup();
    // the query cannot be rendered without its parameters
    let result = run_batch(
        &connection,
        &datasource,
        &Json::Object(vec![]),
        &config(vec![
            mock_notification_query_with_params().id,
            mock_notification_query_with_no_param_2_rows().id,
        ]),
        vec![mock_notification_query_with_params().id],
    );
    match result {
        Err(NotificationError::InternalError(message)) => {
            assert!(message.starts_with(
                "Required query query1 did not return an array (got: {\"error\":\"error running query\""
            ));
        }
        other => panic!("expected an error, got {:?}", other),
    }

    // the result of the query is not JSON
    let mut connection = StorageConnection::new();
    connection
        .notification_queries
        .push(query_row("q", "odd", "SELECT odd"));
    let datasource = MockDatasourceService {
        queries: vec![MockQuery {
            sql_query: "SELECT odd".to_string(),
            result: Ok("<html>".to_string()),
        }],
    };
    let result = run_batch(
        &connection,
        &datasource,
        &Json::Object(vec![]),
        &config(vec!["q".to_string()]),
        vec!["q".to_string()],
    );
    assert_eq!(
        result,
        Err(NotificationError::InternalError(
            "Required query odd did not return an array (got: {\"error\":\"Unable to parse query result\"})"
                .to_string()
        ))
    );
}

#[test]
fn query_without_a_rendering_is_filed_as_failed() {
    let (connection, datasource) = setup();
    let result = get_notification_query_results(
        &connection,
        &datasource,
        &Json::Object(vec![]),
        &config(vec![
            mock_notification_query_with_params().id,
            mock_notification_query_with_no_param_2_rows().id,
        ]),
        vec![],
        &vec![Ok("SELECT 8.5 AS latest_temperature, 8 AS sensor_limit".to_string())],
    );
    let results = match result {
        Ok(NotificationQueryResult::Success(results)) => results,
        other => panic!("expected success, got {:?}", other),
    };
    assert_eq!(results.get("query1").unwrap(), &one_row());
    assert_eq!(
        results
            .get("query_no_param")
            .unwrap()
            .get("error")
            .unwrap()
            .as_str()
            .unwrap(),
        "error running query"
    );
}

#[test]
fn first_required_query_that_fails_decides() {
    let (connection, datasource) = setup();
    // storage order: with parameters (cannot be rendered), two rows, no rows
    let all = vec![
        mock_notification_query_with_params().id,
        mock_notification_query_with_no_param_2_rows().id,
        mock_notification_query_with_no_rows().id,
    ];
    let result = run_batch(
        &connection,
        &datasource,
        &Json::Object(vec![]),
        &config(all.clone()),
        all.clone(),
    );
    assert!(matches!(result, Err(NotificationError::InternalError(_))));

    // without the first being required, the skip of the last decides
    let result = run_batch(
        &connection,
        &datasource,
        &Json::Object(vec![]),
        &config(all.clone()),
        vec![all[1].clone(), all[2].clone()],
    );
    assert_eq!(
        result,
        Ok(NotificationQueryResult::Skipped(
            "Required query query_no_rows returned no results".to_string()
        ))
    );
}

#[test]
fn skip_stops_before_later_queries() {
    let (connection, datasource) = setup();
    // in storage order the query without rows is last, so the two before it ran
    let result = run_batch(
        &connection,
        &datasource,
        &Json::Object(vec![]),
        &config(vec![
            mock_notification_query_with_no_rows().id,
            mock_notification_query_with_no_param_2_rows().id,
        ]),
        vec![mock_notification_query_with_no_rows().id],
    );
    assert_eq!(
        result,
        Ok(NotificationQueryResult::Skipped(
            "Required query query_no_rows returned no results".to_string()
        ))
    );
}

#[test]
fn no_queries_is_success_without_entries() {
    let (connection, datasource) = setup();
    let result = run_batch(
        &connection,
        &datasource,
        &Json::Object(vec![]),
        &config(vec!["unknown".to_string()]),
        vec!["unknown".to_string()],
    );
    assert_eq!(
        result,
        Ok(NotificationQueryResult::Success(QueryResults { entries: vec![] }))
    );
}

#[test]
fn later_entry_of_a_reference_name_counts() {
    let results = QueryResults {
        entries: vec![
            ("a".to_string(), Json::Int(1)),
            ("b".to_string(), Json::Int(2)),
            ("a".to_string(), Json::Int(3)),
        ],
    };
    assert_eq!(results.get("a"), Some(&Json::Int(3)));
    assert_eq!(results.get("b"), Some(&Json::Int(2)));
    assert_eq!(results.get("c"), None);
    assert_eq!(results.len(), 3);
}

#[test]
fn what_is_filed_for_a_query() {
    let parameters = Json::Object(vec![("p".to_string(), Json::Null)]);
    assert_eq!(
        query_json(Ok("[1, 2]".to_string()), &"q".to_string(), &parameters),
        Json::Array(vec![Json::Int(1), Json::Int(2)])
    );
    assert_eq!(
        query_json(Ok("not json".to_string()), &"q".to_string(), &parameters),
        Json::Object(vec![(
            "error".to_string(),
            Json::Str("Unable to parse query result".to_string())
        )])
    );
    assert_eq!(
        query_json(
            Err(DatasourceServiceError::BadUserInput("no".to_string())),
            &"q".to_string(),
            &parameters
        ),
        Json::Object(vec![
            ("error".to_string(), Json::Str("error running query".to_string())),
            ("query".to_string(), Json::Str("q".to_string())),
            ("parameters".to_string(), Json::Object(vec![("p".to_string(), Json::Null)])),
        ])
    );
}

#[test]
fn check_of_a_required_query() {
    let name = "rows".to_string();
    assert_eq!(
        check_required(&Json::Array(vec![Json::Null]), &name),
        RequiredCheck::Passed
    );
    assert_eq!(
        check_required(&Json::Array(vec![]), &name),
        RequiredCheck::Skipped("Required query rows returned no results".to_string())
    );
    assert_eq!(
        check_required(&Json::Null, &name),
        RequiredCheck::Malformed(
            "Required query rows did not return an array (got: null)".to_string()
        )
    );
    assert_eq!(
        check_required(&Json::Str("x".to_string()), &name),
        RequiredCheck::Malformed(
            "Required query rows did not return an array (got: \"x\")".to_string()
        )
    );
}

#[test]
fn queries_are_found_in_storage_order() {
    let (connection, _) = setup();
    let found = find_queries(
        &connection,
        &vec![
            "id_notification_query_no_rows".to_string(),
            "id_notification_query_with_params".to_string(),
            "missing".to_string(),
        ],
    );
    let ids: Vec<&str> = found.iter().map(|q| q.id.as_str()).collect();
    assert_eq!(
        ids,
        vec!["id_notification_query_with_params", "id_notification_query_no_rows"]
    );
}

#[test]
fn parameters_have_to_be_an_object() {
    assert_eq!(check_parameters(&Json::Object(vec![])), Ok(()));
    assert_eq!(
        check_parameters(&Json::Array(vec![])),
        Err(DatasourceServiceError::InternalError(
            "Failed to convert params to tera context: Creating a Context from a Value/Serialize requires it being a JSON object"
                .to_string()
        ))
    );
    match check_parameters(&Json::Null) {
        Err(DatasourceServiceError::InternalError(_)) => {}
        other => panic!("expected an internal error, got {:?}", other),
    }
}

#[test]
fn rendered_query_is_what_runs() {
    let (_, datasource) = setup();
    let parameters = Json::Object(vec![
        ("sensor_limit".to_string(), Json::Int(8)),
        ("latest_temperature".to_string(), Json::Number("8.5".to_string())),
    ]);
    let rendered = render_query(&mock_notification_query_with_params().query, &parameters);
    assert_eq!(
        rendered,
        Ok("SELECT 8.5 AS latest_temperature, 8 AS sensor_limit".to_string())
    );
    assert_eq!(
        run_sql_query_with_parameters(&datasource, &parameters, rendered),
        Ok(ONE_ROW.to_string())
    );
    assert_eq!(
        run_sql_query_with_parameters(&datasource, &parameters, Ok("SELECT 2".to_string())),
        Err(DatasourceServiceError::BadUserInput(
            "Could not run query: SELECT 2".to_string()
        ))
    );
    assert_eq!(
        run_sql_query_with_parameters(&datasource, &parameters, Err("no such variable".to_string())),
        Err(DatasourceServiceError::InternalError(
            "Failed to parse query as tera template: no such variable".to_string()
        ))
    );
    // parameters that are no object come first, whatever was rendered
    match run_sql_query_with_parameters(
        &datasource,
        &Json::Null,
        Ok("SELECT 8.5 AS latest_temperature, 8 AS sensor_limit".to_string()),
    ) {
        Err(DatasourceServiceError::InternalError(message)) => {
            assert!(message.starts_with("Failed to convert params to tera context: "))
        }
        other => panic!("expected an internal error, got {:?}", other),
    }
}

#[test]
fn mock_datasource_answers_from_its_list() {
    let datasource = MockDatasourceService {
        queries: vec![
            MockQuery {
                sql_query: "a".to_string(),
                result: Ok("[1]".to_string()),
            },
            MockQuery {
                sql_query: "b".to_string(),
                result: Err(DatasourceServiceError::InternalError("down".to_string())),
            },
            MockQuery {
                sql_query: "a".to_string(),
                result: Ok("[2]".to_string()),
            },
        ],
    };
    assert_eq!(datasource.run_sql_query("a".to_string()), Ok("[1]".to_string()));
    assert_eq!(
        datasource.run_sql_query("b".to_string()),
        Err(DatasourceServiceError::InternalError("down".to_string()))
    );
    assert_eq!(
        datasource.run_sql_query("c".to_string()),
        Err(DatasourceServiceError::BadUserInput("Could not run query: c".to_string()))
    );
    assert_eq!(datasource.run_recipient_query("a".to_string()), Ok(vec![]));
    assert!(MockDatasourceService::new().queries.is_empty());
}

#[test]
fn datasource_service_keeps_its_settings() {
    let service = DatasourceService::new(get_test_settings("db"));
    assert_eq!(service.settings, get_test_settings("other").datasource);
    assert_eq!(service.settings.database_name, "dashboard");
}
