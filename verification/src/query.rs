//! Running the queries of a scheduled notification: each query, rendered
//! with the parameters, is run, and the results are filed under the
//! reference names of the queries.
//!
//! A query that fails does not stop the others: an error object is filed in
//! place of its rows. A required query is checked as soon as it has run:
//! without rows the notification is skipped, and a result that is not an
//! array of rows, such as the error object, is an error.

use crate::datasource::{
    query_outcome, result_view, run_sql_query_with_parameters, DatasourceErrorView,
    DatasourceServiceError, DatasourceServiceTrait,
};
use crate::json::{field_value, fields_view, find_field, json_parse, json_text, Json, JsonValue};
use crate::repository::{queries_view, NotificationQueryRow, QueryView, StorageConnection};
use crate::text::{contains_text, copy_of_result, text_result, texts};
use vstd::prelude::*;
use vstd::string::StringExecFns;

verus! {

/// Why a scheduled notification failed.
#[derive(Debug, PartialEq)]
pub enum NotificationError {
    InternalError(String),
}

/// The part of a configuration that scheduled notifications read: the
/// queries to run, and which of them are required.
#[derive(Debug, PartialEq)]
pub struct ScheduledNotificationPluginConfig {
    pub notification_query_ids: Vec<String>,
    pub required_query_ids: Vec<String>,
}

/// The results of the queries: one entry for each query, in the order in
/// which they ran, the reference name first. Where two queries share a
/// reference name, the later entry counts.
#[derive(Debug, PartialEq)]
pub struct QueryResults {
    pub entries: Vec<(String, Json)>,
}

impl View for QueryResults {
    type V = Seq<(Seq<char>, JsonValue)>;

    open spec fn view(&self) -> Seq<(Seq<char>, JsonValue)> {
        fields_view(self.entries@)
    }
}

impl QueryResults {
    /// The result filed under `reference_name`.
    pub fn get(&self, reference_name: &str) -> (result: Option<&Json>)
        ensures
            match result {
                Some(json) => field_value(self@, reference_name@) == Some(json@),
                None => field_value(self@, reference_name@) is None,
            },
    {
        find_field(&self.entries, reference_name)
    }

    /// The number of entries.
    pub fn len(&self) -> (len: usize)
        ensures
            len == self@.len(),
    {
        self.entries.len()
    }
}

/// What running the queries of a notification came to: the results, or the
/// reason why the notification is skipped.
#[derive(Debug, PartialEq)]
pub enum NotificationQueryResult {
    Success(QueryResults),
    Skipped(String),
}

/// What is filed for a query that could not be rendered or run: an object
/// with the error, the query and the parameters.
pub open spec fn error_value(query: Seq<char>, parameters: JsonValue) -> JsonValue {
    JsonValue::Object(
        seq![
            ("error"@, JsonValue::Str("error running query"@)),
            ("query"@, JsonValue::Str(query)),
            ("parameters"@, parameters),
        ],
    )
}

/// What is filed for a query whose result is not JSON: an object with the
/// error.
pub open spec fn unreadable_value() -> JsonValue {
    JsonValue::Object(seq![("error"@, JsonValue::Str("Unable to parse query result"@))])
}

/// What is filed for a query, from what running it gave: the rows, or an
/// error object.
pub open spec fn query_value(
    result: Result<Seq<char>, DatasourceErrorView>,
    query: Seq<char>,
    parameters: JsonValue,
) -> JsonValue {
    match result {
        Ok(text) => match json_parse(text) {
            Some(rows) => rows,
            None => unreadable_value(),
        },
        Err(_) => error_value(query, parameters),
    }
}

/// What is filed for a query, from what running it gave.
pub fn query_json(
    result: Result<String, DatasourceServiceError>,
    query: &String,
    parameters: &Json,
) -> (json: Json)
    ensures
        json@ == query_value(result_view(result), query@, parameters@),
{
    match result {
        Ok(text) => match Json::parse(text.as_str()) {
            Some(rows) => rows,
            None => {
                let mut fields: Vec<(String, Json)> = Vec::new();
                fields.push(
                    (
                        String::from_str("error"),
                        Json::Str(String::from_str("Unable to parse query result")),
                    ),
                );
                let json = Json::Object(fields);
                proof {
                    reveal_with_fuel(crate::json::json_view, 2);
                    assert(json@->Object_0 =~= unreadable_value()->Object_0);
                }
                json
            },
        },
        Err(_) => {
            let mut fields: Vec<(String, Json)> = Vec::new();
            fields.push(
                (String::from_str("error"), Json::Str(String::from_str("error running query"))),
            );
            fields.push((String::from_str("query"), Json::Str(query.clone())));
            fields.push((String::from_str("parameters"), parameters.duplicate()));
            let json = Json::Object(fields);
            proof {
                reveal_with_fuel(crate::json::json_view, 2);
                assert(json@->Object_0 =~= error_value(query@, parameters@)->Object_0);
            }
            json
        },
    }
}

/// What the check of a required query comes to.
#[derive(Debug, PartialEq)]
pub enum RequiredCheck {
    /// The query has rows.
    Passed,
    /// The query has no rows: the notification is skipped, for this reason.
    Skipped(String),
    /// The result is not an array of rows: the notification fails, with
    /// this message.
    Malformed(String),
}

/// The value of a [`RequiredCheck`].
pub enum RequiredCheckView {
    Passed,
    Skipped(Seq<char>),
    Malformed(Seq<char>),
}

impl View for RequiredCheck {
    type V = RequiredCheckView;

    open spec fn view(&self) -> RequiredCheckView {
        match self {
            RequiredCheck::Passed => RequiredCheckView::Passed,
            RequiredCheck::Skipped(reason) => RequiredCheckView::Skipped(reason@),
            RequiredCheck::Malformed(message) => RequiredCheckView::Malformed(message@),
        }
    }
}

/// Why a notification is skipped.
pub open spec fn skip_reason(reference_name: Seq<char>) -> Seq<char> {
    "Required query "@ + reference_name + " returned no results"@
}

/// The message for a required query whose result is not an array.
pub open spec fn malformed_message(reference_name: Seq<char>, result: JsonValue) -> Seq<char> {
    "Required query "@ + reference_name + " did not return an array (got: "@ + json_text(result)
        + ")"@
}

/// The check of a required query, from what is filed for it.
pub open spec fn required_check(result: JsonValue, reference_name: Seq<char>) -> RequiredCheckView {
    match result {
        JsonValue::Array(rows) => if rows.len() == 0 {
            RequiredCheckView::Skipped(skip_reason(reference_name))
        } else {
            RequiredCheckView::Passed
        },
        _ => RequiredCheckView::Malformed(malformed_message(reference_name, result)),
    }
}

/// Checks the result of a required query.
pub fn check_required(result: &Json, reference_name: &String) -> (check: RequiredCheck)
    ensures
        check@ == required_check(result@, reference_name@),
{
    match result.as_array() {
        Some(rows) => {
            if rows.len() == 0 {
                RequiredCheck::Skipped(
                    String::from_str("Required query ").concat(reference_name.as_str()).concat(
                        " returned no results",
                    ),
                )
            } else {
                RequiredCheck::Passed
            }
        },
        None => RequiredCheck::Malformed(
            String::from_str("Required query ").concat(reference_name.as_str()).concat(
                " did not return an array (got: ",
            ).concat(result.to_text().as_str()).concat(")"),
        ),
    }
}

/// The queries with one of the ids `ids`.
pub open spec fn selected(ids: Seq<Seq<char>>) -> spec_fn(QueryView) -> bool {
    |query: QueryView| ids.contains(query.id)
}

/// The stored queries with one of the ids `ids`, in the order of the
/// storage.
pub fn find_queries(connection: &StorageConnection, ids: &Vec<String>) -> (queries: Vec<
    NotificationQueryRow,
>)
    ensures
        queries_view(queries@) == queries_view(connection.notification_queries@).filter(
            selected(texts(ids@)),
        ),
{
    let rows = &connection.notification_queries;
    let mut queries: Vec<NotificationQueryRow> = Vec::new();
    let mut i: usize = 0;
    assert(queries_view(rows@).take(0) =~= Seq::empty());
    assert(queries_view(queries@) =~= Seq::empty());
    while i < rows.len()
        invariant
            i <= rows@.len(),
            queries_view(queries@) == queries_view(rows@).take(i as int).filter(
                selected(texts(ids@)),
            ),
        decreases rows@.len() - i,
    {
        let row = &rows[i];
        let wanted = contains_text(ids, &row.id);
        proof {
            let all = queries_view(rows@);
            reveal(Seq::filter);
            assert(all.take(i as int + 1).drop_last() =~= all.take(i as int));
            assert(all.take(i as int + 1).last() == row@);
            assert(wanted == selected(texts(ids@))(row@));
        }
        if wanted {
            let ghost before = queries@;
            queries.push(row.clone());
            assert(queries_view(queries@) =~= queries_view(before).push(row@));
        }
        i += 1;
    }
    assert(queries_view(rows@).take(i as int) =~= queries_view(rows@));
    queries
}

/// What stands for the rendering of a query that was not handed in: an
/// error.
pub open spec fn query_not_rendered() -> Result<Seq<char>, Seq<char>> {
    Err("The query was not rendered"@)
}

/// What rendering the query at place `i` gave.
pub open spec fn query_rendering(rendered: Seq<Result<String, String>>, i: int) -> Result<
    Seq<char>,
    Seq<char>,
> {
    if 0 <= i < rendered.len() {
        text_result(rendered[i])
    } else {
        query_not_rendered()
    }
}

/// `value` is what is filed for the query `query` after some outcome that
/// running it may come to on `datasource`, with `rendered` as what
/// rendering it gave.
pub open spec fn is_filed_for<D: DatasourceServiceTrait>(
    datasource: D,
    value: JsonValue,
    query: Seq<char>,
    rendered: Result<Seq<char>, Seq<char>>,
    parameters: JsonValue,
) -> bool {
    exists|outcome: Result<Seq<char>, DatasourceErrorView>|
        query_outcome(datasource, parameters, rendered, outcome) && #[trigger] query_value(
            outcome,
            query,
            parameters,
        ) == value
}

/// `entries` are the results of the queries `queries`, one for each and in
/// their order, each filed after an outcome of running the query, and each
/// required query among them has rows.
pub open spec fn are_results_of<D: DatasourceServiceTrait>(
    datasource: D,
    entries: Seq<(Seq<char>, JsonValue)>,
    queries: Seq<QueryView>,
    rendered: Seq<Result<String, String>>,
    required_query_ids: Seq<Seq<char>>,
    parameters: JsonValue,
) -> bool {
    &&& entries.len() == queries.len()
    &&& forall|i: int|
        0 <= i < entries.len() ==> {
            &&& (#[trigger] entries[i]).0 == queries[i].reference_name
            &&& is_filed_for(
                datasource,
                entries[i].1,
                queries[i].query,
                query_rendering(rendered, i),
                parameters,
            )
            &&& required_query_ids.contains(queries[i].id) ==> required_check(
                entries[i].1,
                queries[i].reference_name,
            ) is Passed
        }
}

/// The batch stopped at the query at place `i`: the queries before it ran
/// and `before` are their results, each required one among them with rows;
/// the query at place `i` is required, `value` is what was filed for it, and
/// the check of `value` came to `check`.
pub open spec fn stops_at<D: DatasourceServiceTrait>(
    datasource: D,
    queries: Seq<QueryView>,
    rendered: Seq<Result<String, String>>,
    required_query_ids: Seq<Seq<char>>,
    parameters: JsonValue,
    i: int,
    before: Seq<(Seq<char>, JsonValue)>,
    value: JsonValue,
    check: RequiredCheckView,
) -> bool {
    &&& 0 <= i < queries.len()
    &&& are_results_of(
        datasource,
        before,
        queries.take(i),
        rendered,
        required_query_ids,
        parameters,
    )
    &&& required_query_ids.contains(queries[i].id)
    &&& is_filed_for(
        datasource,
        value,
        queries[i].query,
        query_rendering(rendered, i),
        parameters,
    )
    &&& required_check(value, queries[i].reference_name) == check
    &&& !(check is Passed)
}

/// The batch stopped at the first required query whose check did not pass,
/// and that check came to `check`.
pub open spec fn stops_with<D: DatasourceServiceTrait>(
    datasource: D,
    queries: Seq<QueryView>,
    rendered: Seq<Result<String, String>>,
    required_query_ids: Seq<Seq<char>>,
    parameters: JsonValue,
    check: RequiredCheckView,
) -> bool {
    exists|i: int, before: Seq<(Seq<char>, JsonValue)>, value: JsonValue| #[trigger]
        stops_at(
            datasource,
            queries,
            rendered,
            required_query_ids,
            parameters,
            i,
            before,
            value,
            check,
        )
}

/// What running the queries `queries` may come to.
pub open spec fn is_batch_outcome<D: DatasourceServiceTrait>(
    datasource: D,
    queries: Seq<QueryView>,
    rendered: Seq<Result<String, String>>,
    required_query_ids: Seq<Seq<char>>,
    parameters: JsonValue,
    result: Result<NotificationQueryResult, NotificationError>,
) -> bool {
    match result {
        Ok(NotificationQueryResult::Success(results)) => are_results_of(
            datasource,
            results@,
            queries,
            rendered,
            required_query_ids,
            parameters,
        ),
        Ok(NotificationQueryResult::Skipped(reason)) => stops_with(
            datasource,
            queries,
            rendered,
            required_query_ids,
            parameters,
            RequiredCheckView::Skipped(reason@),
        ),
        Err(NotificationError::InternalError(message)) => stops_with(
            datasource,
            queries,
            rendered,
            required_query_ids,
            parameters,
            RequiredCheckView::Malformed(message@),
        ),
    }
}

/// None of `queries` is required.
pub open spec fn none_required(queries: Seq<QueryView>, required_query_ids: Seq<Seq<char>>) -> bool {
    forall|i: int| 0 <= i < queries.len() ==> !required_query_ids.contains((#[trigger] queries[i]).id)
}

/// Runs the queries of a notification and files their results.
///
/// The queries are those that the configuration names, in the order of the
/// storage, as [`find_queries`] gives them. `rendered` holds, in that
/// order, what rendering each with `parameters` gave; a query without a
/// rendering counts as not rendered. Each query is run on `datasource` as
/// [`run_sql_query_with_parameters`] does it, and what is filed for it is
/// what [`query_json`] makes of the outcome: the rows, or an error object.
///
/// A query whose id is in `required_query_ids` is then checked as
/// [`check_required`] does it. The first whose check does not pass decides:
/// without rows the whole is `Skipped` with the reason, and a result that
/// is not an array of rows, as is the error object of a query that failed,
/// is an error. In both cases the queries after it are not run and no
/// results are returned.
///
/// Where no query is required the outcome is `Success`, whatever the
/// datasource answers.
pub fn get_notification_query_results<D: DatasourceServiceTrait>(
    connection: &StorageConnection,
    datasource: &D,
    parameters: &Json,
    config: &ScheduledNotificationPluginConfig,
    required_query_ids: Vec<String>,
    rendered: &Vec<Result<String, String>>,
) -> (result: Result<NotificationQueryResult, NotificationError>)
    ensures
        is_batch_outcome(
            *datasource,
            queries_view(connection.notification_queries@).filter(
                selected(texts(config.notification_query_ids@)),
            ),
            rendered@,
            texts(required_query_ids@),
            parameters@,
            result,
        ),
        none_required(
            queries_view(connection.notification_queries@).filter(
                selected(texts(config.notification_query_ids@)),
            ),
            texts(required_query_ids@),
        ) ==> result matches Ok(NotificationQueryResult::Success(_)),
{
    let queries = find_queries(connection, &config.notification_query_ids);
    let ghost all = queries_view(queries@);
    let ghost required = texts(required_query_ids@);
    let mut entries: Vec<(String, Json)> = Vec::new();
    let mut n: usize = 0;
    while n < queries.len()
        invariant
            n <= queries@.len(),
            all == queries_view(queries@),
            all == queries_view(connection.notification_queries@).filter(
                selected(texts(config.notification_query_ids@)),
            ),
            required == texts(required_query_ids@),
            are_results_of(
                *datasource,
                fields_view(entries@),
                all.take(n as int),
                rendered@,
                required,
                parameters@,
            ),
        decreases queries@.len() - n,
    {
        let query = &queries[n];
        assert(all[n as int] == query@);
        let rendering = if n < rendered.len() {
            copy_of_result(&rendered[n])
        } else {
            Err(String::from_str("The query was not rendered"))
        };
        assert(text_result(rendering) == query_rendering(rendered@, n as int));
        let result = run_sql_query_with_parameters(datasource, parameters, rendering);
        let json = query_json(result, &query.query, parameters);
        assert(is_filed_for(
            *datasource,
            json@,
            query.query@,
            query_rendering(rendered@, n as int),
            parameters@,
        )) by {
            assert(query_value(result_view(result), query.query@, parameters@) == json@);
        }
        if contains_text(&required_query_ids, &query.id) {
            match check_required(&json, &query.reference_name) {
                RequiredCheck::Passed => {},
                RequiredCheck::Skipped(reason) => {
                    assert(stops_at(
                        *datasource,
                        all,
                        rendered@,
                        required,
                        parameters@,
                        n as int,
                        fields_view(entries@),
                        json@,
                        RequiredCheckView::Skipped(reason@),
                    ));
                    assert(required.contains(all[n as int].id));
                    assert(!none_required(all, required));
                    return Ok(NotificationQueryResult::Skipped(reason));
                },
                RequiredCheck::Malformed(message) => {
                    assert(stops_at(
                        *datasource,
                        all,
                        rendered@,
                        required,
                        parameters@,
                        n as int,
                        fields_view(entries@),
                        json@,
                        RequiredCheckView::Malformed(message@),
                    ));
                    assert(required.contains(all[n as int].id));
                    assert(!none_required(all, required));
                    return Err(NotificationError::InternalError(message));
                },
            }
        }
        let ghost before = fields_view(entries@);
        entries.push((query.reference_name.clone(), json));
        proof {
            let after = fields_view(entries@);
            assert(after =~= before.push((query.reference_name@, json@)));
            let upto = all.take(n as int + 1);
            assert forall|i: int| 0 <= i < after.len() implies {
                &&& (#[trigger] after[i]).0 == upto[i].reference_name
                &&& is_filed_for(
                    *datasource,
                    after[i].1,
                    upto[i].query,
                    query_rendering(rendered@, i),
                    parameters@,
                )
                &&& required.contains(upto[i].id) ==> required_check(
                    after[i].1,
                    upto[i].reference_name,
                ) is Passed
            } by {
                if i < n {
                    assert(after[i] == before[i]);
                    assert(upto[i] == all.take(n as int)[i]);
                }
            }
        }
        n += 1;
    }
    assert(all.take(n as int) =~= all);
    Ok(NotificationQueryResult::Success(QueryResults { entries }))
}

} // verus!
